//! Image references and image bytes: classifying a reference as local,
//! remote, or data URI; sniffing a MIME type from leading bytes with an
//! extension fallback; turning read and fetch outcomes into embedded
//! images or typed errors; and the strict-versus-graceful failure
//! policy.
//!
//! The actual file reads and HTTP fetches are performed by the caller;
//! the functions here plan them and interpret their outcomes, so that
//! every decision is covered by a contract.

use vstd::prelude::*;

use crate::config::ImageConfig;
use crate::text::{
    hex_digit, hex_digit_str, joined_path, str_eq, str_has_prefix, str_trim, trimmed,
};

verus! {

/// A failure while resolving an image reference to bytes.
#[derive(Debug)]
pub enum ImageError {
    /// A local file was absent; holds the path.
    NotFound(String),
    /// The HTTP transfer failed; holds the URL and the reason.
    FetchFailed(String, String),
    /// A local read failed for another reason; holds the path and the reason.
    ReadFailed(String, String),
    /// The bytes are not an image, or a transcoding step failed; holds the context.
    InvalidImage(String),
}

/// The human-readable message for an error.
pub open spec fn error_message(e: ImageError) -> Seq<char> {
    match e {
        ImageError::NotFound(p) => "Image not found: "@ + p@,
        ImageError::FetchFailed(u, r) => "Failed to fetch image '"@ + u@ + "': "@ + r@,
        ImageError::ReadFailed(p, r) => "Failed to read image '"@ + p@ + "': "@ + r@,
        ImageError::InvalidImage(c) => "Invalid image data: "@ + c@,
    }
}

impl ImageError {
    /// The human-readable message, naming the reference and the cause.
    pub fn message(&self) -> (r: String)
        ensures
            r@ == error_message(*self),
    {
        match self {
            ImageError::NotFound(p) => {
                let mut out = String::from_str("Image not found: ");
                out.append(p.as_str());
                out
            },
            ImageError::FetchFailed(u, reason) => {
                let mut out = String::from_str("Failed to fetch image '");
                out.append(u.as_str());
                out.append("': ");
                out.append(reason.as_str());
                out
            },
            ImageError::ReadFailed(p, reason) => {
                let mut out = String::from_str("Failed to read image '");
                out.append(p.as_str());
                out.append("': ");
                out.append(reason.as_str());
                out
            },
            ImageError::InvalidImage(c) => {
                let mut out = String::from_str("Invalid image data: ");
                out.append(c.as_str());
                out
            },
        }
    }
}

/// Resolved image bytes together with their MIME type, ready for
/// format-specific serialization.
#[derive(Debug, Clone)]
pub struct EmbeddedImage {
    pub data: Vec<u8>,
    pub mime_type: String,
}

/// True for references that name a remote resource: `http://`,
/// `https://`, or protocol-relative `//`.
pub open spec fn is_remote_url_spec(s: Seq<char>) -> bool {
    ||| "http://"@.is_prefix_of(s)
    ||| "https://"@.is_prefix_of(s)
    ||| "//"@.is_prefix_of(s)
}

/// Classifies a reference as remote.
pub fn is_remote_url(url: &str) -> (r: bool)
    ensures
        r == is_remote_url_spec(url@),
{
    str_has_prefix(url, "http://") || str_has_prefix(url, "https://") || str_has_prefix(url, "//")
}

/// True for `data:` URIs, which are already embedded.
pub open spec fn is_data_url_spec(s: Seq<char>) -> bool {
    "data:"@.is_prefix_of(s)
}

/// Classifies a reference as a data URI.
pub fn is_data_url(url: &str) -> (r: bool)
    ensures
        r == is_data_url_spec(url@),
{
    str_has_prefix(url, "data:")
}

/// The PNG signature `89 50 4E 47 0D 0A 1A 0A`.
pub open spec fn sniffs_png(d: Seq<u8>) -> bool {
    d.len() >= 8 && d[0] == 0x89u8 && d[1] == 0x50u8 && d[2] == 0x4eu8 && d[3] == 0x47u8 && d[4]
        == 0x0du8 && d[5] == 0x0au8 && d[6] == 0x1au8 && d[7] == 0x0au8
}

/// The JPEG signature `FF D8 FF`.
pub open spec fn sniffs_jpeg(d: Seq<u8>) -> bool {
    d.len() >= 3 && d[0] == 0xffu8 && d[1] == 0xd8u8 && d[2] == 0xffu8
}

/// The GIF signatures `GIF87a` and `GIF89a`.
pub open spec fn sniffs_gif(d: Seq<u8>) -> bool {
    d.len() >= 6 && d[0] == 0x47u8 && d[1] == 0x49u8 && d[2] == 0x46u8 && d[3] == 0x38u8 && (d[4]
        == 0x37u8 || d[4] == 0x39u8) && d[5] == 0x61u8
}

/// `RIFF` with `WEBP` at offset 8: twelve bytes suffice.
pub open spec fn sniffs_webp(d: Seq<u8>) -> bool {
    d.len() >= 12 && d[0] == 0x52u8 && d[1] == 0x49u8 && d[2] == 0x46u8 && d[3] == 0x46u8 && d[8]
        == 0x57u8 && d[9] == 0x45u8 && d[10] == 0x42u8 && d[11] == 0x50u8
}

/// The ICO signature `00 00 01 00`.
pub open spec fn sniffs_ico(d: Seq<u8>) -> bool {
    d.len() >= 4 && d[0] == 0x00u8 && d[1] == 0x00u8 && d[2] == 0x01u8 && d[3] == 0x00u8
}

/// The BMP signature `BM`.
pub open spec fn sniffs_bmp(d: Seq<u8>) -> bool {
    d.len() >= 2 && d[0] == 0x42u8 && d[1] == 0x4du8
}

/// The MIME type sniffed from leading bytes; unrecognized content is
/// `application/octet-stream`.
pub open spec fn sniffed_mime(d: Seq<u8>) -> Seq<char> {
    if sniffs_png(d) {
        "image/png"@
    } else if sniffs_jpeg(d) {
        "image/jpeg"@
    } else if sniffs_gif(d) {
        "image/gif"@
    } else if sniffs_webp(d) {
        "image/webp"@
    } else if sniffs_ico(d) {
        "image/x-icon"@
    } else if sniffs_bmp(d) {
        "image/bmp"@
    } else {
        "application/octet-stream"@
    }
}

/// True when some signature matched, that is, when the sniffed type is
/// not `application/octet-stream`.
pub open spec fn sniff_matched(d: Seq<u8>) -> bool {
    sniffs_png(d) || sniffs_jpeg(d) || sniffs_gif(d) || sniffs_webp(d) || sniffs_ico(d)
        || sniffs_bmp(d)
}

/// The sniffed MIME names differ from `application/octet-stream`; their
/// lengths alone show it.
proof fn lemma_sniffed_mime_matched(d: Seq<u8>)
    ensures
        sniff_matched(d) <==> sniffed_mime(d) != "application/octet-stream"@,
{
    reveal_strlit("image/png");
    reveal_strlit("image/jpeg");
    reveal_strlit("image/gif");
    reveal_strlit("image/webp");
    reveal_strlit("image/x-icon");
    reveal_strlit("image/bmp");
    reveal_strlit("application/octet-stream");
    assert("application/octet-stream"@.len() == 24);
    assert("image/png"@.len() == 9);
    assert("image/jpeg"@.len() == 10);
    assert("image/gif"@.len() == 9);
    assert("image/webp"@.len() == 10);
    assert("image/x-icon"@.len() == 12);
    assert("image/bmp"@.len() == 9);
}

/// Sniffs a MIME type from leading bytes alone.
pub fn guess_mime_type_from_data(data: &[u8]) -> (r: String)
    ensures
        r@ == sniffed_mime(data@),
{
    let n = data.len();
    if n >= 8 && data[0] == 0x89 && data[1] == 0x50 && data[2] == 0x4e && data[3] == 0x47 && data[4]
        == 0x0d && data[5] == 0x0a && data[6] == 0x1a && data[7] == 0x0a {
        return String::from_str("image/png");
    }
    if n >= 3 && data[0] == 0xff && data[1] == 0xd8 && data[2] == 0xff {
        return String::from_str("image/jpeg");
    }
    if n >= 6 && data[0] == 0x47 && data[1] == 0x49 && data[2] == 0x46 && data[3] == 0x38 && (
    data[4] == 0x37 || data[4] == 0x39) && data[5] == 0x61 {
        return String::from_str("image/gif");
    }
    if n >= 12 && data[0] == 0x52 && data[1] == 0x49 && data[2] == 0x46 && data[3] == 0x46 && data[8]
        == 0x57 && data[9] == 0x45 && data[10] == 0x42 && data[11] == 0x50 {
        return String::from_str("image/webp");
    }
    if n >= 4 && data[0] == 0x00 && data[1] == 0x00 && data[2] == 0x01 && data[3] == 0x00 {
        return String::from_str("image/x-icon");
    }
    if n >= 2 && data[0] == 0x42 && data[1] == 0x4d {
        return String::from_str("image/bmp");
    }
    String::from_str("application/octet-stream")
}

/// The file extension of a path: the part of the final component after
/// its last dot, absent when the component has no dot past its first
/// character.
pub open spec fn path_extension(p: Seq<char>) -> Option<Seq<char>> {
    if exists|i: int| name_start(p) < i < p.len() && p[i] == '.' {
        Some(p.subrange(last_dot(p) + 1, p.len() as int))
    } else {
        None
    }
}

/// The index of the first character of the final path component.
pub open spec fn name_start(p: Seq<char>) -> int {
    if exists|i: int| 0 <= i < p.len() && p[i] == '/' {
        last_slash(p) + 1
    } else {
        0
    }
}

/// The index of the last `/` in `p`.
pub open spec fn last_slash(p: Seq<char>) -> int {
    choose|i: int| 0 <= i < p.len() && p[i] == '/' && (forall|j: int| i < j < p.len() ==> p[j] != '/')
}

/// The index of the last `.` after the final path component starts.
pub open spec fn last_dot(p: Seq<char>) -> int {
    choose|i: int|
        name_start(p) < i < p.len() && p[i] == '.' && (forall|j: int|
            i < j < p.len() ==> p[j] != '.')
}

/// The MIME type looked up from a file extension; unknown extensions
/// give `application/octet-stream`.
pub open spec fn extension_mime(p: Seq<char>) -> Seq<char> {
    match path_extension(p) {
        Some(e) => {
            if e == "png"@ {
                "image/png"@
            } else if e == "jpg"@ || e == "jpeg"@ {
                "image/jpeg"@
            } else if e == "gif"@ {
                "image/gif"@
            } else if e == "webp"@ {
                "image/webp"@
            } else if e == "svg"@ {
                "image/svg+xml"@
            } else if e == "ico"@ {
                "image/x-icon"@
            } else if e == "bmp"@ {
                "image/bmp"@
            } else {
                "application/octet-stream"@
            }
        },
        None => "application/octet-stream"@,
    }
}

/// Byte sniffing wins; the extension is consulted only when no
/// signature matched.
pub open spec fn path_mime(p: Seq<char>, d: Seq<u8>) -> Seq<char> {
    if sniff_matched(d) {
        sniffed_mime(d)
    } else {
        extension_mime(p)
    }
}

/// The extension of `path`, or `None` when it has none.
fn find_extension<'a>(path: &'a str) -> (r: Option<&'a str>)
    ensures
        match r {
            Some(e) => path_extension(path@) == Some(e@),
            None => path_extension(path@) is None,
        },
{
    let n = path.unicode_len();
    // Find the index one past the last '/': the final component's start.
    let mut name_from: usize = 0;
    let mut i: usize = 0;
    while i < n
        invariant
            0 <= i <= n,
            n == path@.len(),
            name_from == 0 || (0 < name_from <= i && path@[name_from - 1] == '/'),
            forall|j: int| name_from <= j < i ==> path@[j] != '/',
        decreases n - i,
    {
        if path.get_char(i) == '/' {
            name_from = i + 1;
        }
        i = i + 1;
    }
    proof {
        if name_from == 0 {
            assert(forall|j: int| 0 <= j < n ==> path@[j] != '/');
            assert(name_start(path@) == 0);
        } else {
            let w = name_from - 1;
            assert(0 <= w < n && path@[w] == '/' && (forall|j: int|
                w < j < n ==> path@[j] != '/'));
            assert(exists|x: int| 0 <= x < path@.len() && path@[x] == '/');
            let ls = last_slash(path@);
            assert(0 <= ls < n && path@[ls] == '/' && (forall|j: int|
                ls < j < n ==> path@[j] != '/')) by {
                assert(0 <= w < path@.len() && path@[w] == '/' && (forall|j: int|
                    w < j < path@.len() ==> path@[j] != '/'));
            }
            assert(ls == w);
            assert(name_start(path@) == name_from as int);
        }
    }
    // Find the last '.' strictly after the component's first character.
    let mut dot: usize = 0;
    let mut has_dot = false;
    if name_from >= n {
        proof {
            assert(forall|j: int| name_start(path@) < j < n ==> path@[j] != '.');
        }
        return None;
    }
    let mut k: usize = name_from + 1;
    while k < n
        invariant
            name_from + 1 <= k <= n,
            n == path@.len(),
            name_from == name_start(path@),
            !has_dot ==> forall|j: int| name_from < j < k ==> path@[j] != '.',
            has_dot ==> name_from < dot < k && path@[dot as int] == '.' && (forall|j: int|
                dot < j < k ==> path@[j] != '.'),
        decreases n - k,
    {
        if path.get_char(k) == '.' {
            dot = k;
            has_dot = true;
        }
        k = k + 1;
    }
    if has_dot {
        proof {
            let w = dot as int;
            assert(name_start(path@) < w < n && path@[w] == '.' && (forall|j: int|
                w < j < n ==> path@[j] != '.'));
            assert(exists|x: int|
                name_start(path@) < x < path@.len() && path@[x] == '.');
            let ld = last_dot(path@);
            assert(name_start(path@) < ld < n && path@[ld] == '.' && (forall|j: int|
                ld < j < n ==> path@[j] != '.')) by {
                assert(name_start(path@) < w < path@.len() && path@[w] == '.' && (forall|j: int|
                    w < j < path@.len() ==> path@[j] != '.'));
            }
            assert(ld == w);
        }
        Some(path.substring_char(dot + 1, n))
    } else {
        proof {
            assert(forall|j: int| name_start(path@) < j < n ==> path@[j] != '.');
        }
        None
    }
}

/// Determines a MIME type from bytes first, then from the path's
/// extension: content is trusted over metadata.
pub fn guess_mime_type_from_path(path: &str, data: &[u8]) -> (r: String)
    ensures
        r@ == path_mime(path@, data@),
{
    let from_data = guess_mime_type_from_data(data);
    let matched = !str_eq(from_data.as_str(), "application/octet-stream");
    proof {
        lemma_sniffed_mime_matched(data@);
    }
    if matched {
        return from_data;
    }
    match find_extension(path) {
        Some(e) => {
            if str_eq(e, "png") {
                String::from_str("image/png")
            } else if str_eq(e, "jpg") || str_eq(e, "jpeg") {
                String::from_str("image/jpeg")
            } else if str_eq(e, "gif") {
                String::from_str("image/gif")
            } else if str_eq(e, "webp") {
                String::from_str("image/webp")
            } else if str_eq(e, "svg") {
                String::from_str("image/svg+xml")
            } else if str_eq(e, "ico") {
                String::from_str("image/x-icon")
            } else if str_eq(e, "bmp") {
                String::from_str("image/bmp")
            } else {
                String::from_str("application/octet-stream")
            }
        },
        None => String::from_str("application/octet-stream"),
    }
}

/// Two lower-case hexadecimal digits for every byte, in order.
pub open spec fn hex_of_bytes(d: Seq<u8>) -> Seq<char>
    decreases d.len(),
{
    if d.len() == 0 {
        Seq::empty()
    } else {
        hex_of_bytes(d.drop_last()) + seq![
            hex_digit((d.last() >> 4u8) as int),
            hex_digit((d.last() & 0x0fu8) as int),
        ]
    }
}

/// The name of what the base64 crate's standard engine returns for a
/// byte sequence; the encoding is a function of the bytes alone.
pub uninterp spec fn base64_of(d: Seq<u8>) -> Seq<char>;

/// Relies on base64's `Engine::encode` with the `STANDARD` engine: the
/// padded standard-alphabet encoding of the bytes.
#[verifier::external_body]
fn base64_encode(data: &Vec<u8>) -> (r: String)
    ensures
        r@ == base64_of(data@),
{
    base64::Engine::encode(&base64::engine::general_purpose::STANDARD, data)
}

impl EmbeddedImage {
    /// The bytes as a `data:` URI with base64 payload.
    pub fn to_data_url(&self) -> (r: String)
        ensures
            r@ == "data:"@ + self.mime_type@ + ";base64,"@ + base64_of(self.data@),
    {
        let b64 = base64_encode(&self.data);
        let mut out = String::from_str("data:");
        out.append(self.mime_type.as_str());
        out.append(";base64,");
        out.append(b64.as_str());
        out
    }

    /// The bytes as the lower-case hex string RTF picture blobs use.
    pub fn to_rtf_hex(&self) -> (r: String)
        ensures
            r@ == hex_of_bytes(self.data@),
    {
        let n = self.data.len();
        let mut out = String::new();
        let mut i: usize = 0;
        while i < n
            invariant
                0 <= i <= n,
                n == self.data@.len(),
                out@ == hex_of_bytes(self.data@.take(i as int)),
            decreases n - i,
        {
            let b = self.data[i];
            let hi = b >> 4;
            let lo = b & 0x0f;
            proof {
                assert(b >> 4u8 < 16 && b & 0x0fu8 < 16) by (bit_vector);
            }
            out.append(hex_digit_str(hi));
            out.append(hex_digit_str(lo));
            proof {
                let t = self.data@.take(i + 1);
                assert(t.drop_last() =~= self.data@.take(i as int));
                assert(t.last() == self.data@[i as int]);
                assert(out@ =~= hex_of_bytes(t));
            }
            i = i + 1;
        }
        proof {
            assert(self.data@.take(n as int) =~= self.data@);
        }
        out
    }

    /// The RTF control word for the picture format, where RTF has one:
    /// PNG and JPEG only.
    pub fn rtf_format(&self) -> (r: Option<&'static str>)
        ensures
            self.mime_type@ == "image/png"@ ==> (r matches Some(s) && s@ == "\\pngblip"@),
            self.mime_type@ == "image/jpeg"@ ==> (r matches Some(s) && s@ == "\\jpegblip"@),
            self.mime_type@ != "image/png"@ && self.mime_type@ != "image/jpeg"@ ==> r is None,
    {
        proof {
            reveal_strlit("image/png");
            reveal_strlit("image/jpeg");
            assert("image/png"@.len() == 9);
            assert("image/jpeg"@.len() == 10);
        }
        if str_eq(self.mime_type.as_str(), "image/png") {
            Some("\\pngblip")
        } else if str_eq(self.mime_type.as_str(), "image/jpeg") {
            Some("\\jpegblip")
        } else {
            None
        }
    }
}

/// What a load of one reference must do, decided from the reference and
/// the policy alone: nothing, one HTTP fetch, or one file read.
#[derive(Debug)]
pub enum LoadPlan {
    /// Return no image, with no I/O: embedding is off for the
    /// reference's class, or the reference is already embedded.
    Skip,
    /// Perform one HTTP GET of the held URL.
    Fetch(String),
    /// Read the held local file.
    ReadLocal(String),
}

/// A protocol-relative reference completed to `https:`; anything else
/// unchanged.
pub open spec fn rewritten_url(u: Seq<char>) -> Seq<char> {
    if "//"@.is_prefix_of(u) {
        "https:"@ + u
    } else {
        u
    }
}

/// A load is skipped when embedding is off for both classes, when the
/// reference is a data URI, or when embedding is off for its class.
pub open spec fn plan_skips(u: Seq<char>, c: ImageConfig) -> bool {
    !plan_fetches(u, c) && !plan_reads(u, c)
}

/// A load fetches exactly for embeddable remote references.
pub open spec fn plan_fetches(u: Seq<char>, c: ImageConfig) -> bool {
    (c.embed_local || c.embed_remote) && !is_data_url_spec(u) && is_remote_url_spec(u)
        && c.embed_remote
}

/// A load reads a file exactly for embeddable local references.
pub open spec fn plan_reads(u: Seq<char>, c: ImageConfig) -> bool {
    (c.embed_local || c.embed_remote) && !is_data_url_spec(u) && !is_remote_url_spec(u)
        && c.embed_local
}

/// What a correct plan for `(u, base, c)` looks like.
pub open spec fn load_plan_ok(r: LoadPlan, u: Seq<char>, base: Seq<char>, c: ImageConfig) -> bool {
    match r {
        LoadPlan::Skip => plan_skips(u, c),
        LoadPlan::Fetch(f) => plan_fetches(u, c) && f@ == rewritten_url(u),
        LoadPlan::ReadLocal(p) => plan_reads(u, c) && p@ == joined_path(base, u),
    }
}

/// Completes a protocol-relative URL to `https:`.
pub fn rewrite_protocol_relative(url: &str) -> (r: String)
    ensures
        r@ == rewritten_url(url@),
{
    if str_has_prefix(url, "//") {
        let mut out = String::from_str("https:");
        out.append(url);
        out
    } else {
        String::from_str(url)
    }
}

/// Decides what loading `url` against `base_dir` under policy `c`
/// requires: no work, one fetch of the rewritten URL, or one read of
/// the joined path.  Pure; the caller performs the planned I/O.
pub fn plan_load(url: &str, base_dir: &str, c: &ImageConfig) -> (r: LoadPlan)
    ensures
        load_plan_ok(r, url@, base_dir@, *c),
{
    if !c.embed_local && !c.embed_remote {
        return LoadPlan::Skip;
    }
    if is_data_url(url) {
        return LoadPlan::Skip;
    }
    if is_remote_url(url) {
        if c.embed_remote {
            return LoadPlan::Fetch(rewrite_protocol_relative(url));
        }
        return LoadPlan::Skip;
    }
    if !c.embed_local {
        return LoadPlan::Skip;
    }
    LoadPlan::ReadLocal(crate::text::join_path(base_dir, url))
}

/// The outcome of reading a local file, handed back by the caller that
/// performed the read.
pub enum ReadOutcome {
    /// The file's full contents.
    Bytes(Vec<u8>),
    /// The file was absent.
    Missing,
    /// Another I/O failure, with its message.
    Failed(String),
}

/// The outcome of one HTTP GET, handed back by the caller that
/// performed it.
pub enum FetchOutcome {
    /// A response: the raw `Content-Type` header if any, and the full body.
    Response { content_type: Option<String>, body: Vec<u8> },
    /// A transport failure, with its message.
    Failed(String),
}

/// How a read outcome must be interpreted: bytes become an embedded
/// image typed by content then extension; absence is `NotFound`; any
/// other failure is `ReadFailed`.
pub open spec fn local_read_ok(
    r: Result<EmbeddedImage, ImageError>,
    path: Seq<char>,
    o: ReadOutcome,
) -> bool {
    match o {
        ReadOutcome::Bytes(d) => match r {
            Ok(img) => img.data@ == d@ && img.mime_type@ == path_mime(path, d@),
            _ => false,
        },
        ReadOutcome::Missing => match r {
            Err(ImageError::NotFound(p)) => p@ == path,
            _ => false,
        },
        ReadOutcome::Failed(e) => match r {
            Err(ImageError::ReadFailed(p, e2)) => p@ == path && e2@ == e@,
            _ => false,
        },
    }
}

/// Interprets the outcome of reading the local file at `path`.
pub fn resolve_local_read(path: &str, outcome: ReadOutcome) -> (r: Result<
    EmbeddedImage,
    ImageError,
>)
    ensures
        local_read_ok(r, path@, outcome),
{
    match outcome {
        ReadOutcome::Bytes(d) => {
            let mime_type = guess_mime_type_from_path(path, d.as_slice());
            Ok(EmbeddedImage { data: d, mime_type })
        },
        ReadOutcome::Missing => Err(ImageError::NotFound(String::from_str(path))),
        ReadOutcome::Failed(e) => Err(ImageError::ReadFailed(String::from_str(path), e)),
    }
}

/// The `Content-Type` header up to its first `;`, trimmed.
pub open spec fn cleaned_content_type(h: Seq<char>) -> Seq<char> {
    trimmed(before_semicolon(h))
}

/// The part of `s` before its first `;`, or all of it.
pub open spec fn before_semicolon(s: Seq<char>) -> Seq<char> {
    s.take(first_semicolon(s))
}

/// The index of the first `;` in `s`, or its length.
pub open spec fn first_semicolon(s: Seq<char>) -> int {
    if exists|i: int| 0 <= i < s.len() && s[i] == ';' {
        choose|i: int|
            0 <= i < s.len() && s[i] == ';' && (forall|j: int| 0 <= j < i ==> s[j] != ';')
    } else {
        s.len() as int
    }
}

/// Cuts a raw `Content-Type` header down to its media type.
pub fn clean_content_type(h: &str) -> (r: String)
    ensures
        r@ == cleaned_content_type(h@),
{
    let n = h.unicode_len();
    let mut i: usize = 0;
    while i < n && h.get_char(i) != ';'
        invariant
            0 <= i <= n,
            n == h@.len(),
            forall|j: int| 0 <= j < i ==> h@[j] != ';',
        decreases n - i,
    {
        i = i + 1;
    }
    proof {
        if i < n {
            let w = i as int;
            assert(0 <= w < n && h@[w] == ';' && (forall|j: int| 0 <= j < w ==> h@[j] != ';'));
            let f = first_semicolon(h@);
            assert(0 <= f < n && h@[f] == ';' && (forall|j: int| 0 <= j < f ==> h@[j] != ';'));
            assert(f == w);
        } else {
            assert(forall|j: int| 0 <= j < n ==> h@[j] != ';');
            assert(first_semicolon(h@) == n as int);
        }
        assert(h@.take(i as int) =~= before_semicolon(h@));
    }
    str_trim(h.substring_char(0, i))
}

/// The MIME type of a fetched image: the cleaned `Content-Type` header
/// when it names an image type, else the sniffed type.
pub open spec fn fetched_mime(content_type: Option<String>, d: Seq<u8>) -> Seq<char> {
    match content_type {
        Some(h) => {
            if "image/"@.is_prefix_of(cleaned_content_type(h@)) {
                cleaned_content_type(h@)
            } else {
                sniffed_mime(d)
            }
        },
        None => sniffed_mime(d),
    }
}

/// How a fetch outcome must be interpreted: a transport failure is
/// `FetchFailed`; a body whose sniffed type is neither `image/*` nor
/// `application/octet-stream` is `InvalidImage`; any other body becomes
/// an embedded image typed by header then content.
pub open spec fn fetch_ok(
    r: Result<EmbeddedImage, ImageError>,
    url: Seq<char>,
    o: FetchOutcome,
) -> bool {
    match o {
        FetchOutcome::Failed(reason) => match r {
            Err(ImageError::FetchFailed(u, e)) => u@ == url && e@ == reason@,
            _ => false,
        },
        FetchOutcome::Response { content_type, body } => {
            if !("image/"@.is_prefix_of(sniffed_mime(body@))) && sniffed_mime(body@)
                != "application/octet-stream"@ {
                match r {
                    Err(ImageError::InvalidImage(u)) => u@ == url,
                    _ => false,
                }
            } else {
                match r {
                    Ok(img) => img.data@ == body@ && img.mime_type@ == fetched_mime(
                        content_type,
                        body@,
                    ),
                    _ => false,
                }
            }
        },
    }
}

/// Interprets the outcome of fetching `url`, guarding against non-image
/// responses such as HTML error pages.
pub fn resolve_fetch(url: &str, outcome: FetchOutcome) -> (r: Result<EmbeddedImage, ImageError>)
    ensures
        fetch_ok(r, url@, outcome),
{
    match outcome {
        FetchOutcome::Failed(reason) => Err(
            ImageError::FetchFailed(String::from_str(url), reason),
        ),
        FetchOutcome::Response { content_type, body } => {
            let sniffed = guess_mime_type_from_data(body.as_slice());
            let sniffed_is_image = str_has_prefix(sniffed.as_str(), "image/");
            if !sniffed_is_image && !str_eq(sniffed.as_str(), "application/octet-stream") {
                return Err(ImageError::InvalidImage(String::from_str(url)));
            }
            let mime_type = match content_type {
                Some(h) => {
                    let cleaned = clean_content_type(h.as_str());
                    if str_has_prefix(cleaned.as_str(), "image/") {
                        cleaned
                    } else {
                        sniffed
                    }
                },
                None => sniffed,
            };
            Ok(EmbeddedImage { data: body, mime_type })
        },
    }
}

/// The strict-versus-graceful failure policy: successes pass through;
/// a failure propagates under the strict policy and degrades to no
/// image otherwise.
pub open spec fn fallback_applied(
    loaded: Result<Option<EmbeddedImage>, ImageError>,
    fail_on_error: bool,
) -> Result<Option<EmbeddedImage>, ImageError> {
    match loaded {
        Ok(v) => Ok(v),
        Err(e) => if fail_on_error {
            Err(e)
        } else {
            Ok(None)
        },
    }
}

/// Applies the failure policy to a load outcome: under the strict
/// policy an error aborts the caller; otherwise the reference is left
/// unembedded.  This is the sole mechanism by which a missing or
/// unreachable image can be non-fatal.
pub fn load_image_with_fallback(
    loaded: Result<Option<EmbeddedImage>, ImageError>,
    fail_on_error: bool,
) -> (r: Result<Option<EmbeddedImage>, ImageError>)
    ensures
        r == fallback_applied(loaded, fail_on_error),
{
    match loaded {
        Ok(v) => Ok(v),
        Err(e) => if fail_on_error {
            Err(e)
        } else {
            Ok(None)
        },
    }
}

} // verus!
