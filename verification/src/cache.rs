//! The image cache: one instance per conversion run, shared by every
//! output renderer, deduplicating remote fetch-and-optimize work.
//!
//! The cache owns a table from reference strings to files in a scratch
//! directory.  Only remote references are ever entered; local files are
//! re-read on every call, since they can legitimately change within one
//! run.  The cache decides what I/O a `get_or_load` call needs —
//! nothing, a scratch-file read, a fetch, or a local read — and
//! interprets the outcomes the caller hands back; the caller performs
//! the reads, fetches, and writes themselves.

use vstd::prelude::*;
use vstd::string::StringSliceAdditionalSpecFns;

use crate::config::ImageConfig;
use crate::image::{
    is_data_url_spec, is_data_url, is_remote_url_spec, is_remote_url, rewritten_url,
    rewrite_protocol_relative, sniffed_mime, guess_mime_type_from_data, EmbeddedImage, ImageError,
    ReadOutcome, FetchOutcome,
};
use crate::table::{lemma_pairs_map_contains, lemma_pairs_map_value, pairs_map};
use crate::text::{hex_digit, hex_digit_str, join_path, joined_path, str_eq, str_has_prefix};

verus! {

/// One step of the 64-bit FNV-1a hash: fold a byte in, then multiply by
/// the FNV prime modulo 2^64.
pub open spec fn fnv1a_step(h: u64, b: u8) -> u64 {
    ((((h ^ (b as u64)) as int) * 0x100000001b3) % 0x1_0000_0000_0000_0000) as u64
}

/// The 64-bit FNV-1a hash continued from state `h` over `bytes`.
pub open spec fn fnv1a_from(h: u64, bytes: Seq<u8>) -> u64
    decreases bytes.len(),
{
    if bytes.len() == 0 {
        h
    } else {
        fnv1a_from(fnv1a_step(h, bytes[0]), bytes.drop_first())
    }
}

/// The 64-bit FNV-1a hash of a byte sequence.
pub open spec fn fnv1a(bytes: Seq<u8>) -> u64 {
    fnv1a_from(0xcbf29ce484222325u64, bytes)
}

/// A 64-bit value as 16 lower-case hex digits, most significant first.
pub open spec fn hex16(h: u64) -> Seq<char> {
    Seq::new(16, |i: int| hex_digit(((h >> (((15 - i) * 4) as u64)) & 0xfu64) as int))
}

/// The scratch file name for a reference: a stable 64-bit hash of its
/// text, rendered as 16 hex characters.
pub open spec fn url_filename(u: Seq<char>) -> Seq<char> {
    hex16(fnv1a(vstd::utf8::encode_utf8(u)))
}

/// Renders a reference's stable scratch file name.
pub fn url_to_filename(url: &str) -> (r: String)
    ensures
        r@ == url_filename(url@),
{
    let bytes = url.as_bytes();
    let n = bytes.len();
    let mut h: u64 = 0xcbf29ce484222325;
    let mut i: usize = 0;
    proof {
        assert(bytes@.skip(0) =~= bytes@);
    }
    while i < n
        invariant
            0 <= i <= n,
            n == bytes@.len(),
            bytes@ == url.spec_bytes(),
            fnv1a(bytes@) == fnv1a_from(h, bytes@.skip(i as int)),
        decreases n - i,
    {
        let x: u64 = h ^ (bytes[i] as u64);
        proof {
            assert((x as int) * 0x100000001b3 < 0x1_0000_0000_0000_0000_0000_0000_0000_0000)
                by (nonlinear_arith)
                requires
                    x <= 0xffff_ffff_ffff_ffffu64,
            ;
        }
        let p: u128 = (x as u128) * 0x100000001b3;
        let h2: u64 = (p % 0x1_0000_0000_0000_0000) as u64;
        proof {
            assert(h2 == fnv1a_step(h, bytes@[i as int]));
            let t = bytes@.skip(i as int);
            assert(t[0] == bytes@[i as int]);
            assert(t.drop_first() =~= bytes@.skip(i + 1));
        }
        h = h2;
        i = i + 1;
    }
    proof {
        assert(bytes@.skip(n as int) =~= Seq::<u8>::empty());
    }
    let mut out = String::new();
    let mut k: usize = 0;
    while k < 16
        invariant
            0 <= k <= 16,
            out@ == hex16(h).take(k as int),
        decreases 16 - k,
    {
        let sh: u64 = ((15 - k) as u64) * 4;
        let d: u64 = (h >> sh) & 0xf;
        proof {
            assert((h >> sh) & 0xfu64 < 16) by (bit_vector);
        }
        out.append(hex_digit_str(d as u8));
        proof {
            assert(hex16(h).take(k + 1) =~= hex16(h).take(k as int).push(
                hex_digit(d as int),
            )) by {
                assert(hex16(h)[k as int] == hex_digit(
                    ((h >> (((15 - k as int) * 4) as u64)) & 0xfu64) as int,
                ));
            }
        }
        k = k + 1;
    }
    proof {
        assert(hex16(h).take(16) =~= hex16(h));
    }
    out
}

/// What a `get_or_load` call must do next, decided from the reference,
/// the policy, and the cache state alone.
#[derive(Debug)]
pub enum RouteAction {
    /// Return no image, with no I/O.
    Skip,
    /// Read the held scratch file; no second fetch is made.
    ReadCached(String),
    /// Perform one HTTP GET of `url`; when `save_to` names a scratch
    /// file, write the raw body there before using it.
    Fetch { url: String, save_to: Option<String> },
    /// Read the held local file, every time it is asked for.
    ReadLocal(String),
}

/// A call is answered with no image and no I/O when embedding is off
/// for both classes, when the reference is a data URI, or when
/// embedding is off for the reference's class.
pub open spec fn route_skips(u: Seq<char>, c: ImageConfig) -> bool {
    ||| (!c.embed_local && !c.embed_remote)
    ||| is_data_url_spec(u)
    ||| (is_remote_url_spec(u) && !c.embed_remote)
    ||| (!is_remote_url_spec(u) && !c.embed_local)
}

/// What a correct routing decision looks like, given the table and the
/// scratch directory.
pub open spec fn route_ok(
    r: RouteAction,
    u: Seq<char>,
    base: Seq<char>,
    c: ImageConfig,
    table: Map<Seq<char>, Seq<char>>,
    scratch: Option<Seq<char>>,
) -> bool {
    match r {
        RouteAction::Skip => route_skips(u, c),
        RouteAction::ReadCached(p) => !route_skips(u, c) && table.contains_key(u) && p@
            == table[u],
        RouteAction::Fetch { url: f, save_to } => !route_skips(u, c) && !table.contains_key(u)
            && is_remote_url_spec(u) && f@ == rewritten_url(u) && (match save_to {
            Some(sp) => scratch is Some && sp@ == joined_path(scratch.unwrap(), url_filename(u)),
            None => scratch is None,
        }),
        RouteAction::ReadLocal(p) => !route_skips(u, c) && !table.contains_key(u)
            && !is_remote_url_spec(u) && p@ == joined_path(base, u),
    }
}

/// The cache: an optional scratch directory and the table from
/// reference strings to scratch file paths.
pub struct ImageCache {
    scratch_dir: Option<String>,
    entries: Vec<(String, String)>,
}

impl ImageCache {
    /// The mapping from references to scratch file paths.
    pub closed spec fn table(&self) -> Map<Seq<char>, Seq<char>> {
        pairs_map(self.entries@)
    }

    /// The scratch directory, absent when its creation failed and the
    /// cache degrades to pass-through mode.
    pub closed spec fn scratch(&self) -> Option<Seq<char>> {
        match self.scratch_dir {
            Some(d) => Some(d@),
            None => None,
        }
    }

    /// Every table entry is for a remote reference: local references
    /// are deliberately never cached.
    pub closed spec fn wf(&self) -> bool {
        forall|i: int|
            0 <= i < self.entries@.len() ==> is_remote_url_spec(#[trigger] self.entries@[i].0@)
    }

    /// A fresh cache over the given scratch directory (`None` when no
    /// scratch storage could be created), with an empty table.
    pub fn new(scratch_dir: Option<String>) -> (r: Self)
        ensures
            r.wf(),
            r.table() == Map::<Seq<char>, Seq<char>>::empty(),
            r.scratch() == (match scratch_dir {
                Some(d) => Some(d@),
                None => None::<Seq<char>>,
            }),
    {
        ImageCache { scratch_dir, entries: Vec::new() }
    }

    /// The scratch path recorded for a reference, if one is recorded.
    pub fn lookup(&self, url: &str) -> (r: Option<String>)
        ensures
            match r {
                Some(p) => self.table().contains_key(url@) && p@ == self.table()[url@],
                None => !self.table().contains_key(url@),
            },
    {
        let n = self.entries.len();
        let mut i: usize = n;
        while i > 0
            invariant
                0 <= i <= n,
                n == self.entries@.len(),
                forall|j: int| i <= j < n ==> self.entries@[j].0@ != url@,
            decreases i,
        {
            i = i - 1;
            let e = &self.entries[i];
            if str_eq(e.0.as_str(), url) {
                proof {
                    lemma_pairs_map_value(self.entries@, i as int);
                }
                return Some(e.1.clone());
            }
        }
        proof {
            lemma_pairs_map_contains(self.entries@, url@);
        }
        None
    }

    /// Records the scratch file holding a remote reference's bytes.
    /// Only remote references may be entered, so that local references
    /// are always re-read from their own files.
    pub fn record(&mut self, url: &str, path: &str)
        requires
            old(self).wf(),
            is_remote_url_spec(url@),
        ensures
            final(self).wf(),
            final(self).table() == old(self).table().insert(url@, path@),
            final(self).scratch() == old(self).scratch(),
    {
        let entry = (String::from_str(url), String::from_str(path));
        self.entries.push(entry);
        proof {
            assert(self.entries@.drop_last() =~= old(self).entries@);
        }
    }

    /// The scratch file that would hold a reference's bytes, when
    /// scratch storage exists.
    pub fn scratch_path_for(&self, url: &str) -> (r: Option<String>)
        ensures
            match r {
                Some(p) => self.scratch() is Some && p@ == joined_path(
                    self.scratch().unwrap(),
                    url_filename(url@),
                ),
                None => self.scratch() is None,
            },
    {
        match &self.scratch_dir {
            Some(d) => {
                let name = url_to_filename(url);
                Some(join_path(d.as_str(), name.as_str()))
            },
            None => None,
        }
    }

    /// Decides what resolving `url` needs: nothing, a scratch read, a
    /// fetch (with the scratch file to save to, when storage exists),
    /// or a local read.  Pure; the caller performs the decided I/O.
    pub fn route(&self, url: &str, base_dir: &str, c: &ImageConfig) -> (r: RouteAction)
        ensures
            route_ok(r, url@, base_dir@, *c, self.table(), self.scratch()),
    {
        if !c.embed_local && !c.embed_remote {
            return RouteAction::Skip;
        }
        if is_data_url(url) {
            return RouteAction::Skip;
        }
        let remote = is_remote_url(url);
        if remote && !c.embed_remote {
            return RouteAction::Skip;
        }
        if !remote && !c.embed_local {
            return RouteAction::Skip;
        }
        if let Some(p) = self.lookup(url) {
            return RouteAction::ReadCached(p);
        }
        if remote {
            let f = rewrite_protocol_relative(url);
            let save_to = self.scratch_path_for(url);
            return RouteAction::Fetch { url: f, save_to };
        }
        RouteAction::ReadLocal(crate::text::join_path(base_dir, url))
    }
}

/// How a scratch-file read must be interpreted: the file has a hash
/// name and no extension, so byte sniffing alone types the bytes;
/// failures propagate as errors on the scratch path.
pub open spec fn cached_read_ok(
    r: Result<Option<EmbeddedImage>, ImageError>,
    path: Seq<char>,
    o: ReadOutcome,
) -> bool {
    match o {
        ReadOutcome::Bytes(d) => match r {
            Ok(Some(img)) => img.data@ == d@ && img.mime_type@ == sniffed_mime(d@),
            _ => false,
        },
        ReadOutcome::Missing => match r {
            Err(ImageError::NotFound(p)) => p@ == path,
            _ => false,
        },
        ReadOutcome::Failed(e) => match r {
            Err(ImageError::ReadFailed(p, e2)) => p@ == path && e2@ == e@,
            _ => false,
        },
    }
}

/// Interprets the outcome of reading the scratch file at `path`.
pub fn resolve_cached_read(path: &str, outcome: ReadOutcome) -> (r: Result<
    Option<EmbeddedImage>,
    ImageError,
>)
    ensures
        cached_read_ok(r, path@, outcome),
{
    match outcome {
        ReadOutcome::Bytes(d) => {
            let mime_type = guess_mime_type_from_data(d.as_slice());
            Ok(Some(EmbeddedImage { data: d, mime_type }))
        },
        ReadOutcome::Missing => Err(ImageError::NotFound(String::from_str(path))),
        ReadOutcome::Failed(e) => Err(ImageError::ReadFailed(String::from_str(path), e)),
    }
}

/// How a fetch destined for the scratch file must be validated: a
/// transport failure is `FetchFailed`; a body that sniffs as neither an
/// image nor unrecognized bytes is `InvalidImage`; any other body is
/// returned whole for saving.  The `Content-Type` header plays no role
/// here: scratch files are later typed by sniffing alone.
pub open spec fn validated_fetch_ok(
    r: Result<Vec<u8>, ImageError>,
    url: Seq<char>,
    o: FetchOutcome,
) -> bool {
    match o {
        FetchOutcome::Failed(reason) => match r {
            Err(ImageError::FetchFailed(u, e)) => u@ == url && e@ == reason@,
            _ => false,
        },
        FetchOutcome::Response { content_type, body } => {
            if !("image/"@.is_prefix_of(sniffed_mime(body@))) && sniffed_mime(body@)
                != "application/octet-stream"@ {
                match r {
                    Err(ImageError::InvalidImage(u)) => u@ == url,
                    _ => false,
                }
            } else {
                match r {
                    Ok(d) => d@ == body@,
                    _ => false,
                }
            }
        },
    }
}

/// Validates a fetch whose body is to be written to scratch storage.
pub fn validate_fetched(url: &str, outcome: FetchOutcome) -> (r: Result<Vec<u8>, ImageError>)
    ensures
        validated_fetch_ok(r, url@, outcome),
{
    match outcome {
        FetchOutcome::Failed(reason) => Err(
            ImageError::FetchFailed(String::from_str(url), reason),
        ),
        FetchOutcome::Response { content_type: _, body } => {
            let sniffed = guess_mime_type_from_data(body.as_slice());
            let sniffed_is_image = str_has_prefix(sniffed.as_str(), "image/");
            if !sniffed_is_image && !str_eq(sniffed.as_str(), "application/octet-stream") {
                return Err(ImageError::InvalidImage(String::from_str(url)));
            }
            Ok(body)
        },
    }
}

/// Whether optimization applies to a reference's class:
/// `optimize_remote` for remote references, `optimize_local` for the
/// rest.
pub fn should_optimize(url: &str, c: &ImageConfig) -> (r: bool)
    ensures
        r == if is_remote_url_spec(url@) {
            c.optimize_remote
        } else {
            c.optimize_local
        },
{
    if is_remote_url(url) {
        c.optimize_remote
    } else {
        c.optimize_local
    }
}

/// An optimizer failure is never propagated: the original bytes are
/// used unchanged, since optimization is best-effort.
pub open spec fn optimize_absorbed(
    original: EmbeddedImage,
    attempt: Result<EmbeddedImage, ImageError>,
) -> EmbeddedImage {
    match attempt {
        Ok(o) => o,
        Err(_) => original,
    }
}

/// Absorbs an optimizer outcome: the optimized image on success, the
/// unoptimized original on any failure.
pub fn absorb_optimize(
    original: EmbeddedImage,
    attempt: Result<EmbeddedImage, ImageError>,
) -> (r: EmbeddedImage)
    ensures
        r == optimize_absorbed(original, attempt),
{
    match attempt {
        Ok(o) => o,
        Err(_) => original,
    }
}

/// Whatever the policy, a reference that routes to the cache is a
/// remote one: local references are never answered from the table, so
/// every local lookup re-reads the file.
pub proof fn lemma_local_never_cached(cache: &ImageCache, u: Seq<char>)
    requires
        cache.wf(),
        !is_remote_url_spec(u),
    ensures
        !cache.table().contains_key(u),
{
    lemma_pairs_map_contains(cache.entries@, u);
}

/// Once a remote reference is recorded, routing it again under a policy
/// that embeds remote images is answered from the scratch file: no
/// second fetch is decided, and the path read is the recorded one.
pub proof fn lemma_recorded_remote_is_cache_hit(
    r: RouteAction,
    u: Seq<char>,
    base: Seq<char>,
    c: ImageConfig,
    table: Map<Seq<char>, Seq<char>>,
    scratch: Option<Seq<char>>,
)
    requires
        route_ok(r, u, base, c, table, scratch),
        is_remote_url_spec(u),
        !is_data_url_spec(u),
        c.embed_remote,
        table.contains_key(u),
    ensures
        r matches RouteAction::ReadCached(p) && p@ == table[u],
{
}

/// With embedding fully disabled, every reference is answered with no
/// image and no I/O is decided.
pub proof fn lemma_full_disable_skips(
    r: RouteAction,
    u: Seq<char>,
    base: Seq<char>,
    c: ImageConfig,
    table: Map<Seq<char>, Seq<char>>,
    scratch: Option<Seq<char>>,
)
    requires
        route_ok(r, u, base, c, table, scratch),
        !c.embed_local,
        !c.embed_remote,
    ensures
        r is Skip,
{
}

} // verus!
