//! The output formats a run can produce, and the parser for the
//! comma-separated format list given on the command line.

use vstd::prelude::*;

use crate::text::{
    ascii_lower, eq_ignore_ascii_case_spec, lowered, str_eq_ignore_ascii_case, str_trim, trimmed,
};

verus! {

/// An output format that can be placed on the clipboard or written to
/// a file.
#[derive(Debug, Clone, Copy, PartialEq, Eq, Structural)]
pub enum ClipboardFormat {
    Html,
    Rtf,
    Markdown,
}

/// The format a trimmed list entry names, letters compared without
/// ASCII case.
pub open spec fn format_name(t: Seq<char>) -> Option<ClipboardFormat> {
    if eq_ignore_ascii_case_spec(t, "html"@) {
        Some(ClipboardFormat::Html)
    } else if eq_ignore_ascii_case_spec(t, "rtf"@) {
        Some(ClipboardFormat::Rtf)
    } else if eq_ignore_ascii_case_spec(t, "markdown"@) || eq_ignore_ascii_case_spec(t, "md"@) {
        Some(ClipboardFormat::Markdown)
    } else {
        None
    }
}

/// Whether a trimmed list entry asks for the native rich-text format,
/// which only another platform offers.
pub open spec fn names_native(t: Seq<char>) -> bool {
    eq_ignore_ascii_case_spec(t, "native"@) || eq_ignore_ascii_case_spec(t, "nsattributedstring"@)
}

/// The index of the first comma in `s`, or its length.
pub open spec fn first_comma(s: Seq<char>) -> int {
    if exists|i: int| 0 <= i < s.len() && s[i] == ',' {
        choose|i: int|
            0 <= i < s.len() && s[i] == ',' && (forall|j: int| 0 <= j < i ==> s[j] != ',')
    } else {
        s.len() as int
    }
}

/// From any comma position, a first one exists and is a comma,
/// with none before it.
proof fn lemma_first_comma_from(s: Seq<char>, w: int)
    requires
        0 <= w < s.len(),
        s[w] == ',',
    ensures
        0 <= first_comma(s) < s.len(),
        s[first_comma(s)] == ',',
        forall|j: int| 0 <= j < first_comma(s) ==> s[j] != ',',
    decreases w,
{
    if forall|j: int| 0 <= j < w ==> s[j] != ',' {
        assert(0 <= w < s.len() && s[w] == ',' && (forall|j: int| 0 <= j < w ==> s[j] != ','));
    } else {
        let w2 = choose|j: int| 0 <= j < w && s[j] == ',';
        lemma_first_comma_from(s, w2);
    }
}

/// The comma-separated pieces of `s`, in order; one more piece than
/// there are commas.
#[verifier::opaque]
pub open spec fn split_commas(s: Seq<char>) -> Seq<Seq<char>>
    decreases s.len(),
{
    if exists|i: int| 0 <= i < s.len() && s[i] == ',' {
        let k = first_comma(s);
        if 0 <= k < s.len() {
            seq![s.take(k)] + split_commas(s.skip(k + 1))
        } else {
            seq![s]
        }
    } else {
        seq![s]
    }
}

/// How a piece list parses, left to right: the first piece that trims
/// to no known format decides the error.
#[verifier::opaque]
pub open spec fn formats_of(parts: Seq<Seq<char>>) -> Result<Seq<ClipboardFormat>, Seq<char>>
    decreases parts.len(),
{
    if parts.len() == 0 {
        Ok(Seq::empty())
    } else {
        let t = trimmed(parts[0]);
        if names_native(t) {
            Err("Native format is only available on macOS"@)
        } else {
            match format_name(t) {
                Some(f) => match formats_of(parts.drop_first()) {
                    Ok(fs) => Ok(seq![f] + fs),
                    Err(m) => Err(m),
                },
                None => Err("Unknown format: "@ + lowered(t)),
            }
        }
    }
}

/// How a format list parses: its comma-separated pieces left to right,
/// with at least one format required.
pub open spec fn parsed_formats(s: Seq<char>) -> Result<Seq<ClipboardFormat>, Seq<char>> {
    match formats_of(split_commas(s)) {
        Ok(fs) => if fs.len() == 0 {
            Err("At least one format must be specified"@)
        } else {
            Ok(fs)
        },
        Err(m) => Err(m),
    }
}

/// One splitting step: with no comma before `j`, the piece list of
/// the suffix at `start` begins with the piece up to `j`.
#[verifier::rlimit(100)]
proof fn lemma_split_step(s: Seq<char>, start: int, j: int)
    requires
        0 <= start <= j <= s.len(),
        forall|k: int| start <= k < j ==> s[k] != ',',
        j < s.len() ==> s[j] == ',',
    ensures
        j < s.len() ==> split_commas(s.skip(start)) == seq![s.subrange(start, j)] + split_commas(
            s.skip(j + 1),
        ),
        j == s.len() ==> split_commas(s.skip(start)) == seq![s.subrange(start, s.len() as int)],
{
    reveal(split_commas);
    let tail = s.skip(start);
    assert(forall|m: int| 0 <= m < tail.len() ==> tail[m] == s[start + m]);
    if j < s.len() {
        assert(tail[j - start] == ',');
        lemma_first_comma_from(tail, j - start);
        let f = first_comma(tail);
        assert(f == j - start) by {
            if f < j - start {
                assert(s[start + f] == ',');
            }
        }
        assert(split_commas(tail) == seq![tail.take(f)] + split_commas(tail.skip(f + 1)));
        assert(tail.take(j - start) =~= s.subrange(start, j));
        assert(tail.skip(j - start + 1) =~= s.skip(j + 1));
    } else {
        assert(forall|m: int| 0 <= m < tail.len() ==> tail[m] != ',');
        assert(split_commas(tail) == seq![tail]);
        assert(tail =~= s.subrange(start, s.len() as int));
    }
}

/// One parsing step: how `formats_of` reads its first piece.
proof fn lemma_formats_of_unfold(parts: Seq<Seq<char>>)
    ensures
        parts.len() == 0 ==> formats_of(parts) == Ok::<Seq<ClipboardFormat>, Seq<char>>(
            Seq::empty(),
        ),
        parts.len() > 0 ==> formats_of(parts) == (if names_native(trimmed(parts[0])) {
            Err::<Seq<ClipboardFormat>, Seq<char>>("Native format is only available on macOS"@)
        } else {
            match format_name(trimmed(parts[0])) {
                Some(f) => match formats_of(parts.drop_first()) {
                    Ok(fs) => Ok::<Seq<ClipboardFormat>, Seq<char>>(seq![f] + fs),
                    Err(m) => Err::<Seq<ClipboardFormat>, Seq<char>>(m),
                },
                None => Err::<Seq<ClipboardFormat>, Seq<char>>(
                    "Unknown format: "@ + lowered(trimmed(parts[0])),
                ),
            }
        }),
{
    reveal(formats_of);
}

/// Parses one list piece: the format it names, or the error the whole
/// parse reports for it.
fn parse_part(part: &str) -> (r: Result<ClipboardFormat, String>)
    ensures
        match r {
            Ok(f) => !names_native(trimmed(part@)) && format_name(trimmed(part@)) == Some(f),
            Err(m) => (names_native(trimmed(part@)) && m@
                == "Native format is only available on macOS"@) || (!names_native(trimmed(part@))
                && format_name(trimmed(part@)) is None && m@ == "Unknown format: "@ + lowered(
                trimmed(part@),
            )),
        },
{
    let t = str_trim(part);
    if str_eq_ignore_ascii_case(t.as_str(), "native") || str_eq_ignore_ascii_case(
        t.as_str(),
        "nsattributedstring",
    ) {
        return Err(String::from_str("Native format is only available on macOS"));
    }
    if str_eq_ignore_ascii_case(t.as_str(), "html") {
        Ok(ClipboardFormat::Html)
    } else if str_eq_ignore_ascii_case(t.as_str(), "rtf") {
        Ok(ClipboardFormat::Rtf)
    } else if str_eq_ignore_ascii_case(t.as_str(), "markdown") || str_eq_ignore_ascii_case(
        t.as_str(),
        "md",
    ) {
        Ok(ClipboardFormat::Markdown)
    } else {
        let mut m = String::from_str("Unknown format: ");
        let low = ascii_lower(t.as_str());
        m.append(low.as_str());
        Err(m)
    }
}

/// Parses a comma-separated format list such as `html,rtf`: each piece
/// is trimmed and compared without ASCII case; `md` abbreviates
/// `markdown`; the native rich-text format is refused on this
/// platform; the first unknown piece is reported.
#[verifier::rlimit(100)]
pub fn parse_formats(s: &str) -> (r: Result<Vec<ClipboardFormat>, String>)
    ensures
        match r {
            Ok(v) => parsed_formats(s@) matches Ok(fs) && v@ == fs,
            Err(m) => parsed_formats(s@) matches Err(t) && m@ == t,
        },
{
    let n = s.unicode_len();
    let mut formats: Vec<ClipboardFormat> = Vec::new();
    let mut start: usize = 0;
    let mut done = false;
    proof {
        assert(s@.skip(0) =~= s@);
    }
    while !done
        invariant
            0 <= start <= n,
            n == s@.len(),
            !done ==> formats_of(split_commas(s@)) == (match formats_of(
                split_commas(s@.skip(start as int)),
            ) {
                Ok(rest) => Ok::<Seq<ClipboardFormat>, Seq<char>>(formats@ + rest),
                Err(m) => Err::<Seq<ClipboardFormat>, Seq<char>>(m),
            }),
            done ==> formats_of(split_commas(s@)) == Ok::<Seq<ClipboardFormat>, Seq<char>>(
                formats@,
            ),
        decreases n - start, (if done { 0int } else { 1 }),
    {
        let ghost tail = s@.skip(start as int);
        // Find the next comma, or the end.
        let mut j: usize = start;
        while j < n && s.get_char(j) != ','
            invariant
                start <= j <= n,
                n == s@.len(),
                forall|k: int| start <= k < j ==> s@[k] != ',',
            decreases n - j,
        {
            j = j + 1;
        }
        proof {
            lemma_split_step(s@, start as int, j as int);
            lemma_formats_of_unfold(split_commas(tail));
            lemma_formats_of_unfold(Seq::<Seq<char>>::empty());
        }
        let part = s.substring_char(start, j);
        let ghost parts = split_commas(tail);
        proof {
            assert(parts[0] == part@);
            if j < n {
                assert(parts.drop_first() =~= split_commas(s@.skip(j + 1)));
            } else {
                assert(parts.drop_first() =~= Seq::<Seq<char>>::empty());
            }
        }
        let ghost before = formats@;
        match parse_part(part) {
            Ok(f) => {
                formats.push(f);
                proof {
                    if j < n {
                        match formats_of(split_commas(s@.skip(j + 1))) {
                            Ok(rest2) => {
                                assert(before + (seq![f] + rest2) =~= formats@ + rest2);
                            },
                            Err(_) => {},
                        }
                    } else {
                        assert(seq![f] + Seq::<ClipboardFormat>::empty() =~= seq![f]);
                        assert(before + seq![f] =~= formats@);
                    }
                }
            },
            Err(m) => {
                return Err(m);
            },
        }
        if j < n {
            start = j + 1;
        } else {
            done = true;
        }
    }
    if formats.len() == 0 {
        return Err(String::from_str("At least one format must be specified"));
    }
    Ok(formats)
}

} // verus!
