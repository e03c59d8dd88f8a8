//! Text escaping for the output renderers: HTML entity escaping,
//! markdown title escaping, backtick-run counting for code spans, and
//! RTF control-word escaping.

use vstd::prelude::*;

use crate::text::{dec_of_int, push_dec_i32};

verus! {

/// How one character reads in escaped HTML: `&`, `<`, `>`, and `"`
/// become entities, everything else is itself.
pub open spec fn html_escaped_char(c: char) -> Seq<char> {
    if c == '&' {
        "&amp;"@
    } else if c == '<' {
        "&lt;"@
    } else if c == '>' {
        "&gt;"@
    } else if c == '"' {
        "&quot;"@
    } else {
        seq![c]
    }
}

/// A text with every character HTML-escaped.
pub open spec fn html_escaped(s: Seq<char>) -> Seq<char>
    decreases s.len(),
{
    if s.len() == 0 {
        Seq::empty()
    } else {
        html_escaped(s.drop_last()) + html_escaped_char(s.last())
    }
}

/// Escapes `&`, `<`, `>`, and `"` for HTML text and attribute values.
pub fn html_escape(s: &str) -> (r: String)
    ensures
        r@ == html_escaped(s@),
{
    let n = s.unicode_len();
    let mut out = String::new();
    let mut i: usize = 0;
    while i < n
        invariant
            0 <= i <= n,
            n == s@.len(),
            out@ == html_escaped(s@.take(i as int)),
        decreases n - i,
    {
        let c = s.get_char(i);
        if c == '&' {
            out.append("&amp;");
        } else if c == '<' {
            out.append("&lt;");
        } else if c == '>' {
            out.append("&gt;");
        } else if c == '"' {
            out.append("&quot;");
        } else {
            out.append(s.substring_char(i, i + 1));
        }
        proof {
            assert(s@.take(i + 1).drop_last() =~= s@.take(i as int));
            assert(s@.take(i + 1).last() == s@[i as int]);
            assert(out@ =~= html_escaped(s@.take(i + 1)));
        }
        i = i + 1;
    }
    proof {
        assert(s@.take(n as int) =~= s@);
    }
    out
}

/// The length of the longest run of `c` in `s`, carried through an
/// accumulator: `current` is the run ending just before `s`, `best`
/// the longest seen so far.
pub open spec fn max_run_from(s: Seq<char>, c: char, current: nat, best: nat) -> nat
    decreases s.len(),
{
    if s.len() == 0 {
        best
    } else if s[0] == c {
        max_run_from(
            s.drop_first(),
            c,
            current + 1,
            if current + 1 > best {
                current + 1
            } else {
                best
            },
        )
    } else {
        max_run_from(s.drop_first(), c, 0, best)
    }
}

/// The length of the longest run of consecutive `c` in `s`.
pub open spec fn max_run(s: Seq<char>, c: char) -> nat {
    max_run_from(s, c, 0, 0)
}

/// Counts the longest run of consecutive occurrences of `c`, as needed
/// to pick a code-span fence longer than any backtick run inside it.
pub fn count_max_consecutive(s: &str, c: char) -> (r: usize)
    ensures
        r == max_run(s@, c),
{
    let n = s.unicode_len();
    let mut best: usize = 0;
    let mut current: usize = 0;
    let mut i: usize = 0;
    proof {
        assert(s@.skip(0) =~= s@);
    }
    while i < n
        invariant
            0 <= i <= n,
            n == s@.len(),
            current <= i,
            best <= i,
            max_run(s@, c) == max_run_from(s@.skip(i as int), c, current as nat, best as nat),
        decreases n - i,
    {
        proof {
            assert(s@.skip(i as int)[0] == s@[i as int]);
            assert(s@.skip(i as int).drop_first() =~= s@.skip(i + 1));
        }
        if s.get_char(i) == c {
            current = current + 1;
            if current > best {
                best = current;
            }
        } else {
            current = 0;
        }
        i = i + 1;
    }
    proof {
        assert(s@.skip(n as int) =~= Seq::<char>::empty());
    }
    best
}

/// How one character reads in an escaped title: backslashes and double
/// quotes get a leading backslash.
pub open spec fn title_escaped_char(c: char) -> Seq<char> {
    if c == '\\' {
        seq!['\\', '\\']
    } else if c == '"' {
        seq!['\\', '"']
    } else {
        seq![c]
    }
}

/// A title with backslashes and quotes escaped.
pub open spec fn title_escaped(s: Seq<char>) -> Seq<char>
    decreases s.len(),
{
    if s.len() == 0 {
        Seq::empty()
    } else {
        title_escaped(s.drop_last()) + title_escaped_char(s.last())
    }
}

/// Escapes backslashes and double quotes in a link title.
pub fn escape_title(s: &str) -> (r: String)
    ensures
        r@ == title_escaped(s@),
{
    proof {
        reveal_strlit("\\\\");
        reveal_strlit("\\\"");
    }
    let n = s.unicode_len();
    let mut out = String::new();
    let mut i: usize = 0;
    while i < n
        invariant
            0 <= i <= n,
            n == s@.len(),
            out@ == title_escaped(s@.take(i as int)),
        decreases n - i,
    {
        let c = s.get_char(i);
        if c == '\\' {
            proof {
                reveal_strlit("\\\\");
            }
            out.append("\\\\");
        } else if c == '"' {
            proof {
                reveal_strlit("\\\"");
            }
            out.append("\\\"");
        } else {
            out.append(s.substring_char(i, i + 1));
        }
        proof {
            assert(s@.take(i + 1).drop_last() =~= s@.take(i as int));
            assert(s@.take(i + 1).last() == s@[i as int]);
            assert(out@ =~= title_escaped(s@.take(i + 1)));
        }
        i = i + 1;
    }
    proof {
        assert(s@.take(n as int) =~= s@);
    }
    out
}

/// The 16-bit signed value RTF writes for a character: its code point
/// truncated to 16 bits, read as a signed number.
pub open spec fn rtf_unicode_value(c: char) -> int {
    let low = (c as u32) % 0x10000;
    if low >= 0x8000 {
        low - 0x10000
    } else {
        low as int
    }
}

/// How one character reads in RTF: backslashes and braces are escaped,
/// a newline becomes a `\line` control, ASCII stands for itself, and
/// anything else becomes a `\u` control with its signed 16-bit value.
pub open spec fn rtf_escaped_char(c: char) -> Seq<char> {
    if c == '\\' {
        "\\\\"@
    } else if c == '{' {
        "\\{"@
    } else if c == '}' {
        "\\}"@
    } else if c == '\n' {
        "\\line "@
    } else if (c as u32) < 128 {
        seq![c]
    } else {
        "\\u"@ + dec_of_int(rtf_unicode_value(c)) + "?"@
    }
}

/// A text with every character RTF-escaped.
pub open spec fn rtf_escaped(s: Seq<char>) -> Seq<char>
    decreases s.len(),
{
    if s.len() == 0 {
        Seq::empty()
    } else {
        rtf_escaped(s.drop_last()) + rtf_escaped_char(s.last())
    }
}

/// Appends `text` to an RTF document, escaping control characters and
/// writing non-ASCII characters as `\u` controls.
pub fn push_rtf_escaped(rtf: &mut String, text: &str)
    ensures
        final(rtf)@ == old(rtf)@ + rtf_escaped(text@),
{
    let n = text.unicode_len();
    let mut i: usize = 0;
    while i < n
        invariant
            0 <= i <= n,
            n == text@.len(),
            rtf@ == old(rtf)@ + rtf_escaped(text@.take(i as int)),
        decreases n - i,
    {
        let c = text.get_char(i);
        if c == '\\' {
            rtf.append("\\\\");
        } else if c == '{' {
            rtf.append("\\{");
        } else if c == '}' {
            rtf.append("\\}");
        } else if c == '\n' {
            rtf.append("\\line ");
        } else {
            let code = c as u32;
            if code < 128 {
                rtf.append(text.substring_char(i, i + 1));
            } else {
                let low: u32 = code % 0x10000;
                let v: i32 = if low >= 0x8000 {
                    (low as i32) - 0x10000
                } else {
                    low as i32
                };
                rtf.append("\\u");
                push_dec_i32(rtf, v);
                rtf.append("?");
            }
        }
        proof {
            assert(text@.take(i + 1).drop_last() =~= text@.take(i as int));
            assert(text@.take(i + 1).last() == text@[i as int]);
            assert(rtf@ =~= old(rtf)@ + rtf_escaped(text@.take(i + 1)));
        }
        i = i + 1;
    }
    proof {
        assert(text@.take(n as int) =~= text@);
    }
}

} // verus!
