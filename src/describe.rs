use vstd::prelude::*;
use vstd::string::{StrSliceExecFns, StringExecFns};

verus! {

/// The decimal digit for `d`, which is below ten.
pub open spec fn digit_char(d: nat) -> char {
    if d == 0 {
        '0'
    } else if d == 1 {
        '1'
    } else if d == 2 {
        '2'
    } else if d == 3 {
        '3'
    } else if d == 4 {
        '4'
    } else if d == 5 {
        '5'
    } else if d == 6 {
        '6'
    } else if d == 7 {
        '7'
    } else if d == 8 {
        '8'
    } else {
        '9'
    }
}

/// `n` written in decimal, without leading zeros.
pub open spec fn decimal(n: nat) -> Seq<char>
    decreases n,
{
    if n < 10 {
        seq![digit_char(n)]
    } else {
        decimal(n / 10) + seq![digit_char(n % 10)]
    }
}

/// A character as it stands inside a quoted string: quote, backslash and the
/// line and tab controls behind a backslash, every other character as it is.
pub open spec fn escape_char(c: char) -> Seq<char> {
    if c == '"' {
        seq!['\\', '"']
    } else if c == '\\' {
        seq!['\\', '\\']
    } else if c == '\n' {
        seq!['\\', 'n']
    } else if c == '\r' {
        seq!['\\', 'r']
    } else if c == '\t' {
        seq!['\\', 't']
    } else {
        seq![c]
    }
}

/// `s` with each character escaped as inside a quoted string.
pub open spec fn escaped(s: Seq<char>) -> Seq<char>
    decreases s.len(),
{
    if s.len() == 0 {
        Seq::empty()
    } else {
        escaped(s.drop_last()) + escape_char(s.last())
    }
}

/// The text that describes a template's slot and identifier: the number of
/// resident bytes, or `None` while unloaded, and never the bytes themselves.
pub open spec fn debug_text(len: Option<nat>, id: Seq<char>) -> Seq<char> {
    "FontTemplateData { bytes: "@ + match len {
        Some(n) => "Some(\"["@ + decimal(n) + " bytes]\")"@,
        None => "None"@,
    } + ", identifier: \""@ + escaped(id) + "\" }"@
}

fn digit_str(d: usize) -> (r: &'static str)
    requires
        d < 10,
    ensures
        r@ == seq![digit_char(d as nat)],
{
    proof {
        reveal_strlit("0");
        reveal_strlit("1");
        reveal_strlit("2");
        reveal_strlit("3");
        reveal_strlit("4");
        reveal_strlit("5");
        reveal_strlit("6");
        reveal_strlit("7");
        reveal_strlit("8");
        reveal_strlit("9");
    }
    if d == 0 {
        "0"
    } else if d == 1 {
        "1"
    } else if d == 2 {
        "2"
    } else if d == 3 {
        "3"
    } else if d == 4 {
        "4"
    } else if d == 5 {
        "5"
    } else if d == 6 {
        "6"
    } else if d == 7 {
        "7"
    } else if d == 8 {
        "8"
    } else {
        "9"
    }
}

/// Appends `n` in decimal to `out`.
pub fn push_decimal(out: &mut String, n: usize)
    ensures
        final(out)@ == old(out)@ + decimal(n as nat),
    decreases n,
{
    if n >= 10 {
        push_decimal(out, n / 10);
    }
    out.append(digit_str(n % 10));
    proof {
        assert(final(out)@ =~= old(out)@ + decimal(n as nat));
    }
}

/// Appends `s` to `out`, escaped as inside a quoted string.
pub fn push_escaped(out: &mut String, s: &str)
    ensures
        final(out)@ == old(out)@ + escaped(s@),
{
    let ghost start = out@;
    let n = s.unicode_len();
    let mut i: usize = 0;
    while i < n
        invariant
            n == s@.len(),
            i <= n,
            out@ == start + escaped(s@.subrange(0, i as int)),
        decreases n - i,
    {
        let c = s.get_char(i);
        proof {
            reveal_strlit("\\\"");
            reveal_strlit("\\\\");
            reveal_strlit("\\n");
            reveal_strlit("\\r");
            reveal_strlit("\\t");
        }
        if c == '"' {
            out.append("\\\"");
        } else if c == '\\' {
            out.append("\\\\");
        } else if c == '\n' {
            out.append("\\n");
        } else if c == '\r' {
            out.append("\\r");
        } else if c == '\t' {
            out.append("\\t");
        } else {
            out.append(s.substring_char(i, i + 1));
        }
        proof {
            assert(s@.subrange(0, i + 1).drop_last() =~= s@.subrange(0, i as int));
            assert(s@.subrange(0, i + 1).last() == c);
            assert(s@.subrange(i as int, i + 1) =~= seq![c]);
            assert(escaped(s@.subrange(0, i + 1)) == escaped(s@.subrange(0, i as int))
                + escape_char(c));
            assert(out@ =~= start + escaped(s@.subrange(0, i + 1)));
        }
        i = i + 1;
    }
    proof {
        assert(s@.subrange(0, n as int) =~= s@);
    }
}

/// The description of a slot holding `len` bytes, or none, for `identifier`.
pub fn describe(len: Option<usize>, identifier: &str) -> (r: String)
    ensures
        r@ == debug_text(
            match len {
                Some(n) => Some(n as nat),
                None => None,
            },
            identifier@,
        ),
{
    let mut out = String::from_str("FontTemplateData { bytes: ");
    match len {
        Some(n) => {
            out.append("Some(\"[");
            push_decimal(&mut out, n);
            out.append(" bytes]\")");
        },
        None => {
            out.append("None");
        },
    }
    out.append(", identifier: \"");
    push_escaped(&mut out, identifier);
    out.append("\" }");
    proof {
        assert(out@ =~= debug_text(
            match len {
                Some(n) => Some(n as nat),
                None => None,
            },
            identifier@,
        ));
    }
    out
}

/// The description of resident bytes depends only on their number: for one
/// identifier, two buffers of one length give the same text.
pub proof fn lemma_description_hides_content(a: Seq<u8>, b: Seq<u8>, id: Seq<char>)
    requires
        a.len() == b.len(),
    ensures
        debug_text(Some(a.len()), id) == debug_text(Some(b.len()), id),
{
}

} // verus!
