//! JSON string framing: the escaping used when the request body is
//! serialized, its specification, and the proof that it loses nothing
//! (decoding an escaped string gives back the original).

use vstd::prelude::*;
use crate::chars::digit_val;
use crate::chars::is_digit;

verus! {

/// The ASCII character of a hexadecimal digit value, lower case.
pub open spec fn hex_char(d: nat) -> char
    recommends
        d < 16,
{
    if d == 0 {
        '0'
    } else if d == 1 {
        '1'
    } else if d == 2 {
        '2'
    } else if d == 3 {
        '3'
    } else if d == 4 {
        '4'
    } else if d == 5 {
        '5'
    } else if d == 6 {
        '6'
    } else if d == 7 {
        '7'
    } else if d == 8 {
        '8'
    } else if d == 9 {
        '9'
    } else if d == 10 {
        'a'
    } else if d == 11 {
        'b'
    } else if d == 12 {
        'c'
    } else if d == 13 {
        'd'
    } else if d == 14 {
        'e'
    } else {
        'f'
    }
}

/// How one character is written inside a JSON string literal: quote and
/// backslash get a backslash escape, the named control characters get
/// their short escapes, any other control character gets `\u00XX`, and
/// everything else stands for itself.
pub open spec fn escape_char(c: char) -> Seq<char> {
    if c == '"' {
        seq!['\\', '"']
    } else if c == '\\' {
        seq!['\\', '\\']
    } else if c == '\u{08}' {
        seq!['\\', 'b']
    } else if c == '\u{09}' {
        seq!['\\', 't']
    } else if c == '\u{0A}' {
        seq!['\\', 'n']
    } else if c == '\u{0C}' {
        seq!['\\', 'f']
    } else if c == '\u{0D}' {
        seq!['\\', 'r']
    } else if (c as u32) < 0x20 {
        seq!['\\', 'u', '0', '0', hex_char((c as u32 / 16) as nat), hex_char((c as u32 % 16) as nat)]
    } else {
        seq![c]
    }
}

/// A string as it is written inside a JSON string literal.
pub open spec fn json_escape(s: Seq<char>) -> Seq<char>
    decreases s.len(),
{
    if s.len() == 0 {
        Seq::empty()
    } else {
        escape_char(s[0]) + json_escape(s.subrange(1, s.len() as int))
    }
}

/// Escaping distributes over concatenation.
pub proof fn lemma_json_escape_concat(a: Seq<char>, b: Seq<char>)
    ensures
        json_escape(a + b) == json_escape(a) + json_escape(b),
    decreases a.len(),
{
    if a.len() == 0 {
        assert(a + b =~= b);
        assert(json_escape(a) + json_escape(b) =~= json_escape(b));
    } else {
        let t = a.subrange(1, a.len() as int);
        lemma_json_escape_concat(t, b);
        assert((a + b).subrange(1, (a + b).len() as int) =~= t + b);
        assert((a + b)[0] == a[0]);
        assert(escape_char(a[0]) + (json_escape(t) + json_escape(b)) =~= (escape_char(a[0])
            + json_escape(t)) + json_escape(b));
    }
}

/// Escaping one more character appends that character's escape.
pub proof fn lemma_json_escape_snoc(p: Seq<char>, c: char)
    ensures
        json_escape(p.push(c)) == json_escape(p) + escape_char(c),
{
    lemma_json_escape_concat(p, seq![c]);
    assert(p.push(c) =~= p + seq![c]);
    let one = seq![c];
    assert(one.subrange(1, one.len() as int) =~= Seq::<char>::empty());
    assert(json_escape(one) == escape_char(c) + json_escape(Seq::<char>::empty()));
    assert(escape_char(c) + Seq::<char>::empty() =~= escape_char(c));
}

/// The short escape codes, inverted.
pub open spec fn unescape_code(c: char) -> Option<char> {
    if c == '"' {
        Some('"')
    } else if c == '\\' {
        Some('\\')
    } else if c == '/' {
        Some('/')
    } else if c == 'b' {
        Some('\u{08}')
    } else if c == 't' {
        Some('\u{09}')
    } else if c == 'n' {
        Some('\u{0A}')
    } else if c == 'f' {
        Some('\u{0C}')
    } else if c == 'r' {
        Some('\u{0D}')
    } else {
        None
    }
}

/// A lower-case hexadecimal digit.
pub open spec fn is_hex_digit(c: char) -> bool {
    is_digit(c) || (0x61 <= c as u32 && c as u32 <= 0x66)
}

/// The value of a lower-case hexadecimal digit.
pub open spec fn hex_digit_val(c: char) -> nat
    recommends
        is_hex_digit(c),
{
    if is_digit(c) {
        digit_val(c)
    } else {
        (c as u32 - 0x61 + 10) as nat
    }
}

/// Decodes the escaping of `json_escape`: short escapes, `\u00XX` for a
/// byte-sized code, and plain characters; a bare quote, a bare control
/// character, or any other escape is rejected.
pub open spec fn json_unescape(s: Seq<char>) -> Option<Seq<char>>
    decreases s.len(),
{
    if s.len() == 0 {
        Some(Seq::empty())
    } else if s[0] == '\\' {
        if s.len() < 2 {
            None
        } else if s[1] == 'u' {
            if s.len() >= 6 && is_hex_digit(s[2]) && is_hex_digit(s[3]) && is_hex_digit(s[4])
                && is_hex_digit(s[5]) && hex_digit_val(s[2]) == 0 && hex_digit_val(s[3]) == 0 {
                let code = hex_digit_val(s[4]) * 16 + hex_digit_val(s[5]);
                match json_unescape(s.subrange(6, s.len() as int)) {
                    Some(t) => Some(seq![code as char] + t),
                    None => None,
                }
            } else {
                None
            }
        } else {
            match unescape_code(s[1]) {
                Some(c) => match json_unescape(s.subrange(2, s.len() as int)) {
                    Some(t) => Some(seq![c] + t),
                    None => None,
                },
                None => None,
            }
        }
    } else if s[0] == '"' || (s[0] as u32) < 0x20 {
        None
    } else {
        match json_unescape(s.subrange(1, s.len() as int)) {
            Some(t) => Some(seq![s[0]] + t),
            None => None,
        }
    }
}

/// LAW: JSON string escaping loses nothing — decoding an escaped string
/// gives back exactly the original, for every string.
pub proof fn lemma_json_escape_roundtrip(s: Seq<char>)
    ensures
        json_unescape(json_escape(s)) == Some(s),
    decreases s.len(),
{
    if s.len() == 0 {
    } else {
        let c = s[0];
        let rest = s.subrange(1, s.len() as int);
        lemma_json_escape_roundtrip(rest);
        let e = escape_char(c);
        let er = json_escape(rest);
        let full = e + er;
        assert(json_escape(s) == full);
        if c == '"' || c == '\\' || c == '\u{08}' || c == '\u{09}' || c == '\u{0A}' || c
            == '\u{0C}' || c == '\u{0D}' {
            assert(full[0] == '\\' && full[1] != 'u');
            assert(full.subrange(2, full.len() as int) =~= er);
            assert(unescape_code(full[1]) == Some(c));
            assert(json_unescape(full) == Some(seq![c] + rest));
            assert(seq![c] + rest =~= s);
        } else if (c as u32) < 0x20 {
            let u = c as u32;
            assert(full[0] == '\\' && full[1] == 'u' && full[2] == '0' && full[3] == '0');
            assert(full[4] == hex_char((u / 16) as nat) && full[5] == hex_char((u % 16) as nat));
            assert(full.len() >= 6);
            lemma_hex_char_val((u / 16) as nat);
            lemma_hex_char_val((u % 16) as nat);
            assert(hex_digit_val(full[4]) * 16 + hex_digit_val(full[5]) == u);
            assert(full.subrange(6, full.len() as int) =~= er);
            lemma_char_code_roundtrip(c);
            assert(((hex_digit_val(full[4]) * 16 + hex_digit_val(full[5])) as char) == c);
            assert(json_unescape(full) == Some(seq![c] + rest));
            assert(seq![c] + rest =~= s);
        } else {
            assert(full[0] == c);
            assert(full.subrange(1, full.len() as int) =~= er);
            assert(json_unescape(full) == Some(seq![c] + rest));
            assert(seq![c] + rest =~= s);
        }
    }
}

/// A control character's code point makes the same character again.
proof fn lemma_char_code_roundtrip(c: char)
    requires
        (c as u32) < 0x20,
    ensures
        ((c as u32) as char) == c,
{
}

/// A hexadecimal digit character decodes to the value it was made from.
proof fn lemma_hex_char_val(d: nat)
    requires
        d < 16,
    ensures
        is_hex_digit(hex_char(d)),
        hex_digit_val(hex_char(d)) == d,
{
}

/// LAW: two different strings never escape to the same JSON text.
pub proof fn lemma_json_escape_injective(a: Seq<char>, b: Seq<char>)
    requires
        json_escape(a) == json_escape(b),
    ensures
        a == b,
{
    lemma_json_escape_roundtrip(a);
    lemma_json_escape_roundtrip(b);
}

/// Reads a JSON string literal's content up to its closing quote: decodes
/// the same escapes as `json_unescape`, stops at the first unescaped
/// quote, and returns the decoded content with what follows the quote.
pub open spec fn scan_json_string(s: Seq<char>) -> Option<(Seq<char>, Seq<char>)>
    decreases s.len(),
{
    if s.len() == 0 {
        None
    } else if s[0] == '"' {
        Some((Seq::empty(), s.subrange(1, s.len() as int)))
    } else if s[0] == '\\' {
        if s.len() < 2 {
            None
        } else if s[1] == 'u' {
            if s.len() >= 6 && is_hex_digit(s[2]) && is_hex_digit(s[3]) && is_hex_digit(s[4])
                && is_hex_digit(s[5]) && hex_digit_val(s[2]) == 0 && hex_digit_val(s[3]) == 0 {
                let code = hex_digit_val(s[4]) * 16 + hex_digit_val(s[5]);
                match scan_json_string(s.subrange(6, s.len() as int)) {
                    Some(sr) => Some((seq![code as char] + sr.0, sr.1)),
                    None => None,
                }
            } else {
                None
            }
        } else {
            match unescape_code(s[1]) {
                Some(c) => match scan_json_string(s.subrange(2, s.len() as int)) {
                    Some(sr) => Some((seq![c] + sr.0, sr.1)),
                    None => None,
                },
                None => None,
            }
        }
    } else if (s[0] as u32) < 0x20 {
        None
    } else {
        match scan_json_string(s.subrange(1, s.len() as int)) {
            Some(sr) => Some((seq![s[0]] + sr.0, sr.1)),
            None => None,
        }
    }
}

/// Reading back an escaped string finds exactly the original content and
/// leaves exactly what followed the closing quote.
pub proof fn lemma_scan_escaped(x: Seq<char>, rest: Seq<char>)
    ensures
        scan_json_string(json_escape(x) + (seq!['"'] + rest)) == Some((x, rest)),
    decreases x.len(),
{
    let s = json_escape(x) + (seq!['"'] + rest);
    if x.len() == 0 {
        assert(s =~= seq!['"'] + rest);
        assert(s[0] == '"');
        assert(s.subrange(1, s.len() as int) =~= rest);
        assert(scan_json_string(s) == Some((Seq::<char>::empty(), rest)));
        assert(Seq::<char>::empty() =~= x);
    } else {
        let c = x[0];
        let xr = x.subrange(1, x.len() as int);
        lemma_scan_escaped(xr, rest);
        let e = escape_char(c);
        let tail = json_escape(xr) + (seq!['"'] + rest);
        assert(json_escape(x) == e + json_escape(xr));
        assert(s =~= e + tail);
        if c == '"' || c == '\\' || c == '\u{08}' || c == '\u{09}' || c == '\u{0A}' || c
            == '\u{0C}' || c == '\u{0D}' {
            assert(s[0] == '\\' && s[1] != 'u');
            assert(s.subrange(2, s.len() as int) =~= tail);
            assert(unescape_code(s[1]) == Some(c));
            assert(scan_json_string(s) == Some((seq![c] + xr, rest)));
            assert(seq![c] + xr =~= x);
        } else if (c as u32) < 0x20 {
            let u = c as u32;
            assert(s[0] == '\\' && s[1] == 'u' && s[2] == '0' && s[3] == '0');
            assert(s[4] == hex_char((u / 16) as nat) && s[5] == hex_char((u % 16) as nat));
            assert(s.len() >= 6);
            lemma_hex_char_val((u / 16) as nat);
            lemma_hex_char_val((u % 16) as nat);
            assert(hex_digit_val(s[4]) * 16 + hex_digit_val(s[5]) == u);
            assert(s.subrange(6, s.len() as int) =~= tail);
            lemma_char_code_roundtrip(c);
            assert(((hex_digit_val(s[4]) * 16 + hex_digit_val(s[5])) as char) == c);
            assert(scan_json_string(s) == Some((seq![c] + xr, rest)));
            assert(seq![c] + xr =~= x);
        } else {
            assert(s[0] == c);
            assert(s.subrange(1, s.len() as int) =~= tail);
            assert(scan_json_string(s) == Some((seq![c] + xr, rest)));
            assert(seq![c] + xr =~= x);
        }
    }
}

fn hex_str(d: u32) -> (r: &'static str)
    requires
        d < 16,
    ensures
        r@ =~= seq![hex_char(d as nat)],
{
    proof {
        reveal_strlit("0");
        reveal_strlit("1");
        reveal_strlit("2");
        reveal_strlit("3");
        reveal_strlit("4");
        reveal_strlit("5");
        reveal_strlit("6");
        reveal_strlit("7");
        reveal_strlit("8");
        reveal_strlit("9");
        reveal_strlit("a");
        reveal_strlit("b");
        reveal_strlit("c");
        reveal_strlit("d");
        reveal_strlit("e");
        reveal_strlit("f");
    }
    if d == 0 {
        "0"
    } else if d == 1 {
        "1"
    } else if d == 2 {
        "2"
    } else if d == 3 {
        "3"
    } else if d == 4 {
        "4"
    } else if d == 5 {
        "5"
    } else if d == 6 {
        "6"
    } else if d == 7 {
        "7"
    } else if d == 8 {
        "8"
    } else if d == 9 {
        "9"
    } else if d == 10 {
        "a"
    } else if d == 11 {
        "b"
    } else if d == 12 {
        "c"
    } else if d == 13 {
        "d"
    } else if d == 14 {
        "e"
    } else {
        "f"
    }
}

/// Appends `s`, escaped for a JSON string literal, to `out`.
pub fn append_json_escaped(out: &mut String, s: &str)
    ensures
        final(out)@ == old(out)@ + json_escape(s@),
{
    let len = s.unicode_len();
    let mut i: usize = 0;
    proof {
        assert(s@.subrange(0, 0) =~= Seq::<char>::empty());
        assert(old(out)@ + json_escape(s@.subrange(0, 0)) =~= old(out)@);
    }
    while i < len
        invariant
            i <= len,
            len == s@.len(),
            out@ == old(out)@ + json_escape(s@.subrange(0, i as int)),
        decreases len - i,
    {
        let ghost prev = s@.subrange(0, i as int);
        let ghost base = out@;
        let c = s.get_char(i);
        let u = c as u32;
        proof {
            assert(s@.subrange(0, i + 1) =~= prev.push(c));
            lemma_json_escape_snoc(prev, c);
            reveal_strlit("\\\"");
            reveal_strlit("\\\\");
            reveal_strlit("\\b");
            reveal_strlit("\\t");
            reveal_strlit("\\n");
            reveal_strlit("\\f");
            reveal_strlit("\\r");
            reveal_strlit("\\u00");
        }
        if u == 0x22 {
            out.append("\\\"");
            proof {
                assert(out@ =~= base + escape_char(c));
            }
        } else if u == 0x5C {
            out.append("\\\\");
            proof {
                assert(out@ =~= base + escape_char(c));
            }
        } else if u == 0x08 {
            out.append("\\b");
            proof {
                assert(out@ =~= base + escape_char(c));
            }
        } else if u == 0x09 {
            out.append("\\t");
            proof {
                assert(out@ =~= base + escape_char(c));
            }
        } else if u == 0x0A {
            out.append("\\n");
            proof {
                assert(out@ =~= base + escape_char(c));
            }
        } else if u == 0x0C {
            out.append("\\f");
            proof {
                assert(out@ =~= base + escape_char(c));
            }
        } else if u == 0x0D {
            out.append("\\r");
            proof {
                assert(out@ =~= base + escape_char(c));
            }
        } else if u < 0x20 {
            out.append("\\u00");
            out.append(hex_str(u / 16));
            out.append(hex_str(u % 16));
            proof {
                assert(out@ =~= base + escape_char(c));
            }
        } else {
            out.append(s.substring_char(i, i + 1));
            proof {
                assert(s@.subrange(i as int, i + 1) =~= seq![c]);
                assert(out@ =~= base + escape_char(c));
            }
        }
        proof {
            assert(out@ =~= old(out)@ + json_escape(s@.subrange(0, i + 1)));
        }
        i = i + 1;
    }
    proof {
        assert(s@.subrange(0, len as int) =~= s@);
    }
}

} // verus!
