//! Character-level helpers: whitespace trimming and base-10 `u32`
//! conversion, both ways, verified against sequence-level specifications.

use vstd::prelude::*;

verus! {

/// A character with the Unicode `White_Space` property: the set that
/// `str::trim` removes at either end of a string.
pub open spec fn is_space(c: char) -> bool {
    let u = c as u32;
    ||| (0x09 <= u && u <= 0x0D)
    ||| u == 0x20
    ||| u == 0x85
    ||| u == 0xA0
    ||| u == 0x1680
    ||| (0x2000 <= u && u <= 0x200A)
    ||| u == 0x2028
    ||| u == 0x2029
    ||| u == 0x202F
    ||| u == 0x205F
    ||| u == 0x3000
}

/// Decides `is_space`.
pub fn is_space_char(c: char) -> (r: bool)
    ensures
        r == is_space(c),
{
    let u = c as u32;
    (0x09 <= u && u <= 0x0D) || u == 0x20 || u == 0x85 || u == 0xA0 || u == 0x1680 || (0x2000 <= u
        && u <= 0x200A) || u == 0x2028 || u == 0x2029 || u == 0x202F || u == 0x205F || u == 0x3000
}

/// The sequence with leading whitespace removed.
pub open spec fn trim_start_spec(s: Seq<char>) -> Seq<char>
    decreases s.len(),
{
    if s.len() > 0 && is_space(s[0]) {
        trim_start_spec(s.subrange(1, s.len() as int))
    } else {
        s
    }
}

/// The sequence with trailing whitespace removed.
pub open spec fn trim_end_spec(s: Seq<char>) -> Seq<char>
    decreases s.len(),
{
    if s.len() > 0 && is_space(s[s.len() - 1]) {
        trim_end_spec(s.subrange(0, s.len() - 1))
    } else {
        s
    }
}

/// The sequence with whitespace removed at both ends, as `str::trim` does.
pub open spec fn trim_spec(s: Seq<char>) -> Seq<char> {
    trim_end_spec(trim_start_spec(s))
}

proof fn lemma_trim_start_at(s: Seq<char>, i: int)
    requires
        0 <= i <= s.len(),
        forall|j: int| 0 <= j < i ==> is_space(s[j]),
        i == s.len() || !is_space(s[i]),
    ensures
        trim_start_spec(s) == s.subrange(i, s.len() as int),
    decreases i,
{
    if i == 0 {
        assert(trim_start_spec(s) =~= s.subrange(0, s.len() as int));
    } else {
        let t = s.subrange(1, s.len() as int);
        lemma_trim_start_at(t, i - 1);
        assert(t.subrange(i - 1, t.len() as int) =~= s.subrange(i, s.len() as int));
    }
}

proof fn lemma_trim_end_at(s: Seq<char>, k: int)
    requires
        0 <= k <= s.len(),
        forall|j: int| k <= j < s.len() ==> is_space(s[j]),
        k == 0 || !is_space(s[k - 1]),
    ensures
        trim_end_spec(s) == s.subrange(0, k),
    decreases s.len() - k,
{
    if k == s.len() {
        assert(trim_end_spec(s) =~= s.subrange(0, k));
    } else {
        let t = s.subrange(0, s.len() - 1);
        lemma_trim_end_at(t, k);
        assert(t.subrange(0, k) =~= s.subrange(0, k));
    }
}

proof fn lemma_trim_start_no_leading(s: Seq<char>)
    ensures
        trim_start_spec(s).len() > 0 ==> !is_space(trim_start_spec(s)[0]),
    decreases s.len(),
{
    if s.len() > 0 && is_space(s[0]) {
        lemma_trim_start_no_leading(s.subrange(1, s.len() as int));
    }
}

proof fn lemma_trim_end_no_trailing(s: Seq<char>)
    ensures
        trim_end_spec(s).len() > 0 ==> !is_space(trim_end_spec(s)[trim_end_spec(s).len() - 1]),
    decreases s.len(),
{
    if s.len() > 0 && is_space(s[s.len() - 1]) {
        lemma_trim_end_no_trailing(s.subrange(0, s.len() - 1));
    }
}

proof fn lemma_trim_end_keeps_first(s: Seq<char>)
    ensures
        trim_end_spec(s).len() > 0 ==> s.len() > 0 && trim_end_spec(s)[0] == s[0],
    decreases s.len(),
{
    if s.len() > 0 && is_space(s[s.len() - 1]) {
        lemma_trim_end_keeps_first(s.subrange(0, s.len() - 1));
    }
}

/// Trimming is idempotent: a trimmed string trims to itself.
pub proof fn lemma_trim_idempotent(s: Seq<char>)
    ensures
        trim_spec(trim_spec(s)) == trim_spec(s),
{
    let a = trim_start_spec(s);
    let t = trim_end_spec(a);
    lemma_trim_start_no_leading(s);
    lemma_trim_end_keeps_first(a);
    lemma_trim_end_no_trailing(a);
    if t.len() == 0 {
        assert(trim_start_spec(t) == t);
        assert(trim_end_spec(t) == t);
    } else {
        assert(!is_space(t[0]));
        assert(trim_start_spec(t) == t);
        assert(trim_end_spec(t) == t);
    }
}

/// Removes whitespace at both ends of a string, as `str::trim` does.
pub fn trim_str(s: &str) -> (r: &str)
    ensures
        r@ == trim_spec(s@),
{
    let len = s.unicode_len();
    let mut a: usize = 0;
    loop
        invariant_except_break
            a <= len,
            len == s@.len(),
            forall|j: int| 0 <= j < a ==> is_space(s@[j]),
        ensures
            a <= len,
            len == s@.len(),
            forall|j: int| 0 <= j < a ==> is_space(s@[j]),
            a == len || !is_space(s@[a as int]),
        decreases len - a,
    {
        if a < len {
            if is_space_char(s.get_char(a)) {
                a = a + 1;
            } else {
                break ;
            }
        } else {
            break ;
        }
    }
    let mut b: usize = len;
    loop
        invariant_except_break
            a <= b <= len,
            len == s@.len(),
            forall|j: int| b <= j < len ==> is_space(s@[j]),
        ensures
            a <= b <= len,
            len == s@.len(),
            forall|j: int| b <= j < len ==> is_space(s@[j]),
            b == a || !is_space(s@[b - 1]),
        decreases b,
    {
        if b > a {
            if is_space_char(s.get_char(b - 1)) {
                b = b - 1;
            } else {
                break ;
            }
        } else {
            break ;
        }
    }
    proof {
        lemma_trim_start_at(s@, a as int);
        let t = s@.subrange(a as int, s@.len() as int);
        lemma_trim_end_at(t, b - a);
        assert(t.subrange(0, b - a) =~= s@.subrange(a as int, b as int));
    }
    s.substring_char(a, b)
}

/// An ASCII decimal digit.
pub open spec fn is_digit(c: char) -> bool {
    0x30 <= c as u32 && c as u32 <= 0x39
}

/// The numeric value of an ASCII decimal digit.
pub open spec fn digit_val(c: char) -> nat
    recommends
        is_digit(c),
{
    (c as u32 - 0x30) as nat
}

/// Every character of the sequence is an ASCII decimal digit.
pub open spec fn all_digits(s: Seq<char>) -> bool {
    forall|i: int| 0 <= i < s.len() ==> is_digit(s[i])
}

/// The value of a sequence of decimal digits, most significant first.
pub open spec fn digits_val(s: Seq<char>) -> nat
    decreases s.len(),
{
    if s.len() == 0 {
        0
    } else {
        digits_val(s.subrange(0, s.len() - 1)) * 10 + digit_val(s[s.len() - 1])
    }
}

/// The sequence with one leading `+` removed, as unsigned parsing allows.
pub open spec fn sign_stripped(s: Seq<char>) -> Seq<char> {
    if s.len() > 0 && s[0] == '+' {
        s.subrange(1, s.len() as int)
    } else {
        s
    }
}

/// What `str::parse::<u32>` accepts: an optional leading `+`, then one or
/// more decimal digits whose value fits in a `u32`.
pub open spec fn dec_str_to_u32(s: Seq<char>) -> Option<u32> {
    let t = sign_stripped(s);
    if t.len() > 0 && all_digits(t) && digits_val(t) <= u32::MAX {
        Some(digits_val(t) as u32)
    } else {
        None
    }
}

proof fn lemma_digits_val_prefix_le(t: Seq<char>, i: int, j: int)
    requires
        0 <= i <= j <= t.len(),
    ensures
        digits_val(t.subrange(0, i)) <= digits_val(t.subrange(0, j)),
    decreases j - i,
{
    if i < j {
        lemma_digits_val_prefix_le(t, i, j - 1);
        let p = t.subrange(0, j);
        assert(p.subrange(0, j - 1) =~= t.subrange(0, j - 1));
        assert(digits_val(t.subrange(0, j - 1)) <= digits_val(t.subrange(0, j - 1)) * 10);
    }
}

/// Parses a base-10 unsigned 32-bit integer exactly as `str::parse::<u32>`
/// does: an optional leading `+`, then decimal digits, rejecting overflow.
pub fn parse_u32_dec(s: &str) -> (r: Option<u32>)
    ensures
        r == dec_str_to_u32(s@),
{
    let len = s.unicode_len();
    let start: usize = if len > 0 && s.get_char(0) == '+' {
        1
    } else {
        0
    };
    let ghost t = sign_stripped(s@);
    proof {
        assert(t =~= s@.subrange(start as int, s@.len() as int));
    }
    if start >= len {
        return None;
    }
    let mut i: usize = start;
    let mut val: u32 = 0;
    loop
        invariant_except_break
            start <= i <= len,
            len == s@.len(),
            start < len,
            t == sign_stripped(s@),
            t == s@.subrange(start as int, s@.len() as int),
            forall|j: int| 0 <= j < i - start ==> is_digit(t[j]),
            val == digits_val(t.subrange(0, i - start)),
        ensures
            parse_loop_done(s@, t, start as int, i as int, val),
        decreases len - i,
    {
        if i >= len {
            proof {
                assert(t.subrange(0, i - start) =~= t);
            }
            break ;
        }
        let c = s.get_char(i);
        let u = c as u32;
        if !(0x30 <= u && u <= 0x39) {
            proof {
                assert(t[i - start] == s@[i as int]);
                assert(!is_digit(t[i - start]));
                assert(!all_digits(t));
            }
            return None;
        }
        let d = u - 0x30;
        let ghost prev = t.subrange(0, i - start);
        let ghost cur = t.subrange(0, i + 1 - start);
        proof {
            assert(cur.subrange(0, cur.len() - 1) =~= prev);
            assert(cur[cur.len() - 1] == s@[i as int]);
        }
        let step = match val.checked_mul(10) {
            Some(v10) => v10.checked_add(d),
            None => None,
        };
        match step {
            Some(v) => {
                val = v;
                i = i + 1;
            },
            None => {
                proof {
                    assert(digits_val(cur) > u32::MAX);
                    lemma_digits_val_prefix_le(t, i + 1 - start, t.len() as int);
                    assert(t.subrange(0, t.len() as int) =~= t);
                }
                return None;
            },
        }
    }
    Some(val)
}

/// What holds when the digit loop of `parse_u32_dec` ran to the end of the
/// string: every character after the sign was a digit and `val` is their
/// value.
spec fn parse_loop_done(s: Seq<char>, t: Seq<char>, start: int, i: int, val: u32) -> bool {
    &&& i == s.len()
    &&& t == sign_stripped(s)
    &&& t == s.subrange(start, s.len() as int)
    &&& t.len() > 0
    &&& all_digits(t)
    &&& val == digits_val(t)
    &&& dec_str_to_u32(s) == Some(val)
}

/// The decimal digits of `n`, most significant first, no leading zeros.
pub open spec fn u32_dec_digits(n: nat) -> Seq<char>
    decreases n,
{
    if n < 10 {
        seq![digit_char(n)]
    } else {
        u32_dec_digits(n / 10).push(digit_char(n % 10))
    }
}

/// The ASCII character of a decimal digit value.
pub open spec fn digit_char(d: nat) -> char
    recommends
        d < 10,
{
    if d == 0 {
        '0'
    } else if d == 1 {
        '1'
    } else if d == 2 {
        '2'
    } else if d == 3 {
        '3'
    } else if d == 4 {
        '4'
    } else if d == 5 {
        '5'
    } else if d == 6 {
        '6'
    } else if d == 7 {
        '7'
    } else if d == 8 {
        '8'
    } else {
        '9'
    }
}

fn digit_str(d: u32) -> (r: &'static str)
    requires
        d < 10,
    ensures
        r@ =~= seq![digit_char(d as nat)],
{
    proof {
        reveal_strlit("0");
        reveal_strlit("1");
        reveal_strlit("2");
        reveal_strlit("3");
        reveal_strlit("4");
        reveal_strlit("5");
        reveal_strlit("6");
        reveal_strlit("7");
        reveal_strlit("8");
        reveal_strlit("9");
    }
    if d == 0 {
        "0"
    } else if d == 1 {
        "1"
    } else if d == 2 {
        "2"
    } else if d == 3 {
        "3"
    } else if d == 4 {
        "4"
    } else if d == 5 {
        "5"
    } else if d == 6 {
        "6"
    } else if d == 7 {
        "7"
    } else if d == 8 {
        "8"
    } else {
        "9"
    }
}

/// Writes `n` in decimal, as `u32::to_string` does.
pub fn u32_to_dec_string(n: u32) -> (r: String)
    ensures
        r@ == u32_dec_digits(n as nat),
{
    let mut rev: Vec<u32> = Vec::new();
    let mut m: u32 = n;
    proof {
        assert(u32_dec_digits(n as nat) =~= u32_dec_digits(n as nat) + digits_of(rev@));
    }
    loop
        invariant_except_break
            forall|j: int| 0 <= j < rev@.len() ==> rev@[j] < 10,
            u32_dec_digits(n as nat) == u32_dec_digits(m as nat) + digits_of(rev@),
        ensures
            forall|j: int| 0 <= j < rev@.len() ==> rev@[j] < 10,
            u32_dec_digits(n as nat) == digits_of(rev@),
        decreases m,
    {
        let d = m % 10;
        let ghost old_rev = rev@;
        rev.push(d);
        proof {
            assert(rev@.subrange(0, rev@.len() - 1) =~= old_rev);
            assert(rev@[rev@.len() - 1] == d);
            assert(digits_of(rev@) == seq![digit_char(d as nat)] + digits_of(old_rev));
        }
        if m < 10 {
            proof {
                assert(u32_dec_digits(m as nat) == seq![digit_char(m as nat)]);
                assert(u32_dec_digits(n as nat) == digits_of(rev@));
            }
            break ;
        }
        proof {
            assert(u32_dec_digits(m as nat) == u32_dec_digits((m / 10) as nat).push(
                digit_char(d as nat),
            ));
            assert(u32_dec_digits((m / 10) as nat).push(digit_char(d as nat)) + digits_of(old_rev)
                =~= u32_dec_digits((m / 10) as nat) + (seq![digit_char(d as nat)] + digits_of(
                old_rev,
            )));
        }
        m = m / 10;
    }
    let mut out = String::new();
    let mut k: usize = rev.len();
    proof {
        assert(rev@.subrange(0, rev@.len() as int) =~= rev@);
        assert(out@ + digits_of(rev@) =~= digits_of(rev@));
    }
    while k > 0
        invariant
            k <= rev@.len(),
            forall|j: int| 0 <= j < rev@.len() ==> rev@[j] < 10,
            out@ + digits_of(rev@.subrange(0, k as int)) == u32_dec_digits(n as nat),
        decreases k,
    {
        let ghost before = out@;
        let d = rev[k - 1];
        out.append(digit_str(d));
        proof {
            let p = rev@.subrange(0, k as int);
            assert(p[p.len() - 1] == rev@[k - 1]);
            assert(p.subrange(0, p.len() - 1) =~= rev@.subrange(0, k - 1));
            assert(digits_of(p) == seq![digit_char(d as nat)] + digits_of(rev@.subrange(0, k - 1)));
            assert((before + seq![digit_char(d as nat)]) + digits_of(rev@.subrange(0, k - 1))
                =~= before + (seq![digit_char(d as nat)] + digits_of(rev@.subrange(0, k - 1))));
        }
        k = k - 1;
    }
    proof {
        assert(rev@.subrange(0, 0) =~= Seq::<u32>::empty());
        assert(out@ =~= out@ + digits_of(rev@.subrange(0, 0)));
    }
    out
}

/// The digit characters of a reversed digit-value sequence: element 0 is
/// the least significant digit and comes last in the result.
pub open spec fn digits_of(rev: Seq<u32>) -> Seq<char>
    decreases rev.len(),
{
    if rev.len() == 0 {
        Seq::empty()
    } else {
        seq![digit_char(rev[rev.len() - 1] as nat)] + digits_of(rev.subrange(0, rev.len() - 1))
    }
}

} // verus!
