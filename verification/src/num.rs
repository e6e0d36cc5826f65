//! Decimal text for integers, in both directions: parsing query-string
//! values the way `str::parse` does for unsigned and signed integers
//! (optional sign, one or more digits, range check), and rendering integers
//! back to decimal text for the JSON and CSV output.

use vstd::prelude::*;

verus! {

pub open spec fn is_digit(c: char) -> bool {
    '0' <= c && c <= '9'
}

pub open spec fn digit_val(c: char) -> int {
    c as int - '0' as int
}

pub open spec fn all_digits(s: Seq<char>) -> bool {
    forall|i: int| 0 <= i < s.len() ==> is_digit(#[trigger] s[i])
}

/// The integer denoted by a sequence of decimal digits, most significant
/// first.
pub open spec fn digits_val(s: Seq<char>) -> int
    decreases s.len(),
{
    if s.len() == 0 {
        0
    } else {
        digits_val(s.drop_last()) * 10 + digit_val(s.last())
    }
}

/// The digit portion of unsigned decimal text: a single leading `+` is
/// allowed and skipped.
pub open spec fn unsigned_digits(s: Seq<char>) -> Seq<char> {
    if s.len() > 0 && s[0] == '+' {
        s.subrange(1, s.len() as int)
    } else {
        s
    }
}

/// The digit portion of signed decimal text: a single leading `+` or `-`
/// is allowed and skipped.
pub open spec fn signed_digits(s: Seq<char>) -> Seq<char> {
    if s.len() > 0 && (s[0] == '+' || s[0] == '-') {
        s.subrange(1, s.len() as int)
    } else {
        s
    }
}

pub open spec fn sign_of(s: Seq<char>) -> int {
    if s.len() > 0 && s[0] == '-' {
        -1
    } else {
        1
    }
}

/// Whether `s` is decimal text that `str::parse::<u16>` accepts.
pub open spec fn u16_text_ok(s: Seq<char>) -> bool {
    let d = unsigned_digits(s);
    d.len() > 0 && all_digits(d) && digits_val(d) <= 65535
}

pub open spec fn spec_parse_u16(s: Seq<char>) -> Option<u16> {
    if u16_text_ok(s) {
        Some(digits_val(unsigned_digits(s)) as u16)
    } else {
        None
    }
}

/// Whether `s` is decimal text that `str::parse::<i32>` accepts.
pub open spec fn i32_text_ok(s: Seq<char>) -> bool {
    let d = signed_digits(s);
    d.len() > 0 && all_digits(d) && -2147483648 <= sign_of(s) * digits_val(d) <= 2147483647
}

pub open spec fn spec_parse_i32(s: Seq<char>) -> Option<i32> {
    if i32_text_ok(s) {
        Some((sign_of(s) * digits_val(signed_digits(s))) as i32)
    } else {
        None
    }
}

proof fn lemma_digits_val_nonneg(s: Seq<char>)
    requires
        all_digits(s),
    ensures
        digits_val(s) >= 0,
    decreases s.len(),
{
    if s.len() > 0 {
        assert(all_digits(s.drop_last()));
        lemma_digits_val_nonneg(s.drop_last());
    }
}

/// Extending digit text to the right can only grow its value.
proof fn lemma_digits_val_prefix_le(s: Seq<char>, i: int)
    requires
        all_digits(s),
        0 <= i <= s.len(),
    ensures
        digits_val(s.subrange(0, i)) <= digits_val(s),
    decreases s.len() - i,
{
    if i == s.len() {
        assert(s.subrange(0, i) =~= s);
    } else {
        let t = s.subrange(0, i + 1);
        assert(t.drop_last() =~= s.subrange(0, i));
        assert(all_digits(t.drop_last()));
        lemma_digits_val_nonneg(t.drop_last());
        assert(digits_val(t) == digits_val(s.subrange(0, i)) * 10 + digit_val(s[i]));
        assert(digits_val(s.subrange(0, i)) * 10 >= digits_val(s.subrange(0, i))) by (nonlinear_arith)
            requires digits_val(s.subrange(0, i)) >= 0;
        lemma_digits_val_prefix_le(s, i + 1);
    }
}

/// Reads the digits of `s` from index `start` on and accumulates their
/// value, failing on a non-digit, on an empty digit run, or on a value
/// above `cap`.
fn parse_digits(s: &str, start: usize, cap: u64) -> (r: Option<u64>)
    requires
        start <= s@.len(),
        cap <= 2147483648,
    ensures
        ({
            let d = s@.subrange(start as int, s@.len() as int);
            match r {
                Some(v) => d.len() > 0 && all_digits(d) && digits_val(d) == v && v <= cap,
                None => !(d.len() > 0 && all_digits(d) && digits_val(d) <= cap),
            }
        }),
{
    let ghost d = s@.subrange(start as int, s@.len() as int);
    let len = s.unicode_len();
    if start == len {
        return None;
    }
    let mut acc: u64 = 0;
    let mut i: usize = start;
    while i < len
        invariant
            start <= i <= len,
            len == s@.len(),
            start < len,
            cap <= 2147483648,
            d == s@.subrange(start as int, s@.len() as int),
            all_digits(s@.subrange(start as int, i as int)),
            acc == digits_val(s@.subrange(start as int, i as int)),
            acc <= cap,
        decreases len - i,
    {
        let c = s.get_char(i);
        let cu = c as u32;
        if cu < 48 || cu > 57 {
            assert(!is_digit(s@[i as int]));
            assert(!all_digits(d)) by {
                assert(d[i - start] == s@[i as int]);
            }
            return None;
        }
        assert(is_digit(s@[i as int]));
        let dv: u64 = (cu - 48) as u64;
        let next: u64 = acc * 10 + dv;
        proof {
            let p = s@.subrange(start as int, i as int);
            let q = s@.subrange(start as int, i + 1);
            assert(q.drop_last() =~= p);
            assert(q.last() == s@[i as int]);
            assert(digits_val(q) == digits_val(p) * 10 + digit_val(s@[i as int]));
            assert(digit_val(s@[i as int]) == dv);
        }
        if next > cap {
            proof {
                if all_digits(d) {
                    let q = s@.subrange(start as int, i + 1);
                    assert(q =~= d.subrange(0, i + 1 - start));
                    lemma_digits_val_prefix_le(d, i + 1 - start);
                    assert(digits_val(d) >= digits_val(q));
                }
            }
            return None;
        }
        acc = next;
        i += 1;
    }
    assert(s@.subrange(start as int, i as int) =~= d);
    Some(acc)
}

/// Parses unsigned 16-bit decimal text exactly as `str::parse::<u16>` does.
pub fn parse_u16(s: &str) -> (r: Option<u16>)
    ensures
        r == spec_parse_u16(s@),
{
    let len = s.unicode_len();
    let start: usize = if len > 0 && s.get_char(0) == '+' {
        1
    } else {
        0
    };
    assert(unsigned_digits(s@) =~= s@.subrange(start as int, s@.len() as int));
    match parse_digits(s, start, 65535) {
        Some(v) => Some(v as u16),
        None => None,
    }
}

/// Parses signed 32-bit decimal text exactly as `str::parse::<i32>` does.
pub fn parse_i32(s: &str) -> (r: Option<i32>)
    ensures
        r == spec_parse_i32(s@),
{
    let len = s.unicode_len();
    let mut neg = false;
    let mut start: usize = 0;
    if len > 0 {
        let c = s.get_char(0);
        if c == '-' {
            neg = true;
            start = 1;
        } else if c == '+' {
            start = 1;
        }
    }
    let cap: u64 = if neg {
        2147483648
    } else {
        2147483647
    };
    assert(signed_digits(s@) =~= s@.subrange(start as int, s@.len() as int));
    match parse_digits(s, start, cap) {
        Some(v) => {
            if neg {
                let out: i32 = (-(v as i64)) as i32;
                assert(out == sign_of(s@) * digits_val(signed_digits(s@)));
                Some(out)
            } else {
                Some(v as i32)
            }
        },
        None => None,
    }
}

/// The decimal digit characters of a nonnegative integer, most significant
/// first.
pub open spec fn dec_digits(n: nat) -> Seq<char>
    decreases n,
{
    if n < 10 {
        seq![digit_char(n as int)]
    } else {
        dec_digits(n / 10) + seq![digit_char((n % 10) as int)]
    }
}

/// Decimal text of an integer, with a leading `-` when it is negative.
pub open spec fn dec_int(n: int) -> Seq<char> {
    if n < 0 {
        seq!['-'] + dec_digits((-n) as nat)
    } else {
        dec_digits(n as nat)
    }
}

pub open spec fn digit_char(d: int) -> char {
    if d == 0 { '0' }
    else if d == 1 { '1' }
    else if d == 2 { '2' }
    else if d == 3 { '3' }
    else if d == 4 { '4' }
    else if d == 5 { '5' }
    else if d == 6 { '6' }
    else if d == 7 { '7' }
    else if d == 8 { '8' }
    else { '9' }
}

fn digit_str(d: u64) -> (r: &'static str)
    requires
        d < 10,
    ensures
        r@ =~= seq![digit_char(d as int)],
{
    proof {
        reveal_strlit("0");
        reveal_strlit("1");
        reveal_strlit("2");
        reveal_strlit("3");
        reveal_strlit("4");
        reveal_strlit("5");
        reveal_strlit("6");
        reveal_strlit("7");
        reveal_strlit("8");
        reveal_strlit("9");
    }
    if d == 0 { "0" }
    else if d == 1 { "1" }
    else if d == 2 { "2" }
    else if d == 3 { "3" }
    else if d == 4 { "4" }
    else if d == 5 { "5" }
    else if d == 6 { "6" }
    else if d == 7 { "7" }
    else if d == 8 { "8" }
    else { "9" }
}

/// Renders a nonnegative integer as decimal text.
pub fn u64_dec_string(n: u64) -> (r: String)
    ensures
        r@ == dec_digits(n as nat),
    decreases n,
{
    if n < 10 {
        let mut out = String::new();
        out.append(digit_str(n));
        assert(out@ =~= dec_digits(n as nat));
        out
    } else {
        assert(n / 10 < n) by (nonlinear_arith)
            requires n >= 10;
        let mut out = u64_dec_string(n / 10);
        out.append(digit_str(n % 10));
        assert(out@ =~= dec_digits(n as nat));
        out
    }
}

/// Renders a signed integer as decimal text.
pub fn i64_dec_string(n: i64) -> (r: String)
    ensures
        r@ == dec_int(n as int),
{
    if n >= 0 {
        u64_dec_string(n as u64)
    } else {
        let mag: u64 = ((-(n + 1)) as u64) + 1;
        assert(mag == -(n as int));
        let mut out = String::new();
        proof {
            reveal_strlit("-");
        }
        out.append("-");
        assert(out@ =~= seq!['-']);
        let digits = u64_dec_string(mag);
        let out2 = out.concat(digits.as_str());
        assert(out2@ =~= dec_int(n as int));
        out2
    }
}

} // verus!
