//! Small verified text utilities: turning a `&str` into its characters,
//! string equality, ASCII case-insensitive comparison, and decimal
//! conversion of `u64` counters (both directions), each against an exact
//! specification over `Seq<char>`.
use vstd::prelude::*;

verus! {

use vstd::std_specs::iter::IteratorSpec;
use vstd::string::StringExecFns;

broadcast use vstd::string::next_postcondition, vstd::string::axiom_spec_iter;

/// The characters of `s`, in order.
pub fn chars_of(s: &str) -> (v: Vec<char>)
    ensures
        v@ == s@,
{
    let mut it = s.chars();
    let mut v: Vec<char> = Vec::new();
    proof {
        assert(v@ + it.remaining() =~= s@);
    }
    loop
        invariant
            v@ + it.remaining() == s@,
            it.decrease() is Some,
        decreases it.decrease()->0,
    {
        match it.next() {
            Some(c) => {
                v.push(c);
                proof {
                    assert(v@ + it.remaining() =~= s@);
                }
            },
            None => {
                proof {
                    assert(it.remaining().len() == 0);
                    assert(v@ =~= s@);
                }
                return v;
            },
        }
    }
}

/// Whether two string slices hold the same characters.
pub fn str_eq(a: &str, b: &str) -> (r: bool)
    ensures
        r == (a@ == b@),
{
    a.to_owned().eq(&b.to_owned())
}

/// The code point used for ASCII case-insensitive comparison: upper-case
/// ASCII letters are mapped onto their lower-case counterparts, everything
/// else is left alone.
pub open spec fn nocase_code(c: char) -> int {
    if 'A' <= c && c <= 'Z' {
        c as u32 + 32
    } else {
        c as u32 as int
    }
}

/// Equality of two character sequences up to ASCII letter case.
pub open spec fn ascii_eq_nocase(a: Seq<char>, b: Seq<char>) -> bool {
    a.len() == b.len() && forall|i: int| 0 <= i < a.len() ==> nocase_code(a[i]) == nocase_code(b[i])
}

/// Whether `a` and `b` are equal up to ASCII letter case.
pub fn eq_nocase(a: &str, b: &str) -> (r: bool)
    ensures
        r == ascii_eq_nocase(a@, b@),
{
    let va = chars_of(a);
    let vb = chars_of(b);
    if va.len() != vb.len() {
        return false;
    }
    let n = va.len();
    let mut i: usize = 0;
    while i < n
        invariant
            n == va.len() == vb.len(),
            0 <= i <= n,
            va@ == a@,
            vb@ == b@,
            forall|j: int| 0 <= j < i ==> nocase_code(a@[j]) == nocase_code(b@[j]),
        decreases n - i,
    {
        let ca = va[i];
        let cb = vb[i];
        let la: u32 = if 'A' <= ca && ca <= 'Z' {
            ca as u32 + 32
        } else {
            ca as u32
        };
        let lb: u32 = if 'A' <= cb && cb <= 'Z' {
            cb as u32 + 32
        } else {
            cb as u32
        };
        if la != lb {
            return false;
        }
        i += 1;
    }
    true
}

/// Whether `c` is an ASCII decimal digit.
pub open spec fn is_digit(c: char) -> bool {
    '0' <= c && c <= '9'
}

/// The numeric value of an ASCII decimal digit.
pub open spec fn digit_val(c: char) -> int {
    c as u32 - '0' as u32
}

/// Whether every character of `s` is an ASCII decimal digit.
pub open spec fn all_digits(s: Seq<char>) -> bool {
    forall|i: int| 0 <= i < s.len() ==> is_digit(s[i])
}

/// The integer denoted by a sequence of decimal digits, most significant
/// first.
pub open spec fn dec_val(s: Seq<char>) -> int
    decreases s.len(),
{
    if s.len() == 0 {
        0
    } else {
        dec_val(s.drop_last()) * 10 + digit_val(s.last())
    }
}

/// The digit string of `s` once an optional leading `+` sign is removed.
pub open spec fn unsigned_digits(s: Seq<char>) -> Seq<char> {
    if s.len() > 0 && s[0] == '+' {
        s.skip(1)
    } else {
        s
    }
}

/// The `u64` that `s` denotes in decimal, following the convention of
/// `str::parse::<u64>`: an optional leading `+`, then one or more digits,
/// and the value must fit in a `u64`; anything else has no value.
pub open spec fn spec_parse_u64(s: Seq<char>) -> Option<u64> {
    let d = unsigned_digits(s);
    if d.len() > 0 && all_digits(d) && dec_val(d) <= u64::MAX {
        Some(dec_val(d) as u64)
    } else {
        None
    }
}

/// Appending one digit keeps the value of every prefix below the value of
/// the whole string.
proof fn lemma_dec_val_prefix(s: Seq<char>, i: int)
    requires
        all_digits(s),
        0 <= i <= s.len(),
    ensures
        dec_val(s.take(i)) <= dec_val(s),
    decreases s.len() - i,
{
    if i < s.len() {
        lemma_dec_val_prefix(s, i + 1);
        assert(s.take(i + 1).drop_last() =~= s.take(i));
        assert(s.take(i + 1).last() == s[i]);
        assert(dec_val(s.take(i)) * 10 + digit_val(s[i]) == dec_val(s.take(i + 1)));
        lemma_dec_val_nonneg(s.take(i));
        assert(dec_val(s.take(i)) <= dec_val(s.take(i + 1)));
    } else {
        assert(s.take(i) =~= s);
    }
}

/// The value of a digit string is never negative.
proof fn lemma_dec_val_nonneg(s: Seq<char>)
    requires
        all_digits(s),
    ensures
        dec_val(s) >= 0,
    decreases s.len(),
{
    if s.len() > 0 {
        assert(all_digits(s.drop_last())) by {
            assert(forall|i: int| 0 <= i < s.len() - 1 ==> s.drop_last()[i] == s[i]);
        }
        lemma_dec_val_nonneg(s.drop_last());
    }
}

/// Parse a decimal `u64`, accepting exactly what `str::parse::<u64>`
/// accepts.
pub fn parse_u64(s: &str) -> (r: Option<u64>)
    ensures
        r == spec_parse_u64(s@),
{
    let v = chars_of(s);
    let start: usize = if v.len() > 0 && v[0] == '+' {
        1
    } else {
        0
    };
    let ghost d = unsigned_digits(s@);
    proof {
        assert(d =~= s@.skip(start as int));
    }
    if v.len() == start {
        return None;
    }
    let n = v.len();
    let mut acc: u64 = 0;
    let mut i: usize = start;
    while i < n
        invariant
            v@ == s@,
            n == v.len(),
            start <= i <= n,
            d == s@.skip(start as int),
            d == unsigned_digits(s@),
            d.len() == n - start,
            forall|j: int| 0 <= j < i - start ==> is_digit(d[j]),
            acc == dec_val(d.take(i - start)),
        decreases n - i,
    {
        let c = v[i];
        proof {
            assert(s@.skip(start as int)[i - start] == s@[i as int]);
            assert(d[i - start] == c);
        }
        if c < '0' || c > '9' {
            proof {
                assert(!is_digit(d[i - start]));
                assert(!all_digits(d));
            }
            return None;
        }
        let digit: u64 = (c as u32 - '0' as u32) as u64;
        let next = match acc.checked_mul(10) {
            Some(m) => m.checked_add(digit),
            None => None,
        };
        match next {
            Some(m) => {
                proof {
                    assert(d.take(i - start + 1).drop_last() =~= d.take(i - start));
                    assert(d.take(i - start + 1).last() == d[i - start]);
                }
                acc = m;
            },
            None => {
                proof {
                    assert(d.take(i - start + 1).drop_last() =~= d.take(i - start));
                    assert(d.take(i - start + 1).last() == d[i - start]);
                    assert(dec_val(d.take(i - start + 1)) > u64::MAX);
                    if all_digits(d) {
                        lemma_dec_val_prefix(d, i - start + 1);
                    }
                }
                return None;
            },
        }
        i += 1;
    }
    proof {
        assert(d.take(n - start) =~= d);
    }
    Some(acc)
}

/// The decimal digit character for a value below ten.
pub open spec fn digit_char(d: int) -> char {
    if d == 0 {
        '0'
    } else if d == 1 {
        '1'
    } else if d == 2 {
        '2'
    } else if d == 3 {
        '3'
    } else if d == 4 {
        '4'
    } else if d == 5 {
        '5'
    } else if d == 6 {
        '6'
    } else if d == 7 {
        '7'
    } else if d == 8 {
        '8'
    } else {
        '9'
    }
}

/// The decimal rendering of a natural number, without sign or padding.
pub open spec fn dec_str(n: int) -> Seq<char>
    decreases n,
{
    if n < 10 {
        seq![digit_char(n)]
    } else {
        dec_str(n / 10).push(digit_char(n % 10))
    }
}

fn digit_str(d: u64) -> (r: &'static str)
    requires
        d < 10,
    ensures
        r@ == seq![digit_char(d as int)],
{
    proof {
        reveal_strlit("0");
        reveal_strlit("1");
        reveal_strlit("2");
        reveal_strlit("3");
        reveal_strlit("4");
        reveal_strlit("5");
        reveal_strlit("6");
        reveal_strlit("7");
        reveal_strlit("8");
        reveal_strlit("9");
    }
    let r = match d {
        0 => "0",
        1 => "1",
        2 => "2",
        3 => "3",
        4 => "4",
        5 => "5",
        6 => "6",
        7 => "7",
        8 => "8",
        _ => "9",
    };
    proof {
        assert(r@ =~= seq![digit_char(d as int)]);
    }
    r
}

/// Render `n` in decimal, as `u64::to_string` does.
pub fn u64_to_dec(n: u64) -> (r: String)
    ensures
        r@ == dec_str(n as int),
    decreases n,
{
    if n < 10 {
        digit_str(n).to_owned()
    } else {
        let mut s = u64_to_dec(n / 10);
        s.append(digit_str(n % 10));
        proof {
            assert(s@ =~= dec_str(n as int));
        }
        s
    }
}

/// The decimal rendering of a counter parses back to the counter itself:
/// a heartbeat nonce built from the sent counter is echoed and re-read
/// without loss.
pub proof fn lemma_dec_str_round_trip(n: u64)
    ensures
        spec_parse_u64(dec_str(n as int)) == Some(n),
{
    lemma_dec_str_digits(n as int);
    lemma_dec_val_of_dec_str(n as int);
    assert(dec_str(n as int)[0] != '+');
    assert(unsigned_digits(dec_str(n as int)) =~= dec_str(n as int));
}

proof fn lemma_dec_str_digits(n: int)
    requires
        n >= 0,
    ensures
        dec_str(n).len() > 0,
        all_digits(dec_str(n)),
        is_digit(dec_str(n)[0]),
    decreases n,
{
    if n >= 10 {
        lemma_dec_str_digits(n / 10);
        assert(forall|i: int|
            0 <= i < dec_str(n / 10).len() ==> dec_str(n)[i] == dec_str(n / 10)[i]);
        assert(dec_str(n).last() == digit_char(n % 10));
    }
}

proof fn lemma_dec_val_of_dec_str(n: int)
    requires
        n >= 0,
    ensures
        dec_val(dec_str(n)) == n,
    decreases n,
{
    if n < 10 {
        assert(dec_str(n) =~= seq![digit_char(n)]);
        assert(dec_val(seq![digit_char(n)].drop_last()) == 0) by {
            assert(seq![digit_char(n)].drop_last() =~= Seq::<char>::empty());
        }
    } else {
        lemma_dec_val_of_dec_str(n / 10);
        assert(dec_str(n).drop_last() =~= dec_str(n / 10));
        assert(dec_str(n).last() == digit_char(n % 10));
    }
}

} // verus!
