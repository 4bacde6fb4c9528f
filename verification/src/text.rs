//! Decimal rendering of integers and small string-building helpers.

use vstd::prelude::*;
use vstd::string::*;

verus! {

/// The ASCII digit character for `d` (meaningful for `d < 10`).
pub open spec fn digit_char(d: nat) -> char {
    (48 + d) as char
}

/// The decimal representation of `n`, without sign or leading zeros.
pub open spec fn decimal(n: nat) -> Seq<char>
    decreases n,
{
    if n < 10 {
        seq![digit_char(n)]
    } else {
        decimal(n / 10).push(digit_char(n % 10))
    }
}

/// `n` rendered with at least two digits, padded on the left with `0`
/// (what the format `{:02}` gives).
pub open spec fn pad2(n: nat) -> Seq<char> {
    if n < 10 {
        seq!['0'].add(decimal(n))
    } else {
        decimal(n)
    }
}

/// Appends one character to a string.
///
/// Trusted: wraps `String::push`, which std documents as appending the given
/// `char` to the end of the string.
#[verifier::external_body]
pub(crate) fn push_char(s: &mut String, c: char)
    ensures
        final(s)@ == old(s)@.push(c),
{
    s.push(c);
}

fn digit(d: u64) -> (c: char)
    requires
        d < 10,
    ensures
        c == digit_char(d as nat),
{
    let b: u8 = 48u8 + (d as u8);
    b as char
}

/// Renders `n` in decimal.
pub fn format_decimal(n: u64) -> (s: String)
    ensures
        s@ == decimal(n as nat),
{
    let mut digits: Vec<char> = Vec::new();
    let mut m: u64 = n;
    // digits holds the low-order digits of n, most significant last
    while m >= 10
        invariant
            m <= n,
            decimal(n as nat) == decimal(m as nat) + digits@.reverse(),
        decreases m,
    {
        let d = m % 10;
        let c = digit(d);
        proof {
            assert(decimal(m as nat) == decimal((m / 10) as nat).push(c));
            assert(seq![c] + digits@.reverse() =~= digits@.push(c).reverse());
            assert(decimal(m as nat) + digits@.reverse() =~= decimal((m / 10) as nat) + (seq![c] + digits@.reverse()));
        }
        digits.push(c);
        m = m / 10;
    }
    let first = digit(m);
    let mut s = String::new();
    push_char(&mut s, first);
    let mut i: usize = digits.len();
    proof {
        assert(s@ =~= decimal(m as nat));
        assert(digits@.reverse().take(0) =~= Seq::<char>::empty());
    }
    while i > 0
        invariant
            i <= digits.len(),
            decimal(n as nat) == decimal(m as nat) + digits@.reverse(),
            s@ =~= decimal(m as nat) + digits@.reverse().take((digits.len() - i) as int),
        decreases i,
    {
        i = i - 1;
        let c = digits[i];
        proof {
            let r = digits@.reverse();
            let k = (digits.len() - i - 1) as int;
            assert(r[k] == c);
            assert(r.take(k + 1) =~= r.take(k).push(c));
        }
        push_char(&mut s, c);
    }
    proof {
        assert(digits@.reverse().take(digits.len() as int) =~= digits@.reverse());
    }
    s
}

/// Renders `n` with at least two digits, as the format `{:02}` does.
pub fn format_pad2(n: u64) -> (s: String)
    ensures
        s@ == pad2(n as nat),
{
    if n < 10 {
        let mut s = String::new();
        push_char(&mut s, '0');
        push_char(&mut s, digit(n));
        proof {
            assert(decimal(n as nat) == seq![digit_char(n as nat)]);
            assert(s@ =~= seq!['0'].add(decimal(n as nat)));
        }
        s
    } else {
        format_decimal(n)
    }
}

} // verus!

verus! {

/// The characters of a string, one by one.
pub fn chars_of(s: &str) -> (v: Vec<char>)
    ensures
        v@ == s@,
{
    let n = s.unicode_len();
    let mut v: Vec<char> = Vec::new();
    let mut i: usize = 0;
    while i < n
        invariant
            n == s@.len(),
            i <= n,
            v@ =~= s@.take(i as int),
        decreases n - i,
    {
        let c = s.get_char(i);
        v.push(c);
        proof {
            assert(s@.take(i + 1) =~= s@.take(i as int).push(c));
        }
        i = i + 1;
    }
    proof {
        assert(s@.take(n as int) =~= s@);
    }
    v
}

/// The characters `v[from..to]` gathered into a string.
pub fn string_of_range(v: &Vec<char>, from: usize, to: usize) -> (s: String)
    requires
        from <= to <= v@.len(),
    ensures
        s@ == v@.subrange(from as int, to as int),
{
    let mut s = String::new();
    let mut i: usize = from;
    while i < to
        invariant
            from <= i <= to <= v@.len(),
            s@ =~= v@.subrange(from as int, i as int),
        decreases to - i,
    {
        push_char(&mut s, v[i]);
        proof {
            assert(v@.subrange(from as int, i + 1) =~= v@.subrange(from as int, i as int).push(v@[i as int]));
        }
        i = i + 1;
    }
    s
}

} // verus!
