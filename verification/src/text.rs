//! Small text utilities: quote removal and the rendering of numbers.

use vstd::prelude::*;
use vstd::string::*;

verus! {

/// `String::push`: appends one character to the end of the string.
pub assume_specification[ String::push ](s: &mut String, c: char)
    ensures
        final(s)@ == old(s)@.push(c),
;

/// `str`'s `==`: two string slices are equal exactly when they hold the same
/// characters in the same order.
pub assume_specification[ <str as PartialEq>::eq ](a: &str, b: &str) -> (r: bool)
    ensures
        r == (a@ == b@),
;

/// The characters of `s` with every double quote removed.
pub open spec fn without_quotes(s: Seq<char>) -> Seq<char> {
    s.filter(|c: char| c != '"')
}

/// Copies `s`, leaving out every double quote.
pub fn strip_quotes(s: &str) -> (r: String)
    ensures
        r@ == without_quotes(s@),
{
    let mut out = String::new();
    let n = s.unicode_len();
    let mut i: usize = 0;
    while i < n
        invariant
            i <= n,
            n == s@.len(),
            out@ == without_quotes(s@.take(i as int)),
        decreases n - i,
    {
        let c = s.get_char(i);
        proof {
            let next = s@.take(i as int + 1);
            assert(next.drop_last() =~= s@.take(i as int));
            assert(next.last() == c);
            reveal(Seq::filter);
        }
        if c != '"' {
            out.push(c);
        }
        i = i + 1;
    }
    proof {
        assert(s@.take(n as int) =~= s@);
    }
    out
}

/// The character that stands for the digit `d` (lower case above nine).
pub open spec fn digit(d: int) -> char {
    if d == 0 {
        '0'
    } else if d == 1 {
        '1'
    } else if d == 2 {
        '2'
    } else if d == 3 {
        '3'
    } else if d == 4 {
        '4'
    } else if d == 5 {
        '5'
    } else if d == 6 {
        '6'
    } else if d == 7 {
        '7'
    } else if d == 8 {
        '8'
    } else if d == 9 {
        '9'
    } else if d == 10 {
        'a'
    } else if d == 11 {
        'b'
    } else if d == 12 {
        'c'
    } else if d == 13 {
        'd'
    } else if d == 14 {
        'e'
    } else {
        'f'
    }
}

/// Whether `base` is one that `digits` can write: two to sixteen.
pub open spec fn valid_base(base: int) -> bool {
    2 <= base <= 16
}

/// `n` written in `base`, most significant digit first, without leading zeros.
pub open spec fn digits(n: nat, base: nat) -> Seq<char>
    decreases n,
{
    if !valid_base(base as int) || n < base {
        seq![digit(n as int)]
    } else {
        proof {
            vstd::arithmetic::div_mod::lemma_div_decreases(n as int, base as int);
        }
        digits(n / base, base).push(digit((n % base) as int))
    }
}

/// `n` in decimal.
pub open spec fn decimal(n: nat) -> Seq<char> {
    digits(n, 10)
}

/// `count` zeros.
pub open spec fn zeros(count: nat) -> Seq<char> {
    Seq::new(count, |i: int| '0')
}

/// `n` written in `base`, padded on the left with zeros to at least `width`
/// digits.
pub open spec fn padded_digits(n: nat, base: nat, width: nat) -> Seq<char> {
    let d = digits(n, base);
    if d.len() >= width {
        d
    } else {
        zeros((width - d.len()) as nat) + d
    }
}

/// The rendering of a number holds digit characters only.
pub proof fn lemma_digits_are_digits(n: nat, base: nat)
    ensures
        digits(n, base).len() >= 1,
        forall|i: int|
            0 <= i < digits(n, base).len() ==> exists|d: int| #[trigger]
                digits(n, base)[i] == #[trigger] digit(d),
    decreases n,
{
    if !valid_base(base as int) || n < base {
    } else {
        vstd::arithmetic::div_mod::lemma_div_decreases(n as int, base as int);
        lemma_digits_are_digits(n / base, base);
        let rest = digits(n / base, base);
        let all = digits(n, base);
        assert forall|i: int| 0 <= i < all.len() implies exists|d: int| #[trigger]
            all[i] == #[trigger] digit(d) by {
            if i < rest.len() {
                assert(all[i] == rest[i]);
            } else {
                assert(all[i] == digit((n % base) as int));
            }
        }
    }
}

fn digit_of(d: u64) -> (c: char)
    requires
        d < 16,
    ensures
        c == digit(d as int),
{
    if d == 0 {
        '0'
    } else if d == 1 {
        '1'
    } else if d == 2 {
        '2'
    } else if d == 3 {
        '3'
    } else if d == 4 {
        '4'
    } else if d == 5 {
        '5'
    } else if d == 6 {
        '6'
    } else if d == 7 {
        '7'
    } else if d == 8 {
        '8'
    } else if d == 9 {
        '9'
    } else if d == 10 {
        'a'
    } else if d == 11 {
        'b'
    } else if d == 12 {
        'c'
    } else if d == 13 {
        'd'
    } else if d == 14 {
        'e'
    } else {
        'f'
    }
}

/// The digits of `n` in `base`, least significant first.
fn reversed_digits(n: u64, base: u64) -> (v: Vec<char>)
    requires
        valid_base(base as int),
    ensures
        v@.reverse() == digits(n as nat, base as nat),
{
    let mut v: Vec<char> = Vec::new();
    let mut rest = n;
    while rest >= base
        invariant
            valid_base(base as int),
            digits(n as nat, base as nat) == digits(rest as nat, base as nat) + v@.reverse(),
        decreases rest,
    {
        let ghost before = v@;
        let d = digit_of(rest % base);
        v.push(d);
        proof {
            vstd::arithmetic::div_mod::lemma_div_decreases(rest as int, base as int);
            assert(v@.reverse() =~= seq![d] + before.reverse());
            assert(digits(rest as nat, base as nat) + before.reverse() =~= digits(
                (rest / base) as nat,
                base as nat,
            ) + v@.reverse());
        }
        rest = rest / base;
    }
    let ghost before = v@;
    let d = digit_of(rest);
    v.push(d);
    proof {
        assert(v@.reverse() =~= seq![d] + before.reverse());
        assert(digits(rest as nat, base as nat) =~= seq![d]);
    }
    v
}

/// Appends `n`, written in `base`, to `out`, padded on the left with zeros to
/// at least `width` digits.
pub fn push_padded_digits(out: &mut String, n: u64, base: u64, width: usize)
    requires
        valid_base(base as int),
    ensures
        final(out)@ == old(out)@ + padded_digits(n as nat, base as nat, width as nat),
{
    let v = reversed_digits(n, base);
    let len = v.len();
    let ghost text = digits(n as nat, base as nat);
    let mut k: usize = len;
    while k < width
        invariant
            len <= k,
            k <= width || k == len,
            out@ == old(out)@ + Seq::new((k - len) as nat, |i: int| '0'),
        decreases width - k,
    {
        out.push('0');
        assert(out@ =~= old(out)@ + Seq::new((k + 1 - len) as nat, |i: int| '0'));
        k = k + 1;
    }
    let ghost padded = out@;
    assert(padded =~= old(out)@ + zeros((k - len) as nat));
    let mut i: usize = len;
    while i > 0
        invariant
            i <= len,
            len == v@.len(),
            text == v@.reverse(),
            out@ == padded + text.take(len - i),
        decreases i,
    {
        i = i - 1;
        out.push(v[i]);
        proof {
            assert(text[len - 1 - i] == v@[i as int]);
            assert(text.take(len - i) =~= text.take(len - 1 - i).push(v@[i as int]));
        }
    }
    proof {
        assert(text.take(len as int) =~= text);
        assert(out@ =~= old(out)@ + padded_digits(n as nat, base as nat, width as nat));
    }
}

/// Appends `n`, written in `base`, to `out`.
pub fn push_digits(out: &mut String, n: u64, base: u64)
    requires
        valid_base(base as int),
    ensures
        final(out)@ == old(out)@ + digits(n as nat, base as nat),
{
    push_padded_digits(out, n, base, 0);
}

} // verus!
