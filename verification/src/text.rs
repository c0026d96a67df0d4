//! Text work the library needs: substring search and decimal rendering.
//!
//! The menu search is case-insensitive: both the query and each title are
//! folded to lower case before matching, and a title matches when the folded
//! query occurs inside its folded form. Case folding and whitespace trimming
//! are Unicode work left to the standard library; the occurrence test is a
//! verified byte search over the UTF-8 forms. The decimal rendering feeds
//! the training diagnostics.

use vstd::prelude::*;

verus! {

/// What `str::trim` returns for the given characters.
pub uninterp spec fn trim_of(s: Seq<char>) -> Seq<char>;

/// What `str::to_lowercase` returns for the given characters.
pub uninterp spec fn lower_of(s: Seq<char>) -> Seq<char>;

/// Relies on `str::trim`: the result depends on the characters alone, and an
/// empty string stays empty.
#[verifier::external_body]
pub(crate) fn trim_str(s: &str) -> (r: &str)
    ensures
        r@ == trim_of(s@),
        s@.len() == 0 ==> r@.len() == 0,
{
    s.trim()
}

/// Relies on `str::to_lowercase`: the result depends on the characters
/// alone, and an empty string stays empty.
#[verifier::external_body]
pub(crate) fn lowercase_str(s: &str) -> (r: String)
    ensures
        r@ == lower_of(s@),
        s@.len() == 0 ==> r@.len() == 0,
{
    s.to_lowercase()
}

/// Relies on `String::push`: appends the given character to the end of the
/// string.
pub assume_specification[ String::push ](s: &mut String, ch: char)
    ensures
        final(s)@ == old(s)@.push(ch),
;

/// The decimal digit character for a value below ten.
pub open spec fn digit_of(d: nat) -> char {
    if d == 0 {
        '0'
    } else if d == 1 {
        '1'
    } else if d == 2 {
        '2'
    } else if d == 3 {
        '3'
    } else if d == 4 {
        '4'
    } else if d == 5 {
        '5'
    } else if d == 6 {
        '6'
    } else if d == 7 {
        '7'
    } else if d == 8 {
        '8'
    } else {
        '9'
    }
}

/// The decimal rendering of a number: most significant digit first, no sign,
/// no leading zeroes except for the number zero itself.
pub open spec fn decimal_of(n: nat) -> Seq<char>
    decreases n,
{
    if n < 10 {
        seq![digit_of(n)]
    } else {
        decimal_of(n / 10).push(digit_of(n % 10))
    }
}

fn digit_char(d: usize) -> (c: char)
    requires
        d < 10,
    ensures
        c == digit_of(d as nat),
{
    if d == 0 {
        '0'
    } else if d == 1 {
        '1'
    } else if d == 2 {
        '2'
    } else if d == 3 {
        '3'
    } else if d == 4 {
        '4'
    } else if d == 5 {
        '5'
    } else if d == 6 {
        '6'
    } else if d == 7 {
        '7'
    } else if d == 8 {
        '8'
    } else {
        '9'
    }
}

/// Appends the decimal rendering of `n` to the string.
pub fn append_decimal(s: &mut String, n: usize)
    ensures
        final(s)@ == old(s)@ + decimal_of(n as nat),
{
    let mut digits: Vec<char> = Vec::new();
    let mut m: usize = n;
    digits.push(digit_char(m % 10));
    proof {
        assert(digits@.reverse() =~= seq![digit_of((n % 10) as nat)]);
        if n >= 10 {
            assert(decimal_of((n / 10) as nat).push(digit_of((n % 10) as nat))
                =~= decimal_of((n / 10) as nat) + digits@.reverse());
        }
    }
    m = m / 10;
    while m > 0
        invariant
            m > 0 ==> decimal_of(n as nat) == decimal_of(m as nat) + digits@.reverse(),
            m == 0 ==> decimal_of(n as nat) == digits@.reverse(),
        decreases m,
    {
        let d = digit_char(m % 10);
        proof {
            assert(digits@.push(d).reverse() =~= seq![digit_of((m % 10) as nat)]
                + digits@.reverse());
            if m >= 10 {
                assert(decimal_of((m / 10) as nat) + (seq![digit_of((m % 10) as nat)]
                    + digits@.reverse()) =~= (decimal_of((m / 10) as nat).push(
                    digit_of((m % 10) as nat),
                )) + digits@.reverse());
            }
        }
        digits.push(d);
        m = m / 10;
    }
    let k = digits.len();
    let mut i: usize = 0;
    assert(old(s)@ + digits@.reverse().take(0) =~= old(s)@);
    while i < k
        invariant
            k == digits@.len(),
            i <= k,
            decimal_of(n as nat) == digits@.reverse(),
            s@ == old(s)@ + digits@.reverse().take(i as int),
        decreases k - i,
    {
        let c = digits[k - 1 - i];
        proof {
            assert(digits@.reverse().take(i + 1) =~= digits@.reverse().take(i as int).push(
                digits@[k - 1 - i],
            ));
            assert(old(s)@ + digits@.reverse().take(i + 1) =~= (old(s)@
                + digits@.reverse().take(i as int)).push(digits@[k - 1 - i]));
        }
        s.push(c);
        i = i + 1;
    }
    assert(digits@.reverse().take(k as int) =~= digits@.reverse());
}

/// Whether `needle` occurs in `hay` starting at position `i`.
pub open spec fn match_at(hay: Seq<u8>, needle: Seq<u8>, i: int) -> bool {
    &&& 0 <= i
    &&& i + needle.len() <= hay.len()
    &&& hay.subrange(i, i + needle.len()) == needle
}

/// Whether `needle` occurs anywhere in `hay`.
pub open spec fn contains_bytes(hay: Seq<u8>, needle: Seq<u8>) -> bool {
    exists|i: int| match_at(hay, needle, i)
}

/// Byte search: whether `needle` occurs anywhere in `hay`.
pub fn has_match(hay: &[u8], needle: &[u8]) -> (r: bool)
    ensures
        r == contains_bytes(hay@, needle@),
{
    let n = needle.len();
    let h = hay.len();
    if n > h {
        assert(forall|i: int| !match_at(hay@, needle@, i));
        return false;
    }
    let mut i: usize = 0;
    while i <= h - n
        invariant
            n <= h,
            h == hay@.len(),
            n == needle@.len(),
            i <= h - n + 1,
            forall|j: int| 0 <= j < i ==> !match_at(hay@, needle@, j),
        decreases h - n - i + 1,
    {
        let mut k: usize = 0;
        while k < n && hay[i + k] == needle[k]
            invariant
                n <= h,
                h == hay@.len(),
                n == needle@.len(),
                i + n <= h,
                k <= n,
                forall|t: int| 0 <= t < k ==> hay@[i + t] == needle@[t],
            decreases n - k,
        {
            k = k + 1;
        }
        if k == n {
            assert(hay@.subrange(i as int, i + n) =~= needle@);
            assert(match_at(hay@, needle@, i as int));
            return true;
        }
        assert(!match_at(hay@, needle@, i as int)) by {
            if match_at(hay@, needle@, i as int) {
                assert(hay@.subrange(i as int, i + n)[k as int] == hay@[i + k]);
            }
        }
        i = i + 1;
    }
    assert(forall|j: int| !match_at(hay@, needle@, j));
    false
}

} // verus!
