//! Character-level text helpers: substring search, case folding, and the
//! decimal and octal renderings of numbers used in messages.

use vstd::prelude::*;

verus! {

/// `needle` occurs in `hay` as a contiguous run of characters.
/// The empty needle occurs in every text.
pub open spec fn is_infix(needle: Seq<char>, hay: Seq<char>) -> bool {
    exists|i: int|
        0 <= i && i + needle.len() <= hay.len() && #[trigger] hay.subrange(i, i + needle.len())
            == needle
}

/// Occurrence is transitive: a text occurring in a text that occurs in a
/// third occurs in the third.
pub proof fn lemma_infix_trans(a: Seq<char>, b: Seq<char>, c: Seq<char>)
    requires
        is_infix(a, b),
        is_infix(b, c),
    ensures
        is_infix(a, c),
{
    let i = choose|i: int| 0 <= i && i + a.len() <= b.len() && #[trigger] b.subrange(i, i + a.len()) == a;
    let j = choose|j: int| 0 <= j && j + b.len() <= c.len() && #[trigger] c.subrange(j, j + b.len()) == b;
    assert(c.subrange(j + i, j + i + a.len()) =~= a) by {
        assert forall|k: int| 0 <= k < a.len() implies c.subrange(j + i, j + i + a.len())[k] == a[k] by {
            assert(a[k] == b.subrange(i, i + a.len())[k]);
            assert(b[i + k] == c.subrange(j, j + b.len())[i + k]);
        }
    }
}

/// Every character of the text is ASCII (below 128).
pub open spec fn is_ascii_text(s: Seq<char>) -> bool {
    forall|i: int| 0 <= i < s.len() ==> (#[trigger] s[i] as u32) < 128
}

/// An ASCII uppercase letter `A`..`Z` as its lowercase letter; every other
/// character unchanged.
pub open spec fn ascii_lower_char(c: char) -> char {
    if 65 <= (c as u32) && (c as u32) <= 90 {
        ((c as u32) + 32) as char
    } else {
        c
    }
}

/// A text with each ASCII uppercase letter lowercased.
pub open spec fn ascii_lower(s: Seq<char>) -> Seq<char> {
    Seq::new(s.len(), |i: int| ascii_lower_char(s[i]))
}

/// What `str::to_lowercase` gives for a text: its lowercase equivalent as
/// Unicode defines it.
pub uninterp spec fn lowercase(s: Seq<char>) -> Seq<char>;

/// Calls `str::to_lowercase`.  Its result is named `lowercase` of the
/// argument's characters.  Of the Unicode mapping only the ASCII part is
/// claimed, as std documents it (`to_ascii_lowercase` maps `A`..`Z` to
/// `a`..`z` and leaves other characters, and `to_lowercase` lowercases ASCII
/// characters as well as the others): an ASCII text comes back with exactly
/// its uppercase letters lowercased.
#[verifier::external_body]
pub(crate) fn to_lowercase(s: &str) -> (res: String)
    ensures
        res@ == lowercase(s@),
        is_ascii_text(s@) ==> res@ == ascii_lower(s@),
{
    s.to_lowercase()
}

/// Calls `String::push`: appends one character.
#[verifier::external_body]
pub(crate) fn push_char(s: &mut String, c: char)
    ensures
        final(s)@ == old(s)@.push(c),
{
    s.push(c)
}

/// Calls `String::pop`: removes and returns the last character, if any.
#[verifier::external_body]
pub(crate) fn pop_char(s: &mut String) -> (res: Option<char>)
    ensures
        old(s)@.len() == 0 ==> res is None && final(s)@ == old(s)@,
        old(s)@.len() > 0 ==> res == Some(old(s)@.last()) && final(s)@ == old(s)@.drop_last(),
{
    s.pop()
}

/// The characters of a text, in order.
pub fn chars_of(s: &str) -> (res: Vec<char>)
    ensures
        res@ == s@,
{
    let mut res: Vec<char> = Vec::new();
    for c in iter: s.chars()
        invariant
            iter.seq() == s@,
            res@ == iter.seq().take(iter.index() as int),
    {
        res.push(c);
        assert(iter.seq().take(iter.index() + 1) =~= iter.seq().take(iter.index() as int).push(c));
    }
    assert(res@ =~= s@);
    res
}

/// Whether `needle` occurs in `hay` (`str::contains` on characters).
pub fn contains_chars(hay: &Vec<char>, needle: &Vec<char>) -> (res: bool)
    ensures
        res == is_infix(needle@, hay@),
{
    let n = needle.len();
    let h = hay.len();
    if n > h {
        assert forall|i: int| 0 <= i && i + n <= h implies #[trigger] hay@.subrange(i, i + n)
            != needle@ by {}
        return false;
    }
    let mut i: usize = 0;
    while i <= h - n
        invariant
            n == needle@.len(),
            h == hay@.len(),
            n <= h,
            i <= h - n + 1,
            forall|k: int| 0 <= k < i ==> #[trigger] hay@.subrange(k, k + n) != needle@,
        decreases h - n + 1 - i,
    {
        let mut j: usize = 0;
        let mut same = true;
        while j < n
            invariant
                n == needle@.len(),
                h == hay@.len(),
                i + n <= h,
                j <= n,
                same == (forall|m: int| 0 <= m < j ==> hay@[i + m] == needle@[m]),
            decreases n - j,
        {
            if hay[i + j] != needle[j] {
                same = false;
            }
            j += 1;
        }
        if same {
            assert(hay@.subrange(i as int, i + n) =~= needle@);
            return true;
        }
        assert(hay@.subrange(i as int, i + n) != needle@) by {
            let k = choose|m: int| 0 <= m < n && hay@[i + m] != needle@[m];
            assert(hay@.subrange(i as int, i + n)[k] == hay@[i + k]);
        }
        i += 1;
    }
    assert forall|k: int| 0 <= k && k + n <= h implies #[trigger] hay@.subrange(k, k + n)
        != needle@ by {
        assert(k < i);
    }
    false
}

/// A text lowercased as `str::to_lowercase` does it, with its ASCII case
/// written out.
pub open spec fn folded(s: Seq<char>) -> Seq<char> {
    if is_ascii_text(s) {
        ascii_lower(s)
    } else {
        lowercase(s)
    }
}

/// Lowercasing ASCII text works character by character, so it distributes
/// over concatenation.
pub proof fn lemma_ascii_lower_concat(a: Seq<char>, b: Seq<char>)
    ensures
        ascii_lower(a + b) == ascii_lower(a) + ascii_lower(b),
        is_ascii_text(a + b) <==> (is_ascii_text(a) && is_ascii_text(b)),
{
    assert(ascii_lower(a + b) =~= ascii_lower(a) + ascii_lower(b));
    if is_ascii_text(a + b) {
        assert forall|i: int| 0 <= i < a.len() implies (#[trigger] a[i] as u32) < 128 by {
            assert((a + b)[i] == a[i]);
        }
        assert forall|i: int| 0 <= i < b.len() implies (#[trigger] b[i] as u32) < 128 by {
            assert((a + b)[a.len() + i] == b[i]);
        }
    }
    if is_ascii_text(a) && is_ascii_text(b) {
        assert forall|i: int| 0 <= i < (a + b).len() implies (#[trigger] (a + b)[i] as u32) < 128 by {
            if i < a.len() {
                assert((a + b)[i] == a[i]);
            } else {
                assert((a + b)[i] == b[i - a.len()]);
            }
        }
    }
}

/// Whether the lowercased `needle` occurs in the lowercased `hay`.
pub open spec fn folded_contains(hay: Seq<char>, needle: Seq<char>) -> bool {
    is_infix(folded(needle), folded(hay))
}

/// The digit character for a value below ten.
pub open spec fn digit_char(d: nat) -> char {
    ((48 + d) as u8) as char
}

/// The decimal rendering of a natural number, without leading zeros.
pub open spec fn decimal(n: nat) -> Seq<char>
    decreases n,
{
    if n < 10 {
        seq![digit_char(n)]
    } else {
        decimal(n / 10).push(digit_char(n % 10))
    }
}

/// The decimal rendering of an integer, with a leading `-` when negative.
pub open spec fn signed_decimal(n: int) -> Seq<char> {
    if n < 0 {
        seq!['-'].add(decimal((-n) as nat))
    } else {
        decimal(n as nat)
    }
}

fn digit(d: u64) -> (c: char)
    requires
        d < 10,
    ensures
        c == digit_char(d as nat),
{
    let b: u8 = 48u8 + (d as u8);
    b as char
}

/// Appends the decimal rendering of `n` to `out`.
pub fn push_decimal(out: &mut String, n: u64)
    ensures
        final(out)@ == old(out)@ + decimal(n as nat),
    decreases n,
{
    if n < 10 {
        push_char(out, digit(n));
        assert(decimal(n as nat) =~= seq![digit_char(n as nat)]);
    } else {
        push_decimal(out, n / 10);
        push_char(out, digit(n % 10));
        assert(decimal(n as nat) == decimal((n / 10) as nat).push(digit_char((n % 10) as nat)));
    }
}

/// Appends the decimal rendering of a signed `n` to `out`.
pub fn push_signed_decimal(out: &mut String, n: i64)
    ensures
        final(out)@ == old(out)@ + signed_decimal(n as int),
{
    if n < 0 {
        push_char(out, '-');
        let m: u64 = (0i128 - (n as i128)) as u64;
        push_decimal(out, m);
        assert(old(out)@.push('-') + decimal(m as nat) =~= old(out)@ + (seq!['-'].add(
            decimal(m as nat),
        )));
    } else {
        push_decimal(out, n as u64);
    }
}

/// The decimal rendering of `n` as a text (what `n.to_string()` gives).
pub fn decimal_string(n: u64) -> (res: String)
    ensures
        res@ == decimal(n as nat),
{
    let mut s = String::new();
    push_decimal(&mut s, n);
    assert(s@ =~= decimal(n as nat));
    s
}

/// The four-digit, zero-padded octal rendering of a value below `0o1000`
/// (what `format!("{:04o}", m)` gives).
pub open spec fn octal4(m: nat) -> Seq<char> {
    seq!['0', digit_char(m / 64), digit_char((m / 8) % 8), digit_char(m % 8)]
}

/// Appends the four-digit octal rendering of `m` to `out`.
pub fn push_octal4(out: &mut String, m: u32)
    requires
        m < 512,
    ensures
        final(out)@ == old(out)@ + octal4(m as nat),
{
    push_char(out, '0');
    push_char(out, digit((m / 64) as u64));
    push_char(out, digit(((m / 8) % 8) as u64));
    push_char(out, digit((m % 8) as u64));
    assert(final(out)@ =~= old(out)@ + octal4(m as nat));
}

} // verus!
