//! Character-level helpers shared by the voice model and the backends:
//! ASCII lower-casing, prefix tests, locating the first `-` of a locale
//! string, and decimal rendering of counters.

use vstd::prelude::*;

verus! {

/// ASCII lower-casing of one character; every other character passes through.
pub open spec fn lower_char(c: char) -> char {
    if 65 <= c as u32 && c as u32 <= 90 {
        (((c as u32) + 32) as u8) as char
    } else {
        c
    }
}

/// ASCII lower-casing of a character sequence.
pub open spec fn lower(s: Seq<char>) -> Seq<char> {
    s.map_values(|c: char| lower_char(c))
}

/// The sequence with every `'_'` replaced by `'-'`.
pub open spec fn hyphenated(s: Seq<char>) -> Seq<char> {
    s.map_values(|c: char| if c == '_' { '-' } else { c })
}

/// `p` is a prefix of `s`.
pub open spec fn starts_with(s: Seq<char>, p: Seq<char>) -> bool {
    p.len() <= s.len() && s.subrange(0, p.len() as int) == p
}

/// Number of characters of `s` before its first `'-'` (all of `s` if none).
pub open spec fn prefix_len(s: Seq<char>) -> nat
    decreases s.len(),
{
    if s.len() == 0 {
        0
    } else if s[0] == '-' {
        0
    } else {
        1 + prefix_len(s.drop_first())
    }
}

/// The leading segment of `s`: everything before its first `'-'`.
pub open spec fn head_segment(s: Seq<char>) -> Seq<char> {
    s.subrange(0, prefix_len(s) as int)
}

pub proof fn lemma_prefix_len_le(s: Seq<char>)
    ensures
        prefix_len(s) <= s.len(),
    decreases s.len(),
{
    if s.len() != 0 && s[0] != '-' {
        lemma_prefix_len_le(s.drop_first());
    }
}

/// `prefix_len(s)` is the index of the first dash: a position `i` with no
/// dash before it, and a dash (or the end of `s`) at it, is `prefix_len(s)`.
pub proof fn lemma_prefix_len_at(s: Seq<char>, i: int)
    requires
        0 <= i <= s.len(),
        forall|j: int| 0 <= j < i ==> s[j] != '-',
        i < s.len() ==> s[i] == '-',
    ensures
        prefix_len(s) == i,
    decreases s.len(),
{
    if s.len() == 0 {
    } else if s[0] == '-' {
        assert(i == 0);
    } else {
        assert(i >= 1);
        let t = s.drop_first();
        assert(forall|j: int| 0 <= j < i - 1 ==> t[j] == s[j + 1] && t[j] != '-');
        lemma_prefix_len_at(t, i - 1);
    }
}

pub fn lower_char_exec(c: char) -> (r: char)
    ensures
        r == lower_char(c),
{
    let u = c as u32;
    if 65 <= u && u <= 90 {
        ((u + 32) as u8) as char
    } else {
        c
    }
}

/// Character-for-character equality of two string slices.
pub fn str_eq(a: &str, b: &str) -> (r: bool)
    ensures
        r == (a@ == b@),
{
    let na = a.unicode_len();
    let nb = b.unicode_len();
    if na != nb {
        return false;
    }
    let mut i: usize = 0;
    while i < na
        invariant
            0 <= i <= na,
            na == a@.len(),
            na == b@.len(),
            forall|j: int| 0 <= j < i ==> a@[j] == b@[j],
        decreases na - i,
    {
        if a.get_char(i) != b.get_char(i) {
            assert(a@[i as int] != b@[i as int]);
            return false;
        }
        i += 1;
    }
    proof {
        assert(a@ =~= b@);
    }
    true
}

/// Case-insensitive (ASCII) test that `p` is a prefix of `s`.
pub fn lower_starts_with(s: &str, p: &str) -> (r: bool)
    ensures
        r == starts_with(lower(s@), lower(p@)),
{
    let ns = s.unicode_len();
    let np = p.unicode_len();
    if np > ns {
        return false;
    }
    let mut i: usize = 0;
    while i < np
        invariant
            0 <= i <= np,
            ns == s@.len(),
            np == p@.len(),
            np <= ns,
            forall|j: int| 0 <= j < i ==> lower(s@)[j] == lower(p@)[j],
        decreases np - i,
    {
        let cs = lower_char_exec(s.get_char(i));
        let cp = lower_char_exec(p.get_char(i));
        if cs != cp {
            assert(lower(s@)[i as int] != lower(p@)[i as int]);
            assert(!starts_with(lower(s@), lower(p@))) by {
                if starts_with(lower(s@), lower(p@)) {
                    assert(lower(s@).subrange(0, lower(p@).len() as int)[i as int] == lower(
                        s@,
                    )[i as int]);
                }
            }
            return false;
        }
        i += 1;
    }
    proof {
        assert(lower(s@).subrange(0, lower(p@).len() as int) =~= lower(p@));
    }
    true
}

/// First index of `'-'` in `s`, or its character length if there is none.
pub fn find_dash(s: &str) -> (i: usize)
    ensures
        i == prefix_len(s@),
{
    let n = s.unicode_len();
    let mut i: usize = 0;
    while i < n
        invariant
            0 <= i <= n,
            n == s@.len(),
            forall|j: int| 0 <= j < i ==> s@[j] != '-',
        decreases n - i,
    {
        if s.get_char(i) == '-' {
            proof {
                lemma_prefix_len_at(s@, i as int);
            }
            return i;
        }
        i += 1;
    }
    proof {
        lemma_prefix_len_at(s@, n as int);
    }
    n
}

/// Relies on `String::push`: appends the given character to the end of the
/// string.
#[verifier::external_body]
pub fn push_char(s: &mut String, c: char)
    ensures
        final(s)@ == old(s)@.push(c),
{
    s.push(c);
}

/// ASCII lower-case copy of `s`.
pub fn to_lower(s: &str) -> (r: String)
    ensures
        r@ == lower(s@),
{
    let n = s.unicode_len();
    let mut r = String::new();
    let mut i: usize = 0;
    while i < n
        invariant
            0 <= i <= n,
            n == s@.len(),
            r@ == lower(s@.subrange(0, i as int)),
        decreases n - i,
    {
        let c = lower_char_exec(s.get_char(i));
        push_char(&mut r, c);
        proof {
            assert(r@ =~= lower(s@.subrange(0, i + 1)));
        }
        i += 1;
    }
    proof {
        assert(s@.subrange(0, n as int) =~= s@);
    }
    r
}

/// The characters of `n` written in decimal, most significant digit first.
pub open spec fn decimal(n: nat) -> Seq<char>
    decreases n,
{
    if n < 10 {
        seq![((48 + n) as u8) as char]
    } else {
        decimal(n / 10).push(((48 + n % 10) as u8) as char)
    }
}

pub proof fn lemma_decimal_len(n: nat)
    ensures
        decimal(n).len() >= 1,
    decreases n,
{
    if n >= 10 {
        lemma_decimal_len(n / 10);
    }
}

/// Distinct numbers render to distinct decimal strings.
pub proof fn lemma_decimal_injective(a: nat, b: nat)
    requires
        decimal(a) == decimal(b),
    ensures
        a == b,
    decreases a,
{
    lemma_decimal_len(a);
    lemma_decimal_len(b);
    if a < 10 && b < 10 {
        assert(decimal(a)[0] == (((48 + a) as u8) as char));
        assert(decimal(b)[0] == (((48 + b) as u8) as char));
        assert(decimal(a)[0] == decimal(b)[0]);
        assert((((48 + a) as u8) as char) as u32 == 48 + a);
        assert((((48 + b) as u8) as char) as u32 == 48 + b);
    } else if a < 10 {
        lemma_decimal_len(b / 10);
        assert(decimal(b).len() >= 2);
    } else if b < 10 {
        lemma_decimal_len(a / 10);
        assert(decimal(a).len() >= 2);
    } else {
        assert(decimal(a).last() == (((48 + a % 10) as u8) as char));
        assert(decimal(b).last() == (((48 + b % 10) as u8) as char));
        assert(decimal(a).last() == decimal(b).last());
        assert((((48 + a % 10) as u8) as char) as u32 == 48 + a % 10);
        assert((((48 + b % 10) as u8) as char) as u32 == 48 + b % 10);
        assert(a % 10 == b % 10);
        assert(decimal(a).drop_last() =~= decimal(a / 10));
        assert(decimal(b).drop_last() =~= decimal(b / 10));
        lemma_decimal_injective(a / 10, b / 10);
        vstd::arithmetic::div_mod::lemma_fundamental_div_mod(a as int, 10);
        vstd::arithmetic::div_mod::lemma_fundamental_div_mod(b as int, 10);
    }
}

/// Renders `n` in decimal.
pub fn decimal_string(n: u64) -> (r: String)
    ensures
        r@ == decimal(n as nat),
    decreases n,
{
    if n < 10 {
        let mut r = String::new();
        push_char(&mut r, (48 + (n as u8)) as char);
        proof {
            assert(r@ =~= decimal(n as nat));
        }
        r
    } else {
        let mut r = decimal_string(n / 10);
        push_char(&mut r, (48 + ((n % 10) as u8)) as char);
        r
    }
}

} // verus!
