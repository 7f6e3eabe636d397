//! Byte-text utilities: ASCII whitespace trimming and decimal parsing,
//! with no assumption that the surrounding bytes are valid text.

use vstd::prelude::*;

verus! {

/// ASCII whitespace: tab, line feed, vertical tab, form feed, carriage
/// return, space.
pub open spec fn is_ascii_space(b: u8) -> bool {
    b == 9 || b == 10 || b == 11 || b == 12 || b == 13 || b == 32
}

/// `s` without its leading ASCII whitespace.
pub open spec fn trim_front(s: Seq<u8>) -> Seq<u8>
    decreases s.len(),
{
    if s.len() > 0 && is_ascii_space(s[0]) {
        trim_front(s.drop_first())
    } else {
        s
    }
}

/// `s` without its trailing ASCII whitespace.
pub open spec fn trim_back(s: Seq<u8>) -> Seq<u8>
    decreases s.len(),
{
    if s.len() > 0 && is_ascii_space(s.last()) {
        trim_back(s.drop_last())
    } else {
        s
    }
}

/// `s` without leading and trailing ASCII whitespace.
pub open spec fn trimmed(s: Seq<u8>) -> Seq<u8> {
    trim_back(trim_front(s))
}

/// An ASCII decimal digit.
pub open spec fn is_dec_digit(b: u8) -> bool {
    48 <= b <= 57
}

/// Every byte of `s` is an ASCII decimal digit.
pub open spec fn all_dec_digits(s: Seq<u8>) -> bool {
    forall|i: int| 0 <= i < s.len() ==> is_dec_digit(#[trigger] s[i])
}

/// The value of `s` read as a big-endian decimal numeral.
pub open spec fn dec_value(s: Seq<u8>) -> nat
    decreases s.len(),
{
    if s.len() == 0 {
        0
    } else {
        dec_value(s.drop_last()) * 10 + (if is_dec_digit(s.last()) {
            (s.last() - 48) as nat
        } else {
            0
        })
    }
}

/// The exact condition under which a byte string is a valid unsigned
/// 32-bit decimal numeral: non-empty, all digits, value in range.
pub open spec fn is_u32_numeral(s: Seq<u8>) -> bool {
    s.len() > 0 && all_dec_digits(s) && dec_value(s) <= u32::MAX
}

/// Reading more digits never decreases a numeral's value.
pub proof fn lemma_dec_value_grows(s: Seq<u8>, i: int, j: int)
    requires
        0 <= i <= j <= s.len(),
    ensures
        dec_value(s.take(i)) <= dec_value(s.take(j)),
    decreases j - i,
{
    if i < j {
        lemma_dec_value_grows(s, i, j - 1);
        assert(s.take(j).drop_last() =~= s.take(j - 1));
        assert(dec_value(s.take(j)) >= dec_value(s.take(j - 1)));
    }
}

fn is_space_byte(b: u8) -> (r: bool)
    ensures
        r == is_ascii_space(b),
{
    b == 9 || b == 10 || b == 11 || b == 12 || b == 13 || b == 32
}

/// Removing whitespace from the front, stated over indices.
proof fn lemma_trim_front_at(s: Seq<u8>, lo: int)
    requires
        0 <= lo <= s.len(),
        forall|j: int| 0 <= j < lo ==> is_ascii_space(#[trigger] s[j]),
        lo < s.len() ==> !is_ascii_space(s[lo]),
    ensures
        trim_front(s) =~= s.subrange(lo, s.len() as int),
    decreases lo,
{
    if lo == 0 {
    } else {
        assert(is_ascii_space(s[0]));
        lemma_trim_front_at(s.drop_first(), lo - 1);
        assert(s.drop_first().subrange(lo - 1, s.drop_first().len() as int) =~= s.subrange(
            lo,
            s.len() as int,
        ));
    }
}

/// Removing whitespace from the back, stated over indices.
proof fn lemma_trim_back_at(s: Seq<u8>, hi: int)
    requires
        0 <= hi <= s.len(),
        forall|j: int| hi <= j < s.len() ==> is_ascii_space(#[trigger] s[j]),
        hi > 0 ==> !is_ascii_space(s[hi - 1]),
    ensures
        trim_back(s) =~= s.subrange(0, hi),
    decreases s.len() - hi,
{
    if hi == s.len() {
    } else {
        assert(is_ascii_space(s.last()));
        lemma_trim_back_at(s.drop_last(), hi);
        assert(s.drop_last().subrange(0, hi) =~= s.subrange(0, hi));
    }
}

/// A fresh vector holding `v` without leading and trailing ASCII
/// whitespace.
pub fn trim_ascii(v: &Vec<u8>) -> (r: Vec<u8>)
    ensures
        r@ == trimmed(v@),
{
    let mut lo: usize = 0;
    while lo < v.len() && is_space_byte(v[lo])
        invariant
            lo <= v.len(),
            forall|j: int| 0 <= j < lo ==> is_ascii_space(#[trigger] v@[j]),
        decreases v.len() - lo,
    {
        lo += 1;
    }
    let mut hi: usize = v.len();
    while hi > lo && is_space_byte(v[hi - 1])
        invariant
            lo <= hi <= v.len(),
            lo == v.len() || !is_ascii_space(v@[lo as int]),
            forall|j: int| 0 <= j < lo ==> is_ascii_space(#[trigger] v@[j]),
            forall|j: int| hi <= j < v.len() ==> is_ascii_space(#[trigger] v@[j]),
        decreases hi,
    {
        hi -= 1;
    }
    let mut r: Vec<u8> = Vec::new();
    let mut j: usize = lo;
    while j < hi
        invariant
            lo <= j <= hi <= v.len(),
            lo == v.len() || !is_ascii_space(v@[lo as int]),
            hi == lo || !is_ascii_space(v@[hi - 1]),
            forall|j: int| 0 <= j < lo ==> is_ascii_space(#[trigger] v@[j]),
            forall|j: int| hi <= j < v.len() ==> is_ascii_space(#[trigger] v@[j]),
            r@ == v@.subrange(lo as int, j as int),
        decreases hi - j,
    {
        r.push(v[j]);
        proof {
            assert(v@.subrange(lo as int, j as int).push(v@[j as int]) =~= v@.subrange(
                lo as int,
                j + 1,
            ));
        }
        j += 1;
    }
    proof {
        lemma_trim_front_at(v@, lo as int);
        let f = v@.subrange(lo as int, v@.len() as int);
        if hi > lo {
            lemma_trim_back_at(f, hi - lo);
        } else {
            lemma_trim_back_at(f, 0);
        }
        assert(f.subrange(0, hi - lo) =~= v@.subrange(lo as int, hi as int));
        assert(r@ == trimmed(v@));
    }
    r
}

} // verus!
