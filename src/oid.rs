use vstd::prelude::*;
use vstd::string::*;

use crate::text::{lemma_split_on_nonempty, split_on, split_text, texts};

verus! {

pub open spec fn is_digit(c: char) -> bool {
    '0' <= c && c <= '9'
}

pub open spec fn digit_value(c: char) -> nat {
    (c as u32 - '0' as u32) as nat
}

/// The value of a string of decimal digits, most significant first.
pub open spec fn digits_value(s: Seq<char>) -> nat
    decreases s.len(),
{
    if s.len() == 0 {
        0
    } else {
        digits_value(s.drop_last()) * 10 + digit_value(s.last())
    }
}

/// One OID component: a non-empty run of decimal digits whose value fits in `u32`.
pub open spec fn valid_component(s: Seq<char>) -> bool {
    &&& s.len() > 0
    &&& forall|i: int| 0 <= i < s.len() ==> is_digit(#[trigger] s[i])
    &&& digits_value(s) <= u32::MAX
}

/// A dotted OID: every `.`-separated component is valid.
pub open spec fn valid_oid(s: Seq<char>) -> bool {
    forall|k: int| 0 <= k < split_on(s, '.').len() ==> valid_component(#[trigger] split_on(s, '.')[k])
}

/// The numbers of a valid dotted OID, in order.
pub open spec fn oid_numbers(s: Seq<char>) -> Seq<u32> {
    split_on(s, '.').map_values(|c: Seq<char>| digits_value(c) as u32)
}

proof fn lemma_digits_value_grows(s: Seq<char>, i: int, j: int)
    requires
        0 <= i <= j <= s.len(),
    ensures
        digits_value(s.subrange(0, i)) <= digits_value(s.subrange(0, j)),
    decreases j - i,
{
    if i < j {
        lemma_digits_value_grows(s, i, j - 1);
        assert(s.subrange(0, j).drop_last() == s.subrange(0, j - 1));
    }
}

/// Reads one OID component.
pub fn parse_component(s: &str) -> (r: Option<u32>)
    ensures
        r is Some <==> valid_component(s@),
        r is Some ==> r->0 == digits_value(s@),
{
    let n = s.unicode_len();
    if n == 0 {
        return None;
    }
    let mut acc: u64 = 0;
    let mut i: usize = 0;
    while i < n
        invariant
            n == s@.len(),
            i <= n,
            acc == digits_value(s@.subrange(0, i as int)),
            acc <= u32::MAX,
            forall|k: int| 0 <= k < i ==> is_digit(#[trigger] s@[k]),
        decreases n - i,
    {
        let c = s.get_char(i);
        if !('0' <= c && c <= '9') {
            return None;
        }
        let d = (c as u32 - '0' as u32) as u64;
        assert(s@.subrange(0, i + 1).drop_last() == s@.subrange(0, i as int));
        acc = acc * 10 + d;
        if acc > u32::MAX as u64 {
            proof {
                lemma_digits_value_grows(s@, i + 1, n as int);
                assert(s@.subrange(0, n as int) == s@);
            }
            return None;
        }
        i = i + 1;
    }
    assert(s@.subrange(0, n as int) == s@);
    Some(acc as u32)
}

/// Reads a dotted OID into its numbers; `None` when any component is malformed.
pub fn parse_oid(s: &str) -> (r: Option<Vec<u32>>)
    ensures
        r is Some <==> valid_oid(s@),
        r is Some ==> r->0@ == oid_numbers(s@),
{
    let parts = split_text(s, '.');
    proof {
        lemma_split_on_nonempty(s@, '.');
    }
    let mut numbers: Vec<u32> = Vec::new();
    let mut j: usize = 0;
    while j < parts.len()
        invariant
            texts(parts@) == split_on(s@, '.'),
            j <= parts@.len(),
            numbers@ == oid_numbers(s@).subrange(0, j as int),
            forall|k: int| 0 <= k < j ==> valid_component(#[trigger] split_on(s@, '.')[k]),
        decreases parts@.len() - j,
    {
        assert(texts(parts@)[j as int] == parts@[j as int]@);
        match parse_component(parts[j].as_str()) {
            Some(v) => {
                let ghost before = numbers@;
                numbers.push(v);
                assert(numbers@ =~= oid_numbers(s@).subrange(0, j + 1)) by {
                    assert(before =~= oid_numbers(s@).subrange(0, j as int));
                }
            },
            None => {
                return None;
            },
        }
        j = j + 1;
    }
    assert(oid_numbers(s@).subrange(0, j as int) =~= oid_numbers(s@));
    Some(numbers)
}

} // verus!
