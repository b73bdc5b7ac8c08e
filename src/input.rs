//! Reading an item id out of a line of user input.
use vstd::prelude::*;
use vstd::string::StrSliceExecFns;

verus! {

pub open spec fn is_digit(c: char) -> bool {
    '0' as u32 <= c as u32 <= '9' as u32
}

pub open spec fn all_digits(s: Seq<char>) -> bool {
    forall|i: int| 0 <= i < s.len() ==> is_digit(#[trigger] s[i])
}

/// The number that a string of decimal digits denotes.
pub open spec fn decimal_value(s: Seq<char>) -> nat
    decreases s.len(),
{
    if s.len() == 0 {
        0
    } else {
        decimal_value(s.drop_last()) * 10 + (s.last() as u32 - '0' as u32) as nat
    }
}

/// The digits of an id as typed: one optional leading `+` is dropped.
pub open spec fn unsigned_digits(s: Seq<char>) -> Seq<char> {
    if s.len() > 0 && s[0] == '+' {
        s.drop_first()
    } else {
        s
    }
}

/// The id that a line denotes: an optional `+` and at least one decimal digit,
/// nothing else, with a value that fits in a `u32`.
pub open spec fn id_value(s: Seq<char>) -> Option<u32> {
    let d = unsigned_digits(s);
    if d.len() > 0 && all_digits(d) && decimal_value(d) <= u32::MAX {
        Some(decimal_value(d) as u32)
    } else {
        None
    }
}

/// A prefix of a digit string never denotes more than the whole string.
proof fn lemma_decimal_prefix_le(d: Seq<char>, k: int)
    requires
        0 <= k <= d.len(),
        all_digits(d),
    ensures
        decimal_value(d.subrange(0, k)) <= decimal_value(d),
    decreases d.len(),
{
    if k < d.len() {
        assert(all_digits(d.drop_last())) by {
            assert forall|i: int| 0 <= i < d.drop_last().len() implies is_digit(
                #[trigger] d.drop_last()[i],
            ) by {
                assert(d.drop_last()[i] == d[i]);
            }
        }
        lemma_decimal_prefix_le(d.drop_last(), k);
        assert(d.drop_last().subrange(0, k) =~= d.subrange(0, k));
    } else {
        assert(d.subrange(0, k) =~= d);
    }
}

/// Parses an id as `str::parse::<u32>` does: an optional `+`, then decimal
/// digits only, within the range of `u32`.
pub fn parse_id(input: &str) -> (r: Option<u32>)
    ensures
        r == id_value(input@),
{
    let n = input.unicode_len();
    let mut start: usize = 0;
    if n > 0 && input.get_char(0) == '+' {
        start = 1;
    }
    let ghost d = unsigned_digits(input@);
    assert(d =~= input@.subrange(start as int, n as int));
    if start == n {
        return None;
    }
    let mut acc: u32 = 0;
    let mut i: usize = start;
    while i < n
        invariant
            n == input@.len(),
            start <= i <= n,
            d == input@.subrange(start as int, n as int),
            d == unsigned_digits(input@),
            all_digits(input@.subrange(start as int, i as int)),
            acc as nat == decimal_value(input@.subrange(start as int, i as int)),
        decreases n - i,
    {
        let c = input.get_char(i);
        let code = c as u32;
        let ghost before = input@.subrange(start as int, i as int);
        let ghost after = input@.subrange(start as int, i + 1);
        assert(after.drop_last() =~= before);
        assert(after.last() == c);
        if code < '0' as u32 || code > '9' as u32 {
            assert(d[i - start] == c);
            return None;
        }
        let digit = code - '0' as u32;
        if acc > 429496729 || (acc == 429496729 && digit > 5) {
            proof {
                assert(after =~= d.subrange(0, i + 1 - start));
                assert(decimal_value(after) == decimal_value(before) * 10 + digit);
                if all_digits(d) {
                    lemma_decimal_prefix_le(d, i + 1 - start);
                }
            }
            return None;
        }
        acc = acc * 10 + digit;
        proof {
            assert forall|j: int| 0 <= j < after.len() implies is_digit(#[trigger] after[j]) by {
                if j < before.len() {
                    assert(after[j] == before[j]);
                }
            }
        }
        i = i + 1;
    }
    Some(acc)
}

} // verus!
