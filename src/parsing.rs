//! Parsing of the minimap scale `ROWSxCOLS`.
use vstd::prelude::*;
use crate::text::{parse_unsigned, parse_unsigned_spec};

verus! {

/// `s` holds an `x` at `k` and nowhere else.
pub open spec fn sole_x_at(s: Seq<char>, k: int) -> bool {
    0 <= k < s.len() && s[k] == 'x' && forall|j: int|
        0 <= j < s.len() && j != k ==> #[trigger] s[j] != 'x'
}

/// The scale that `s` denotes: exactly one `x`, a decimal `usize` on each side
/// of it, both positive.
pub open spec fn scale_spec(s: Seq<char>) -> Option<(nat, nat)> {
    if exists|k: int| sole_x_at(s, k) {
        let k = choose|k: int| sole_x_at(s, k);
        let rows = parse_unsigned_spec(s.subrange(0, k), 10, usize::MAX as nat);
        let cols = parse_unsigned_spec(s.subrange(k + 1, s.len() as int), 10, usize::MAX as nat);
        match (rows, cols) {
            (Some(r), Some(c)) => if r > 0 && c > 0 {
                Some((r, c))
            } else {
                None
            },
            _ => None,
        }
    } else {
        None
    }
}

/// Parses a scale written `ROWSxCOLS` (for example `8x12`).
///
/// Returns `None` unless the text holds exactly one `x` between two positive
/// decimal numbers.
pub fn parse_scale(scale: &str) -> (r: Option<(usize, usize)>)
    ensures
        r matches Some(p) ==> scale_spec(scale@) == Some((p.0 as nat, p.1 as nat)),
        r is None ==> scale_spec(scale@) is None,
{
    let n = scale.unicode_len();
    let mut count: usize = 0;
    let mut first: usize = 0;
    let mut second: usize = 0;
    let mut i: usize = 0;
    while i < n
        invariant
            n == scale@.len(),
            i <= n,
            count <= 2,
            count == 0 ==> forall|j: int| 0 <= j < i ==> #[trigger] scale@[j] != 'x',
            count == 1 ==> first < i && scale@[first as int] == 'x' && forall|j: int|
                0 <= j < i && j != first ==> #[trigger] scale@[j] != 'x',
            count == 2 ==> first < second < n && scale@[first as int] == 'x'
                && scale@[second as int] == 'x',
        decreases n - i,
    {
        if count < 2 && scale.get_char(i) == 'x' {
            if count == 0 {
                first = i;
            } else {
                second = i;
            }
            count = count + 1;
        }
        i = i + 1;
    }
    if count != 1 {
        assert(!exists|k: int| sole_x_at(scale@, k)) by {
            if count == 2 {
                assert forall|k: int| !sole_x_at(scale@, k) by {
                    if k != first as int {
                        assert(scale@[first as int] == 'x');
                    } else {
                        assert(scale@[second as int] == 'x');
                    }
                }
            }
        }
        return None;
    }
    assert(sole_x_at(scale@, first as int));
    let ghost k = choose|k: int| sole_x_at(scale@, k);
    assert(k == first as int) by {
        if k != first as int {
            assert(scale@[first as int] == 'x');
        }
    }
    let rows = parse_unsigned(scale.substring_char(0, first), 10, usize::MAX as u64);
    let cols = parse_unsigned(scale.substring_char(first + 1, n), 10, usize::MAX as u64);
    match (rows, cols) {
        (Some(r), Some(c)) => {
            if r > 0 && c > 0 {
                Some((r as usize, c as usize))
            } else {
                None
            }
        },
        _ => None,
    }
}

} // verus!
