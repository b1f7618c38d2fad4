//! Text helpers on character sequences: decimal and hexadecimal rendering,
//! trimming trailing NULs and parsing unsigned numbers.
use vstd::prelude::*;

verus! {

/// The decimal digit `d` (below ten) as text.
pub open spec fn digit_text(d: nat) -> Seq<char> {
    if d == 0 {
        "0"@
    } else if d == 1 {
        "1"@
    } else if d == 2 {
        "2"@
    } else if d == 3 {
        "3"@
    } else if d == 4 {
        "4"@
    } else if d == 5 {
        "5"@
    } else if d == 6 {
        "6"@
    } else if d == 7 {
        "7"@
    } else if d == 8 {
        "8"@
    } else {
        "9"@
    }
}

/// The hexadecimal digit `d` (below sixteen) as lower-case text.
pub open spec fn hex_digit_text(d: nat) -> Seq<char> {
    if d < 10 {
        digit_text(d)
    } else if d == 10 {
        "a"@
    } else if d == 11 {
        "b"@
    } else if d == 12 {
        "c"@
    } else if d == 13 {
        "d"@
    } else if d == 14 {
        "e"@
    } else {
        "f"@
    }
}

/// `n` written in decimal, without leading zeros.
pub open spec fn decimal(n: nat) -> Seq<char>
    decreases n,
{
    if n < 10 {
        digit_text(n)
    } else {
        decimal(n / 10) + digit_text(n % 10)
    }
}

/// The byte `b` as exactly two lower-case hexadecimal digits.
pub open spec fn hex_byte(b: u8) -> Seq<char> {
    hex_digit_text(b as nat / 16) + hex_digit_text(b as nat % 16)
}

/// `s` with every trailing NUL character removed.
pub open spec fn trim_trailing_nuls(s: Seq<char>) -> Seq<char>
    decreases s.len(),
{
    if s.len() > 0 && s.last() == '\0' {
        trim_trailing_nuls(s.drop_last())
    } else {
        s
    }
}

/// Whether `c` is a digit in base `radix` (at most ten).
pub open spec fn is_digit(c: char, radix: nat) -> bool {
    '0' <= c && (c as u32) < ('0' as u32) + radix
}

/// The value of the digit character `c`.
pub open spec fn digit_value(c: char) -> nat {
    (c as u32 - '0' as u32) as nat
}

/// Whether every character of `s` is a digit in base `radix`.
pub open spec fn all_digits(s: Seq<char>, radix: nat) -> bool {
    forall|i: int| 0 <= i < s.len() ==> #[trigger] is_digit(s[i], radix)
}

/// The number that the digits `s` spell in base `radix`.
pub open spec fn digits_value(s: Seq<char>, radix: nat) -> nat
    decreases s.len(),
{
    if s.len() == 0 {
        0
    } else {
        digits_value(s.drop_last(), radix) * radix + digit_value(s.last())
    }
}

/// The digits of `s` once one leading `+` is dropped.
pub open spec fn unsigned_body(s: Seq<char>) -> Seq<char> {
    if s.len() > 0 && s[0] == '+' {
        s.drop_first()
    } else {
        s
    }
}

/// Unsigned parse in base `radix`: an optional `+`, then one or more digits
/// whose value is at most `max`; `None` for anything else.
pub open spec fn parse_unsigned_spec(s: Seq<char>, radix: nat, max: nat) -> Option<nat> {
    let body = unsigned_body(s);
    if body.len() > 0 && all_digits(body, radix) && digits_value(body, radix) <= max {
        Some(digits_value(body, radix))
    } else {
        None
    }
}

/// What `String::from_utf8_lossy` makes of the bytes `b`: their UTF-8
/// decoding with malformed sequences replaced.
pub uninterp spec fn lossy_text(b: Seq<u8>) -> Seq<char>;

/// The decimal digit `d` as a string literal.
fn digit_str(d: u64) -> (r: &'static str)
    requires
        d < 10,
    ensures
        r@ == digit_text(d as nat),
{
    if d == 0 {
        "0"
    } else if d == 1 {
        "1"
    } else if d == 2 {
        "2"
    } else if d == 3 {
        "3"
    } else if d == 4 {
        "4"
    } else if d == 5 {
        "5"
    } else if d == 6 {
        "6"
    } else if d == 7 {
        "7"
    } else if d == 8 {
        "8"
    } else {
        "9"
    }
}

/// The hexadecimal digit `d` as a string literal.
pub(crate) fn hex_digit_str(d: u8) -> (r: &'static str)
    requires
        d < 16,
    ensures
        r@ == hex_digit_text(d as nat),
{
    if d < 10 {
        digit_str(d as u64)
    } else if d == 10 {
        "a"
    } else if d == 11 {
        "b"
    } else if d == 12 {
        "c"
    } else if d == 13 {
        "d"
    } else if d == 14 {
        "e"
    } else {
        "f"
    }
}

/// Appends `n` in decimal to `s`.
pub fn push_decimal(s: &mut String, n: u64)
    ensures
        final(s)@ == old(s)@ + decimal(n as nat),
    decreases n,
{
    if n >= 10 {
        push_decimal(s, n / 10);
    }
    s.append(digit_str(n % 10));
}

/// Appends `b` as two lower-case hexadecimal digits to `s`.
pub fn push_hex_byte(s: &mut String, b: u8)
    ensures
        final(s)@ == old(s)@ + hex_byte(b),
{
    s.append(hex_digit_str(b / 16));
    s.append(hex_digit_str(b % 16));
}

proof fn lemma_trim_prefix(s: Seq<char>, k: int)
    requires
        0 < k <= s.len(),
        s[k - 1] == '\0',
    ensures
        trim_trailing_nuls(s.subrange(0, k)) == trim_trailing_nuls(s.subrange(0, k - 1)),
{
    assert(s.subrange(0, k).drop_last() =~= s.subrange(0, k - 1));
}

/// `s` with every trailing NUL character removed.
pub fn trim_nul_end(s: &str) -> (r: String)
    ensures
        r@ == trim_trailing_nuls(s@),
{
    let n = s.unicode_len();
    let mut k: usize = n;
    assert(s@.subrange(0, n as int) =~= s@);
    while k > 0 && s.get_char(k - 1) == '\0'
        invariant
            n == s@.len(),
            k <= n,
            trim_trailing_nuls(s@.subrange(0, k as int)) == trim_trailing_nuls(s@),
        decreases k,
    {
        proof {
            lemma_trim_prefix(s@, k as int);
        }
        k = k - 1;
    }
    let kept = s.substring_char(0, k);
    kept.to_owned()
}

proof fn lemma_digits_value_prefix_grows(s: Seq<char>, radix: nat, j: int, k: int)
    requires
        radix >= 1,
        0 <= j <= k <= s.len(),
        all_digits(s, radix),
    ensures
        digits_value(s.subrange(0, j), radix) <= digits_value(s.subrange(0, k), radix),
    decreases k - j,
{
    if j < k {
        lemma_digits_value_prefix_grows(s, radix, j, k - 1);
        let p = s.subrange(0, k);
        assert(p.drop_last() =~= s.subrange(0, k - 1));
        let v = digits_value(s.subrange(0, k - 1), radix);
        assert(v * radix >= v) by (nonlinear_arith)
            requires
                radix >= 1,
        ;
    }
}

/// Parses `s` as an unsigned number in base `radix` (two to ten) that must
/// not exceed `max`: an optional `+`, then one or more digits.
pub fn parse_unsigned(s: &str, radix: u64, max: u64) -> (r: Option<u64>)
    requires
        2 <= radix <= 10,
    ensures
        r matches Some(v) ==> parse_unsigned_spec(s@, radix as nat, max as nat) == Some(v as nat),
        r is None ==> parse_unsigned_spec(s@, radix as nat, max as nat) is None,
{
    let n = s.unicode_len();
    let start: usize = if n > 0 && s.get_char(0) == '+' {
        1
    } else {
        0
    };
    let ghost body = unsigned_body(s@);
    assert(body =~= s@.subrange(start as int, n as int));
    if start == n {
        return None;
    }
    let mut value: u64 = 0;
    let mut i: usize = start;
    while i < n
        invariant
            n == s@.len(),
            start <= i <= n,
            body == s@.subrange(start as int, n as int),
            body == unsigned_body(s@),
            2 <= radix <= 10,
            all_digits(body.subrange(0, i - start), radix as nat),
            value as nat == digits_value(body.subrange(0, i - start), radix as nat),
            value <= max,
        decreases n - i,
    {
        let c = s.get_char(i);
        let ghost pre = body.subrange(0, i - start);
        let ghost next = body.subrange(0, i + 1 - start);
        assert(next.drop_last() =~= pre);
        assert(next.last() == c);
        if !('0' <= c && (c as u32) < ('0' as u32) + (radix as u32)) {
            assert(!all_digits(body, radix as nat)) by {
                assert(body[i - start] == c);
                assert(!is_digit(body[i - start], radix as nat));
            }
            return None;
        }
        let d = (c as u32 - '0' as u32) as u64;
        assert(all_digits(next, radix as nat)) by {
            assert forall|j: int| 0 <= j < next.len() implies #[trigger] is_digit(
                next[j],
                radix as nat,
            ) by {
                if j < pre.len() {
                    assert(next[j] == pre[j]);
                }
            }
        }
        let grown = match value.checked_mul(radix) {
            Some(m) => m.checked_add(d),
            None => None,
        };
        match grown {
            Some(v) if v <= max => {
                value = v;
            },
            _ => {
                proof {
                    if all_digits(body, radix as nat) {
                        lemma_digits_value_prefix_grows(
                            body,
                            radix as nat,
                            i + 1 - start,
                            body.len() as int,
                        );
                        assert(body.subrange(0, body.len() as int) =~= body);
                    }
                }
                return None;
            },
        }
        i = i + 1;
    }
    assert(body.subrange(0, n - start) =~= body);
    Some(value)
}

/// Relies on `String::from_utf8_lossy` to decode `data[start..end]`,
/// replacing malformed sequences.
#[verifier::external_body]
pub(crate) fn lossy_string(data: &[u8], start: usize, end: usize) -> (r: String)
    requires
        start <= end <= data@.len(),
    ensures
        r@ == lossy_text(data@.subrange(start as int, end as int)),
{
    String::from_utf8_lossy(&data[start..end]).into_owned()
}

} // verus!
