//! Layout of one row of the hex dump: the offset label, the byte cells in
//! groups of eight and the text column.
use vstd::prelude::*;
use crate::text::{
    hex_byte,
    hex_digit_str,
    hex_digit_text,
    lossy_string,
    lossy_text,
    push_hex_byte,
};

verus! {

/// Number of byte cells in one group of the hex column.
pub const GROUP_SIZE: usize = 8;

/// The cell of position `p`: a space and two hex digits when the chunk holds
/// a byte there, three spaces otherwise.
pub open spec fn cell_text(chunk: Seq<u8>, p: int) -> Seq<char> {
    if 0 <= p < chunk.len() {
        " "@ + hex_byte(chunk[p])
    } else {
        "   "@
    }
}

/// The cells of the `n` positions from `from` on.
pub open spec fn cells_text(chunk: Seq<u8>, from: int, n: nat) -> Seq<char>
    decreases n,
{
    if n == 0 {
        Seq::empty()
    } else {
        cells_text(chunk, from, (n - 1) as nat) + cell_text(chunk, from + n - 1)
    }
}

/// The first `g` groups: each is eight cells followed by a space.
pub open spec fn groups_text(chunk: Seq<u8>, g: nat) -> Seq<char>
    decreases g,
{
    if g == 0 {
        Seq::empty()
    } else {
        groups_text(chunk, (g - 1) as nat) + cells_text(chunk, 8 * (g - 1), 8) + " "@
    }
}

/// Number of groups in a row of `width` bytes.
pub open spec fn group_count(width: nat) -> nat {
    (width + 7) / 8
}

/// Whether `c` is a control character (general category Cc).
pub open spec fn is_control_char(c: char) -> bool {
    (c as u32) <= 0x1F || (0x7F <= (c as u32) && (c as u32) <= 0x9F)
}

/// The byte `b` shown as text: itself when printable ASCII, `.` otherwise.
pub open spec fn ascii_shown(b: u8) -> char {
    if 32 <= b <= 126 {
        b as char
    } else {
        '.'
    }
}

/// The ASCII text column of `chunk`.
pub open spec fn ascii_text(chunk: Seq<u8>) -> Seq<char> {
    Seq::new(chunk.len(), |i: int| ascii_shown(chunk[i]))
}

/// `text` with each control character replaced by `.`.
pub open spec fn printable(text: Seq<char>) -> Seq<char> {
    Seq::new(text.len(), |i: int| if is_control_char(text[i]) { '.' } else { text[i] })
}

/// `n` spaces.
pub open spec fn spaces(n: nat) -> Seq<char> {
    Seq::new(n, |i: int| ' ')
}

/// `text` padded with spaces to `width` characters (never cut).
pub open spec fn padded(text: Seq<char>, width: nat) -> Seq<char> {
    if text.len() < width {
        text + spaces((width - text.len()) as nat)
    } else {
        text
    }
}

/// `n` in lower-case hexadecimal, without leading zeros.
pub open spec fn hex_digits(n: nat) -> Seq<char>
    decreases n,
{
    if n < 16 {
        hex_digit_text(n)
    } else {
        hex_digits(n / 16) + hex_digit_text(n % 16)
    }
}

/// `n` in lower-case hexadecimal, zero-padded to at least eight digits.
pub open spec fn offset_text(n: nat) -> Seq<char> {
    let digits = hex_digits(n);
    if digits.len() < 8 {
        Seq::new((8 - digits.len()) as nat, |i: int| '0') + digits
    } else {
        digits
    }
}

/// Relies on `String::push`: appends one character.
#[verifier::external_body]
fn push_char(s: &mut String, c: char)
    ensures
        final(s)@ == old(s)@.push(c),
{
    s.push(c);
}

/// The cells of the `n` positions from `from` on, appended to `s`.
fn push_cells(s: &mut String, chunk: &[u8], from: usize, n: usize)
    ensures
        final(s)@ == old(s)@ + cells_text(chunk@, from as int, n as nat),
{
    let mut k: usize = 0;
    while k < n
        invariant
            k <= n,
            s@ == old(s)@ + cells_text(chunk@, from as int, k as nat),
        decreases n - k,
    {
        if from < chunk.len() && k < chunk.len() - from {
            s.append(" ");
            push_hex_byte(s, chunk[from + k]);
        } else {
            s.append("   ");
        }
        assert(s@ =~= old(s)@ + cells_text(chunk@, from as int, (k + 1) as nat));
        k = k + 1;
    }
}

/// The hex column of one row of `width` bytes: eight cells and a space per
/// group, blank cells past the end of `chunk`.
pub fn hex_cells(chunk: &[u8], width: usize) -> (r: String)
    ensures
        r@ == groups_text(chunk@, group_count(width as nat)),
{
    let groups = width / GROUP_SIZE + if width % GROUP_SIZE != 0 {
        1
    } else {
        0
    };
    assert(groups == group_count(width as nat));
    let mut s = String::new();
    let mut g: usize = 0;
    while g < groups
        invariant
            g <= groups,
            groups == group_count(width as nat),
            s@ == groups_text(chunk@, g as nat),
        decreases groups - g,
    {
        assert(g * 8 <= width) by (nonlinear_arith)
            requires
                g < groups,
                groups == width / 8 + if width % 8 != 0 {
                    1int
                } else {
                    0int
                },
        ;
        push_cells(&mut s, chunk, g * GROUP_SIZE, GROUP_SIZE);
        s.append(" ");
        assert(s@ =~= groups_text(chunk@, (g + 1) as nat));
        g = g + 1;
    }
    s
}

/// The ASCII text column of `chunk`: printable ASCII as is, `.` otherwise.
pub fn ascii_repr(chunk: &[u8]) -> (r: String)
    ensures
        r@ == ascii_text(chunk@),
{
    let mut s = String::new();
    let mut i: usize = 0;
    while i < chunk.len()
        invariant
            i <= chunk@.len(),
            s@ =~= ascii_text(chunk@.subrange(0, i as int)),
        decreases chunk.len() - i,
    {
        let b = chunk[i];
        let c = if 32 <= b && b <= 126 {
            b as char
        } else {
            '.'
        };
        push_char(&mut s, c);
        assert(ascii_text(chunk@.subrange(0, i + 1)) =~= ascii_text(chunk@.subrange(0, i as int)).push(c));
        i = i + 1;
    }
    assert(chunk@.subrange(0, chunk@.len() as int) =~= chunk@);
    s
}

/// `text` with each control character replaced by `.`.
pub fn printable_repr(text: &str) -> (r: String)
    ensures
        r@ == printable(text@),
{
    let n = text.unicode_len();
    let mut s = String::new();
    let mut i: usize = 0;
    while i < n
        invariant
            n == text@.len(),
            i <= n,
            s@ =~= printable(text@.subrange(0, i as int)),
        decreases n - i,
    {
        let c = text.get_char(i);
        let code = c as u32;
        let shown = if code <= 0x1F || (0x7F <= code && code <= 0x9F) {
            '.'
        } else {
            c
        };
        push_char(&mut s, shown);
        assert(printable(text@.subrange(0, i + 1)) =~= printable(text@.subrange(0, i as int)).push(shown));
        i = i + 1;
    }
    assert(text@.subrange(0, n as int) =~= text@);
    s
}

/// `text` padded with spaces to `width` characters.
pub fn pad_to_width(text: String, width: usize) -> (r: String)
    ensures
        r@ == padded(text@, width as nat),
{
    let mut s = text;
    let n = s.as_str().unicode_len();
    let mut k: usize = n;
    while k < width
        invariant
            n <= k,
            n == text@.len(),
            k <= width || k == n,
            s@ =~= text@ + spaces((k - n) as nat),
        decreases width - k,
    {
        push_char(&mut s, ' ');
        assert(spaces((k + 1 - n) as nat) =~= spaces((k - n) as nat).push(' '));
        k = k + 1;
    }
    assert(spaces(0) =~= Seq::<char>::empty());
    s
}

/// The text column of one row: ASCII or leniently decoded UTF-8 with control
/// characters shown as `.`, padded with spaces to `width` characters.
pub fn text_column(chunk: &[u8], width: usize, utf8: bool) -> (r: String)
    ensures
        r@ == padded(
            if utf8 {
                printable(lossy_text(chunk@))
            } else {
                ascii_text(chunk@)
            },
            width as nat,
        ),
{
    let repr = if utf8 {
        let decoded = lossy_string(chunk, 0, chunk.len());
        assert(chunk@.subrange(0, chunk@.len() as int) =~= chunk@);
        printable_repr(decoded.as_str())
    } else {
        ascii_repr(chunk)
    };
    pad_to_width(repr, width)
}

/// Appends `n` in lower-case hexadecimal to `s`.
fn push_hex(s: &mut String, n: u64)
    ensures
        final(s)@ == old(s)@ + hex_digits(n as nat),
    decreases n,
{
    if n >= 16 {
        push_hex(s, n / 16);
    }
    s.append(hex_digit_str((n % 16) as u8));
}

/// The offset label of a row: `offset` in lower-case hexadecimal, zero-padded
/// to at least eight digits.
pub fn offset_label(offset: u64) -> (r: String)
    ensures
        r@ == offset_text(offset as nat),
{
    let mut digits = String::new();
    push_hex(&mut digits, offset);
    let n = digits.as_str().unicode_len();
    let mut s = String::new();
    let mut k: usize = n;
    while k < 8
        invariant
            n <= k,
            n == hex_digits(offset as nat).len(),
            k <= 8 || k == n,
            s@ =~= Seq::new((k - n) as nat, |i: int| '0'),
        decreases 8 - k,
    {
        push_char(&mut s, '0');
        k = k + 1;
    }
    s.append(digits.as_str());
    s
}

} // verus!
