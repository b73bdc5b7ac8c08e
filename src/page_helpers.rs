//! Fixed-width table cells.
use ellipse::Ellipse;
use vstd::prelude::*;
use vstd::string::{StrSliceExecFns, StringExecFns};
use vstd::utf8::encode_utf8;

verus! {

/// What `Ellipse::truncate_ellipse` makes of a text: at most `len` grapheme
/// clusters of it, followed by "..." when some were cut.
pub uninterp spec fn ellipsized(text: Seq<char>, len: usize) -> Seq<char>;

/// Relies on the `ellipse` crate's `Ellipse::truncate_ellipse` for `&str`,
/// whose result depends on the text and the length alone.
#[verifier::external_body]
fn truncate_ellipse(text: &str, len: usize) -> (r: String)
    ensures
        r@ == ellipsized(text@, len),
{
    text.truncate_ellipse(len).into_owned()
}

/// The length of a text in UTF-8 bytes, as `str::len` reports it.
pub open spec fn byte_len(text: Seq<char>) -> usize {
    encode_utf8(text).len() as usize
}

/// `text` followed by as many spaces as it takes to reach `width` characters.
pub open spec fn padded(text: Seq<char>, width: nat) -> Seq<char> {
    if text.len() < width {
        text + Seq::new((width - text.len()) as nat, |i: int| ' ')
    } else {
        text
    }
}

/// The cell that shows `text` in a column of `width`: the text itself when
/// its byte length is exactly `width`, padded with spaces when shorter, and
/// cut with an ellipsis when longer (just dots when `width` leaves no room
/// for any text).
pub open spec fn column(text: Seq<char>, width: usize) -> Seq<char> {
    let n = byte_len(text);
    if n == width {
        text
    } else if n > width {
        if width == 0 {
            Seq::empty()
        } else if width == 1 {
            "."@
        } else if width == 2 {
            ".."@
        } else if width == 3 {
            "..."@
        } else {
            ellipsized(text, (width - 3) as usize)
        }
    } else {
        padded(text, width as nat)
    }
}

/// Pads `text` with spaces up to `width` characters.
pub fn pad_to(text: &str, width: usize) -> (r: String)
    ensures
        r@ == padded(text@, width as nat),
{
    let mut r = text.to_owned();
    let n = text.unicode_len();
    if n < width {
        let mut k: usize = n;
        while k < width
            invariant
                n <= k <= width,
                n == text@.len(),
                r@ == text@ + Seq::new((k - n) as nat, |i: int| ' '),
            decreases width - k,
        {
            r.append(" ");
            proof {
                reveal_strlit(" ");
                assert(r@ =~= text@ + Seq::new((k + 1 - n) as nat, |i: int| ' '));
            }
            k = k + 1;
        }
    }
    r
}

/// Fits `text` into a column of `width`, see `column`.
pub fn get_column_string(text: &str, width: usize) -> (r: String)
    ensures
        r@ == column(text@, width),
{
    let text_len = text.len();
    if text_len == width {
        text.to_owned()
    } else if text_len > width {
        if width == 0 {
            String::new()
        } else if width == 1 {
            ".".to_owned()
        } else if width == 2 {
            "..".to_owned()
        } else if width == 3 {
            "...".to_owned()
        } else {
            truncate_ellipse(text, width - 3)
        }
    } else {
        pad_to(text, width)
    }
}

/// `column` padded again to `width` characters, as a table cell is printed.
pub open spec fn cell(text: Seq<char>, width: usize) -> Seq<char> {
    padded(column(text, width), width as nat)
}

/// Builds the cell for `text` in a column of `width`.
pub fn make_cell(text: &str, width: usize) -> (r: String)
    ensures
        r@ == cell(text@, width),
{
    let c = get_column_string(text, width);
    pad_to(c.as_str(), width)
}

/// The text of one decimal digit.
pub open spec fn digit_text(d: nat) -> Seq<char> {
    if d == 0 {
        "0"@
    } else if d == 1 {
        "1"@
    } else if d == 2 {
        "2"@
    } else if d == 3 {
        "3"@
    } else if d == 4 {
        "4"@
    } else if d == 5 {
        "5"@
    } else if d == 6 {
        "6"@
    } else if d == 7 {
        "7"@
    } else if d == 8 {
        "8"@
    } else {
        "9"@
    }
}

/// The decimal text of `n`, without sign or leading zeros.
pub open spec fn decimal_text(n: nat) -> Seq<char>
    decreases n,
{
    if n < 10 {
        digit_text(n)
    } else {
        decimal_text(n / 10) + digit_text(n % 10)
    }
}

fn digit_str(d: u32) -> (r: &'static str)
    requires
        d < 10,
    ensures
        r@ == digit_text(d as nat),
{
    if d == 0 {
        "0"
    } else if d == 1 {
        "1"
    } else if d == 2 {
        "2"
    } else if d == 3 {
        "3"
    } else if d == 4 {
        "4"
    } else if d == 5 {
        "5"
    } else if d == 6 {
        "6"
    } else if d == 7 {
        "7"
    } else if d == 8 {
        "8"
    } else {
        "9"
    }
}

/// Writes `n` in decimal.
pub fn decimal_string(n: u32) -> (r: String)
    ensures
        r@ == decimal_text(n as nat),
    decreases n,
{
    if n < 10 {
        digit_str(n).to_owned()
    } else {
        let mut r = decimal_string(n / 10);
        r.append(digit_str(n % 10));
        r
    }
}

} // verus!
