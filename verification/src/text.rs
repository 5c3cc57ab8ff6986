//! The formatting policy of the widgets: padding, centering and truncation of
//! the text runs that are drawn. Lengths count characters.

use vstd::prelude::*;
use vstd::string::*;

verus! {

/// `String::push` appends the given character to the end of the string.
pub assume_specification[ String::push ](s: &mut String, ch: char)
    ensures
        final(s)@ == old(s)@.push(ch),
;

/// `n` copies of `c`; nothing when `n` is not positive.
pub open spec fn repeat(c: char, n: int) -> Seq<char> {
    Seq::new(
        if n > 0 {
            n as nat
        } else {
            0
        },
        |i: int| c,
    )
}

/// The number of fill characters that bring a text of `len` characters to
/// `width`: none when the text is already that wide.
pub open spec fn gap(len: int, width: int) -> int {
    if width > len {
        width - len
    } else {
        0
    }
}

/// `s` followed by as many spaces as bring it to `width` characters. A longer
/// text is left as it is.
pub open spec fn left_justified(s: Seq<char>, width: int) -> Seq<char> {
    s + repeat(' ', gap(s.len() as int, width))
}

/// `s` with `fill` on both sides so that it is `width` characters long. When
/// the fill cannot be split evenly the extra character goes to the right. A
/// longer text is left as it is.
pub open spec fn centered(s: Seq<char>, width: int, fill: char) -> Seq<char> {
    let g = gap(s.len() as int, width);
    repeat(fill, g / 2) + s + repeat(fill, g - g / 2)
}

/// The three dots that end a truncated text.
pub open spec fn ellipsis() -> Seq<char> {
    seq!['.', '.', '.']
}

/// The number of characters of a title that survive truncation in a field of
/// `width` characters: seven cells are taken by `= `, `...` and ` =`.
pub open spec fn kept_chars(width: int) -> int {
    if width > 7 {
        width - 7
    } else {
        0
    }
}

/// `s` itself when it is at most `width` characters long; otherwise its first
/// `kept_chars(width)` characters followed by three dots.
pub open spec fn ellipsized(s: Seq<char>, width: int) -> Seq<char> {
    if s.len() > width {
        s.take(kept_chars(width)) + ellipsis()
    } else {
        s
    }
}

/// The text of a title in a panel whose interior is `width` cells wide: the
/// (possibly truncated) title between two spaces, centered with `=`.
pub open spec fn title_text(title: Seq<char>, width: int) -> Seq<char> {
    centered(seq![' '] + ellipsized(title, width) + seq![' '], width, '=')
}

/// The label part of an input field: the label followed by `": "`.
pub open spec fn input_label_text(label: Seq<char>) -> Seq<char> {
    label + seq![':', ' ']
}

/// The least number of cells of an input's value: the requested width, but
/// never less than one more than the label's length.
pub open spec fn input_field_width(label_len: int, requested: Option<usize>) -> int {
    let least = label_len + 1;
    match requested {
        Some(w) => if w > least {
            w as int
        } else {
            least
        },
        None => least,
    }
}

/// The value part of an input field: the value, left-justified in its field.
pub open spec fn input_value_text(
    label: Seq<char>,
    value: Seq<char>,
    requested: Option<usize>,
) -> Seq<char> {
    left_justified(value, input_field_width(label.len() as int, requested))
}

/// The width of the field in which a button's label is centered: the
/// requested one, or by default two more than the label's length.
pub open spec fn button_field_width(label_len: int, requested: Option<usize>) -> int {
    match requested {
        Some(w) => w as int,
        None => label_len + 2,
    }
}

/// The text of a button: the label centered with spaces, between brackets.
pub open spec fn button_text(label: Seq<char>, requested: Option<usize>) -> Seq<char> {
    seq!['['] + centered(label, button_field_width(label.len() as int, requested), ' ') + seq![
        ']',
    ]
}

/// The character of a decimal digit.
pub open spec fn digit_char(d: int) -> char
    recommends
        0 <= d < 10,
{
    (48 + d) as u8 as char
}

/// The decimal numeral of `n`, without leading zeros.
pub open spec fn decimal(n: nat) -> Seq<char>
    decreases n,
{
    if n < 10 {
        seq![digit_char(n as int)]
    } else {
        decimal(n / 10).push(digit_char((n % 10) as int))
    }
}

/// The hint under the `index`-th action column (counted from zero): its
/// one-based number, centered in the column.
pub open spec fn hint_text(index: int, column_width: int) -> Seq<char> {
    centered(decimal((index + 1) as nat), column_width, ' ')
}

/// A title that is longer than the interior is cut down: what is left of
/// it ends with three dots, and the drawn text is exactly as wide as the
/// interior, unless the interior is narrower than the five cells that the
/// dots and the two spaces take. In an interior of seven cells or more the
/// drawn text is `= `, the first `width - 7` characters of the title,
/// `...` and ` =`.
pub proof fn lemma_long_title_fills_width(title: Seq<char>, width: int)
    requires
        title.len() > width,
    ensures
        ellipsized(title, width).len() >= 3,
        ellipsized(title, width).skip(ellipsized(title, width).len() - 3) == ellipsis(),
        title_text(title, width).len() == if width >= 5 {
            width
        } else {
            5
        },
        width >= 7 ==> title_text(title, width) == seq!['=', ' '] + title.take(width - 7)
            + ellipsis() + seq![' ', '='],
{
}

/// The length of a drawn title: that of the title between its two spaces,
/// after truncation, or the width of the interior if that is more.
pub proof fn lemma_title_len(title: Seq<char>, width: int)
    ensures
        title_text(title, width).len() == {
            let inner = if title.len() > width {
                kept_chars(width) + 5
            } else {
                (title.len() + 2) as int
            };
            if width > inner {
                width
            } else {
                inner
            }
        },
{
}

/// The length of a drawn button: the two brackets and between them the
/// field, or the label if that is longer.
pub proof fn lemma_button_len(label: Seq<char>, requested: Option<usize>)
    ensures
        button_text(label, requested).len() == 2 + if button_field_width(
            label.len() as int,
            requested,
        ) > label.len() {
            button_field_width(label.len() as int, requested)
        } else {
            label.len() as int
        },
{
}

/// A title that fits is drawn whole.
pub proof fn lemma_short_title_kept(title: Seq<char>, width: int)
    requires
        title.len() <= width,
    ensures
        ellipsized(title, width) == title,
        title_text(title, width).len() >= width,
{
}

/// The value of an input starts with the value itself, goes on with spaces
/// only, and is at least as long as its field.
pub proof fn lemma_input_value_padded(
    label: Seq<char>,
    value: Seq<char>,
    requested: Option<usize>,
)
    ensures
        input_value_text(label, value, requested).len() >= label.len() + 1,
        requested is Some ==> input_value_text(label, value, requested).len()
            >= requested->0,
        input_value_text(label, value, requested).len() == if value.len() > input_field_width(
            label.len() as int,
            requested,
        ) {
            value.len() as int
        } else {
            input_field_width(label.len() as int, requested)
        },
        input_value_text(label, value, requested).take(value.len() as int) == value,
        forall|i: int|
            value.len() <= i < input_value_text(label, value, requested).len()
                ==> input_value_text(label, value, requested)[i] == ' ',
        input_label_text(label).take(label.len() as int) == label,
        input_label_text(label).skip(label.len() as int) == seq![':', ' '],
{
}

/// Appends `n` copies of `c` to `out`.
fn push_repeated(out: &mut String, c: char, n: usize)
    ensures
        final(out)@ == old(out)@ + repeat(c, n as int),
{
    let ghost before = out@;
    let mut i: usize = 0;
    while i < n
        invariant
            i <= n,
            out@ == before + repeat(c, i as int),
        decreases n - i,
    {
        out.push(c);
        i = i + 1;
    }
}

/// Left-justifies `s` in a field of `width` characters.
pub fn left_justify(s: &str, width: usize) -> (out: String)
    ensures
        out@ == left_justified(s@, width as int),
{
    let len = s.unicode_len();
    let mut out = s.to_owned();
    if width > len {
        push_repeated(&mut out, ' ', width - len);
    }
    out
}

/// Centers `s` in a field of `width` characters, filling with `fill`.
pub fn center(s: &str, width: usize, fill: char) -> (out: String)
    ensures
        out@ == centered(s@, width as int, fill),
{
    let len = s.unicode_len();
    let g = if width > len {
        width - len
    } else {
        0
    };
    let left = g / 2;
    let mut out = String::new();
    push_repeated(&mut out, fill, left);
    out.append(s);
    push_repeated(&mut out, fill, g - left);
    out
}

/// Cuts `s` down when it is longer than `width` characters, marking the cut
/// with three dots.
pub fn ellipsize(s: &str, width: usize) -> (out: String)
    ensures
        out@ == ellipsized(s@, width as int),
{
    let len = s.unicode_len();
    if len > width {
        let keep = if width > 7 {
            width - 7
        } else {
            0
        };
        let mut out = s.substring_char(0, keep).to_owned();
        proof {
            reveal_strlit("...");
        }
        out.append("...");
        out
    } else {
        s.to_owned()
    }
}

/// Formats a title for a panel whose interior is `width` cells wide.
pub fn title(text: &str, width: usize) -> (out: String)
    ensures
        out@ == title_text(text@, width as int),
{
    let cut = ellipsize(text, width);
    let mut inner = String::new();
    inner.push(' ');
    inner.append(cut.as_str());
    inner.push(' ');
    center(inner.as_str(), width, '=')
}

/// Formats the label part of an input field.
pub fn input_label(label: &str) -> (out: String)
    ensures
        out@ == input_label_text(label@),
{
    let mut out = label.to_owned();
    out.push(':');
    out.push(' ');
    out
}

/// Formats the value part of an input field.
pub fn input_value(label: &str, value: &str, width: Option<usize>) -> (out: String)
    requires
        label@.len() < usize::MAX,
    ensures
        out@ == input_value_text(label@, value@, width),
{
    let least = label.unicode_len() + 1;
    let field = match width {
        Some(w) => if w > least {
            w
        } else {
            least
        },
        None => least,
    };
    left_justify(value, field)
}

/// Formats a button.
pub fn button(label: &str, size: Option<usize>) -> (out: String)
    requires
        size is None ==> label@.len() + 2 <= usize::MAX,
    ensures
        out@ == button_text(label@, size),
{
    let field = match size {
        Some(w) => w,
        None => label.unicode_len() + 2,
    };
    let mid = center(label, field, ' ');
    let mut out = String::new();
    out.push('[');
    out.append(mid.as_str());
    out.push(']');
    out
}

/// The character of the decimal digit `d`.
fn digit(d: u8) -> (c: char)
    requires
        d < 10,
    ensures
        c == digit_char(d as int),
{
    (48 + d) as char
}

/// Writes `n` as a decimal numeral.
pub fn to_decimal(n: usize) -> (out: String)
    ensures
        out@ == decimal(n as nat),
    decreases n,
{
    if n < 10 {
        let mut out = String::new();
        out.push(digit(n as u8));
        out
    } else {
        let mut out = to_decimal(n / 10);
        out.push(digit((n % 10) as u8));
        out
    }
}

/// Formats the hint under the `index`-th action column.
pub fn hint(index: usize, column_width: usize) -> (out: String)
    requires
        index < usize::MAX,
    ensures
        out@ == hint_text(index as int, column_width as int),
{
    let number = to_decimal(index + 1);
    center(number.as_str(), column_width, ' ')
}

} // verus!
