use vstd::prelude::*;

verus! {

/// The character of the decimal digit `d`.
pub open spec fn digit_char(d: nat) -> char {
    ((48 + d) as u8) as char
}

/// The decimal digits of `n`, most significant first, without leading zeros.
pub open spec fn decimal(n: nat) -> Seq<char>
    decreases n,
{
    if n < 10 {
        seq![digit_char(n)]
    } else {
        decimal(n / 10).push(digit_char(n % 10))
    }
}

/// The name of signal `i` of a group: the group's letter, an underscore and
/// the index in decimal.
pub open spec fn label(group: char, i: nat) -> Seq<char> {
    seq![group, '_'] + decimal(i)
}

/// The parts written one after the other with a comma between neighbours.
pub open spec fn comma_joined(parts: Seq<Seq<char>>) -> Seq<char>
    decreases parts.len(),
{
    if parts.len() == 0 {
        Seq::empty()
    } else if parts.len() == 1 {
        parts[0]
    } else {
        comma_joined(parts.drop_last()) + seq![','] + parts.last()
    }
}

/// The view of every string of `parts`.
pub open spec fn views_of(parts: Seq<String>) -> Seq<Seq<char>> {
    Seq::new(parts.len(), |i: int| parts[i]@)
}

/// The strings of `parts` joined by commas, through std's `join` on a slice
/// of strings, which writes the items in order with the separator between
/// each two and nothing before the first or after the last.
#[verifier::external_body]
pub(crate) fn join_with_commas(parts: &Vec<String>) -> (r: String)
    ensures
        r@ == comma_joined(views_of(parts@)),
{
    parts.join(",")
}

/// The text `group`, `_`, and `i` in decimal, made by std's formatting of a
/// `char` and a `usize`, which writes an unsigned integer in decimal digits
/// without sign, padding or leading zeros.
#[verifier::external_body]
pub(crate) fn indexed_name(group: char, i: usize) -> (r: String)
    ensures
        r@ == label(group, i as nat),
{
    format!("{}_{}", group, i)
}

/// The decimal form of the integer `v`: a minus sign for a negative one, then
/// the digits of its magnitude.
pub open spec fn signed_decimal(v: int) -> Seq<char> {
    if v < 0 {
        seq!['-'] + decimal((-v) as nat)
    } else {
        decimal(v as nat)
    }
}

/// The text `s` behind as many spaces as bring it to `width` characters, or
/// `s` itself where it is that long already.
pub open spec fn right_aligned(s: Seq<char>, width: nat) -> Seq<char> {
    if s.len() >= width {
        s
    } else {
        Seq::new((width - s.len()) as nat, |i: int| ' ') + s
    }
}

/// The decimal form of `v`, made by std's formatting of an `i64`, which
/// writes a minus sign for a negative number and then the decimal digits of
/// the magnitude without padding or leading zeros.
#[verifier::external_body]
pub(crate) fn integer_text(v: i64) -> (r: String)
    ensures
        r@ == signed_decimal(v as int),
{
    format!("{}", v)
}

/// The decimal form of `v` right-aligned in fifteen columns, made by std's
/// formatting of an `i64` with the alignment `>` and the width 15, which
/// fills with spaces on the left and never cuts the number short.
#[verifier::external_body]
pub(crate) fn integer_cell(v: i64) -> (r: String)
    ensures
        r@ == right_aligned(signed_decimal(v as int), 15),
{
    format!("{:>15}", v)
}

/// The heading of a matrix in a description: `Matrix`, its letter, and its
/// size as `(rows x cols)`, followed by a colon, a space and a line break.
pub open spec fn heading(letter: char, rows: nat, cols: nat) -> Seq<char> {
    seq!['M', 'a', 't', 'r', 'i', 'x', ' ', letter, ' ', '('] + decimal(rows) + seq![' ', 'x', ' ']
        + decimal(cols) + seq![')', ':', ' ', '\n']
}

/// The heading of a matrix, made by std's formatting of a `char` and two
/// `usize`, which writes an unsigned integer in decimal digits without sign,
/// padding or leading zeros.
#[verifier::external_body]
pub(crate) fn matrix_heading(letter: char, rows: usize, cols: usize) -> (r: String)
    ensures
        r@ == heading(letter, rows as nat, cols as nat),
{
    format!("Matrix {} ({} x {}): \n", letter, rows, cols)
}

/// The parts written one after the other.
pub open spec fn spliced(parts: Seq<Seq<char>>) -> Seq<char>
    decreases parts.len(),
{
    if parts.len() == 0 {
        Seq::empty()
    } else {
        spliced(parts.drop_last()) + parts.last()
    }
}

/// The strings of `parts` written one after the other, through std's
/// `concat` on a slice of strings, which adds nothing between or around them.
#[verifier::external_body]
pub(crate) fn concat_all(parts: &Vec<String>) -> (r: String)
    ensures
        r@ == spliced(views_of(parts@)),
{
    parts.concat()
}

} // verus!
