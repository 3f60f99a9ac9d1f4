use vstd::prelude::*;
use crossterm::style::Stylize;

verus! {

/// `n` spaces.
pub open spec fn spaces(n: nat) -> Seq<char> {
    Seq::new(n, |i: int| ' ')
}

/// The character of a decimal digit.
pub open spec fn digit_char(d: nat) -> char {
    if d == 0 {
        '0'
    } else if d == 1 {
        '1'
    } else if d == 2 {
        '2'
    } else if d == 3 {
        '3'
    } else if d == 4 {
        '4'
    } else if d == 5 {
        '5'
    } else if d == 6 {
        '6'
    } else if d == 7 {
        '7'
    } else if d == 8 {
        '8'
    } else {
        '9'
    }
}

/// The decimal notation of `n`, most significant digit first.
pub open spec fn decimal(n: nat) -> Seq<char>
    decreases n,
{
    if n < 10 {
        seq![digit_char(n)]
    } else {
        decimal(n / 10).push(digit_char(n % 10))
    }
}

/// The character at index `i` of `s`, or a space past its end.
pub open spec fn char_or_space(s: Seq<char>, i: int) -> char {
    if 0 <= i < s.len() {
        s[i]
    } else {
        ' '
    }
}

fn digit_to_char(d: u64) -> (r: char)
    requires
        d < 10,
    ensures
        r == digit_char(d as nat),
{
    match d {
        0 => '0',
        1 => '1',
        2 => '2',
        3 => '3',
        4 => '4',
        5 => '5',
        6 => '6',
        7 => '7',
        8 => '8',
        _ => '9',
    }
}

/// The decimal notation of `n`.
pub fn decimal_chars(n: u64) -> (r: Vec<char>)
    ensures
        r@ == decimal(n as nat),
    decreases n,
{
    if n < 10 {
        vec![digit_to_char(n)]
    } else {
        let mut v = decimal_chars(n / 10);
        v.push(digit_to_char(n % 10));
        v
    }
}

/// The digit at position `digit` of the decimal notation of `number`,
/// counted from the left, or a space when the number is shorter.
pub fn number_digit(number: u64, digit: usize) -> (r: char)
    ensures
        r == char_or_space(decimal(number as nat), digit as int),
{
    let s = decimal_chars(number);
    if digit < s.len() {
        s[digit]
    } else {
        ' '
    }
}

/// The block glyphs of the ten digits, six rows of seven columns each. Row
/// `r` of digit `d` is entry `6 * d + r`; bit 6 is the leftmost column.
pub open spec fn glyph_table() -> Seq<u8> {
    seq![
        127, 99, 99, 99, 127, 0,
        12, 28, 12, 12, 30, 0,
        127, 3, 127, 96, 127, 0,
        127, 3, 63, 3, 127, 0,
        99, 99, 127, 3, 3, 0,
        127, 96, 127, 3, 127, 0,
        127, 96, 127, 99, 127, 0,
        127, 3, 3, 3, 3, 0,
        127, 99, 127, 99, 127, 0,
        127, 99, 127, 3, 127, 0,
    ]
}

/// The weight of column `col` (0 to 6) in a glyph row.
pub open spec fn column_weight(col: nat) -> nat {
    if col == 0 {
        64
    } else if col == 1 {
        32
    } else if col == 2 {
        16
    } else if col == 3 {
        8
    } else if col == 4 {
        4
    } else if col == 5 {
        2
    } else {
        1
    }
}

/// The character at column `col` of row `row` of the glyph of digit `d`.
pub open spec fn glyph_cell(d: nat, row: nat, col: nat) -> char {
    if (glyph_table()[(6 * d + row) as int] as nat / column_weight(col)) % 2 == 1 {
        '█'
    } else {
        ' '
    }
}

/// A two-digit number in block glyphs: the tens digit in columns 0 to 6, a
/// blank column, the units digit in columns 8 to 14.
pub open spec fn block_cell(n: nat, x: nat, y: nat) -> Option<char> {
    if y > 5 {
        None
    } else if x <= 6 {
        Some(glyph_cell(n / 10, y, x))
    } else if x == 7 {
        Some(' ')
    } else if x <= 14 {
        Some(glyph_cell(n % 10, y, (x - 8) as nat))
    } else {
        None
    }
}

fn column_weight_of(col: u16) -> (r: u8)
    requires
        col <= 6,
    ensures
        r as nat == column_weight(col as nat),
{
    match col {
        0 => 64,
        1 => 32,
        2 => 16,
        3 => 8,
        4 => 4,
        5 => 2,
        _ => 1,
    }
}

fn glyph_char(d: u8, row: u16, col: u16) -> (r: char)
    requires
        d < 10,
        row <= 5,
        col <= 6,
    ensures
        r == glyph_cell(d as nat, row as nat, col as nat),
{
    let table: Vec<u8> = vec![
        127, 99, 99, 99, 127, 0,
        12, 28, 12, 12, 30, 0,
        127, 3, 127, 96, 127, 0,
        127, 3, 63, 3, 127, 0,
        99, 99, 127, 3, 3, 0,
        127, 96, 127, 3, 127, 0,
        127, 96, 127, 99, 127, 0,
        127, 3, 3, 3, 3, 0,
        127, 99, 127, 99, 127, 0,
        127, 99, 127, 3, 127, 0,
    ];
    assert(table@ =~= glyph_table());
    let mask = table[6 * (d as usize) + (row as usize)];
    if (mask / column_weight_of(col)) % 2 == 1 {
        '█'
    } else {
        ' '
    }
}

/// The character at column `x` of row `y` of the block glyphs of `n`, or
/// `None` past the end of the row or below the glyphs.
pub fn block_number_string(n: u8, x: u16, y: u16) -> (r: Option<char>)
    requires
        n < 100,
    ensures
        r == block_cell(n as nat, x as nat, y as nat),
{
    if y > 5 {
        return None;
    }
    if x <= 6 {
        Some(glyph_char(n / 10, y, x))
    } else if x == 7 {
        Some(' ')
    } else if x <= 14 {
        Some(glyph_char(n % 10, y, x - 8))
    } else {
        None
    }
}

/// The escape sequence that selects foreground colour `code` of the
/// 256-colour palette.
pub open spec fn set_foreground(code: Seq<char>) -> Seq<char> {
    seq!['\u{1b}', '[', '3', '8', ';', '5', ';'] + code + seq!['m']
}

/// The escape sequence that restores the default foreground colour.
pub open spec fn reset_foreground() -> Seq<char> {
    seq!['\u{1b}', '[', '3', '9', 'm']
}

/// `t` in green (palette colour 10).
pub open spec fn green_styled(t: Seq<char>) -> Seq<char> {
    set_foreground(seq!['1', '0']) + t + reset_foreground()
}

/// `t` in red (palette colour 9).
pub open spec fn red_styled(t: Seq<char>) -> Seq<char> {
    set_foreground(seq!['9']) + t + reset_foreground()
}

/// Relies on crossterm's `Stylize::green` and the `Display` of the styled
/// content it returns, which on ANSI terminals writes the escape selecting
/// colour 10, the text, and the escape resetting the foreground; on a
/// Windows console without ANSI support it writes nothing.
#[verifier::external_body]
pub(crate) fn green_text(text: &str) -> (r: Vec<char>)
    ensures
        r@ == green_styled(text@) || r@.len() == 0,
{
    text.green().to_string().chars().collect()
}

/// Relies on crossterm's `Stylize::red` and the `Display` of the styled
/// content it returns, which on ANSI terminals writes the escape selecting
/// colour 9, the text, and the escape resetting the foreground; on a
/// Windows console without ANSI support it writes nothing.
#[verifier::external_body]
pub(crate) fn red_text(text: &str) -> (r: Vec<char>)
    ensures
        r@ == red_styled(text@) || r@.len() == 0,
{
    text.red().to_string().chars().collect()
}

/// Relies on std's `FromIterator<char>` for `String`: the string holds the
/// characters in order.
#[verifier::external_body]
pub(crate) fn chars_to_string(v: &Vec<char>) -> (r: String)
    ensures
        r@ == v@,
{
    v.iter().collect()
}

/// Appends the characters of `line` to `buf`.
pub(crate) fn push_seq(buf: &mut Vec<char>, line: &Vec<char>)
    ensures
        final(buf)@ == old(buf)@ + line@,
{
    let mut i: usize = 0;
    while i < line.len()
        invariant
            i <= line.len(),
            buf@ == old(buf)@ + line@.subrange(0, i as int),
        decreases line.len() - i,
    {
        buf.push(line[i]);
        i += 1;
        assert(buf@ =~= old(buf)@ + line@.subrange(0, i as int));
    }
    assert(line@.subrange(0, line.len() as int) =~= line@);
}

} // verus!
