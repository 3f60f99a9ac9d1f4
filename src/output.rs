use vstd::prelude::*;
use crate::status::{
    Settings, SettingsModel, Status, StatusModel, completed_work, remaining, target, within_phase,
};
use crate::text::{
    block_cell, block_number_string, char_or_space, decimal, green_styled, green_text, number_digit,
    push_seq, red_styled, red_text, spaces,
};

verus! {

/// The state can be drawn: the remaining time and the work total fit the
/// integers that hold them.
pub open spec fn renderable(st: SettingsModel, s: StatusModel) -> bool {
    &&& st.wf()
    &&& within_phase(st, s)
    &&& target(st, s) + 60 <= u64::MAX
    &&& completed_work(st, s) <= u64::MAX
}

/// Column `x` of a row: its character, or `None` past its end.
pub open spec fn cell(row: Seq<char>, x: int) -> Option<char> {
    if 0 <= x < row.len() {
        Some(row[x])
    } else {
        None
    }
}

/// What a frame draws besides the state: the column at which the progress
/// bar ends, and the coloured pieces, made once per frame.
pub struct Decor {
    pub fill: u16,
    pub completed_label: Vec<char>,
    pub start_label: Vec<char>,
    pub pause_bar: Vec<char>,
}

/// The content of `Decor`.
pub struct DecorModel {
    pub fill: nat,
    pub completed_label: Seq<char>,
    pub start_label: Seq<char>,
    pub pause_bar: Seq<char>,
}

impl View for Decor {
    type V = DecorModel;

    open spec fn view(&self) -> DecorModel {
        DecorModel {
            fill: self.fill as nat,
            completed_label: self.completed_label@,
            start_label: self.start_label@,
            pause_bar: self.pause_bar@,
        }
    }
}

/// A coloured piece is the styled text, or nothing where the terminal
/// takes no escapes.
pub open spec fn styled_or_empty(piece: Seq<char>, styled: Seq<char>) -> bool {
    piece == styled || piece.len() == 0
}

impl DecorModel {
    /// The pieces are short enough for a row.
    pub open spec fn fits(self) -> bool {
        self.completed_label.len() <= 50 && self.start_label.len() <= 50 && self.pause_bar.len()
            <= 50
    }

    /// "Completed:" and "START" in green and a two-block bar in red, each
    /// as crossterm wrote it.
    pub open spec fn styled(self) -> bool {
        &&& styled_or_empty(
            self.completed_label,
            green_styled(seq!['C', 'o', 'm', 'p', 'l', 'e', 't', 'e', 'd', ':']),
        )
        &&& styled_or_empty(self.start_label, green_styled(seq!['S', 'T', 'A', 'R', 'T']))
        &&& styled_or_empty(self.pause_bar, red_styled(seq!['█', '█']))
    }
}

impl Decor {
    /// Colours the pieces once, with the progress bar ending at `fill`.
    pub fn new(fill: u16) -> (r: Decor)
        ensures
            r@.fill == fill,
            r@.styled(),
            r@.fits(),
    {
        proof {
            reveal_strlit("Completed:");
            reveal_strlit("START");
            reveal_strlit("██");
            assert("Completed:"@ =~= seq!['C', 'o', 'm', 'p', 'l', 'e', 't', 'e', 'd', ':']);
            assert("START"@ =~= seq!['S', 'T', 'A', 'R', 'T']);
            assert("██"@ =~= seq!['█', '█']);
        }
        let completed_label = green_text("Completed:");
        let start_label = green_text("START");
        let pause_bar = red_text("██");
        Decor { fill, completed_label, start_label, pause_bar }
    }
}

/// `n` copies of `c`.
pub open spec fn repeat_char(c: char, n: nat) -> Seq<char> {
    Seq::new(n, |i: int| c)
}

/// A rectangular region of the display. Each row is a stream of characters
/// that may hold styling escapes, which take no column: `size` gives the
/// columns the section covers and its number of rows.
pub trait TerminalSection {
    /// The state can be drawn by this section: what it reads fits the
    /// integers that hold it.
    spec fn ready(st: SettingsModel, s: StatusModel) -> bool;

    /// Row `y` of the section, escapes included; empty below the last row.
    spec fn row_spec(y: int, st: SettingsModel, s: StatusModel, d: DecorModel) -> Seq<char>;

    /// The columns and rows that the section covers.
    spec fn size_spec() -> (u16, u16);

    proof fn lemma_row_len(y: int, st: SettingsModel, s: StatusModel, d: DecorModel)
        requires
            d.fits(),
        ensures
            Self::row_spec(y, st, s, d).len() <= 200,
    ;

    /// The character at column `x` of row `y`, or `None` at the end of the
    /// row. `decor` holds the progress column and the coloured pieces.
    fn output_at(x: u16, y: u16, settings: &Settings, status: &Status, decor: &Decor) -> (r: Option<
        char,
    >)
        requires
            Self::ready(settings@, status@),
        ensures
            r == cell(Self::row_spec(y as int, settings@, status@, decor@), x as int),
    ;

    fn size() -> (r: (u16, u16))
        ensures
            r == Self::size_spec(),
    ;
}

fn push_repeat(buf: &mut Vec<char>, c: char, n: usize)
    ensures
        final(buf)@ == old(buf)@ + repeat_char(c, n as nat),
{
    let mut i: usize = 0;
    while i < n
        invariant
            i <= n,
            buf@ == old(buf)@ + repeat_char(c, i as nat),
        decreases n - i,
    {
        buf.push(c);
        i += 1;
        assert(buf@ =~= old(buf)@ + repeat_char(c, i as nat));
    }
}

fn row_cell(row: &Vec<char>, x: u16) -> (r: Option<char>)
    ensures
        r == cell(row@, x as int),
{
    if (x as usize) < row.len() {
        Some(row[x as usize])
    } else {
        None
    }
}

/// The minutes left in the phase, in block digits, over a caption.
pub struct MinutesLeft {}

/// The caption under the minutes.
pub open spec fn minutes_caption() -> Seq<char> {
    seq![' ', 'm', 'i', 'n', 'u', 't', 'e', 's', ' ', 'l', 'e', 'f', 't', ' ', ' ']
}

/// Row `y` of the minutes section for `m` minutes left; a count of more
/// than two digits shows as blanks.
pub open spec fn minutes_row(y: int, m: nat) -> Seq<char> {
    if y == 5 {
        spaces(15)
    } else if y == 6 {
        minutes_caption()
    } else if 0 <= y <= 4 {
        if m < 100 {
            Seq::new(15, |x: int| block_cell(m, x as nat, y as nat).unwrap())
        } else {
            spaces(15)
        }
    } else {
        Seq::empty()
    }
}

impl TerminalSection for MinutesLeft {
    open spec fn ready(st: SettingsModel, s: StatusModel) -> bool {
        st.wf() && within_phase(st, s) && target(st, s) + 60 <= u64::MAX
    }

    open spec fn row_spec(y: int, st: SettingsModel, s: StatusModel, d: DecorModel) -> Seq<char> {
        minutes_row(y, (remaining(st, s) / 60) as nat)
    }

    open spec fn size_spec() -> (u16, u16) {
        (15, 7)
    }

    proof fn lemma_row_len(y: int, st: SettingsModel, s: StatusModel, d: DecorModel) {
    }

    fn output_at(x: u16, y: u16, settings: &Settings, status: &Status, decor: &Decor) -> (r: Option<
        char,
    >) {
        let minutes_left = status.remaining_time_in_state(settings).minutes();
        if y == 5 || (y <= 4 && minutes_left >= 100) {
            if x <= 14 {
                return Some(' ');
            } else {
                return None;
            }
        }
        if y == 6 {
            let caption = vec![' ', 'm', 'i', 'n', 'u', 't', 'e', 's', ' ', 'l', 'e', 'f', 't', ' ', ' '];
            assert(caption@ =~= minutes_caption());
            return row_cell(&caption, x);
        }
        if y > 6 {
            return None;
        }
        block_number_string(minutes_left as u8, x, y)
    }

    fn size() -> (r: (u16, u16)) {
        (15, 7)
    }
}

/// Completed cycles and work minutes in a bordered box.
pub struct Completed {}

/// The box border: a full row of shade.
pub open spec fn completed_edge() -> Seq<char> {
    repeat_char('▒', 23)
}

/// An empty row of the box.
pub open spec fn completed_blank() -> Seq<char> {
    seq!['▒', '▒'] + spaces(19) + seq!['▒', '▒']
}

/// The caption row around the coloured label.
pub open spec fn completed_caption(label: Seq<char>) -> Seq<char> {
    seq!['▒', '▒', ' ', ' ', ' ', ' ', ' '] + label + seq![' ', ' ', ' ', ' ', '▒', '▒']
}

/// The row of completed cycles: two digits of `c`.
pub open spec fn completed_cycles_row(c: nat) -> Seq<char> {
    seq!['▒', '▒', ' ', ' ', ' ', ' ', char_or_space(decimal(c), 0), char_or_space(decimal(c), 1)]
        + seq![' ', 'p', 'o', 'm', 'o', 'd', 'o', 'r', 'o', 's', ' ', ' ', ' ', '▒', '▒']
}

/// The row of work minutes: three digits of `w`.
pub open spec fn completed_minutes_row(w: nat) -> Seq<char> {
    seq![
        '▒',
        '▒',
        ' ',
        ' ',
        ' ',
        ' ',
        char_or_space(decimal(w), 0),
        char_or_space(decimal(w), 1),
        char_or_space(decimal(w), 2),
    ] + seq![' ', 'm', 'i', 'n', 'u', 't', 'e', 's', ' ', ' ', ' ', ' ', '▒', '▒']
}

/// Row `y` of the box for `c` completed cycles and `w` minutes of work,
/// with `label` as the coloured caption.
pub open spec fn completed_row(y: int, c: nat, w: nat, label: Seq<char>) -> Seq<char> {
    if y == 0 || y == 6 {
        completed_edge()
    } else if y == 1 || y == 5 {
        completed_blank()
    } else if y == 2 {
        completed_caption(label)
    } else if y == 3 {
        completed_cycles_row(c)
    } else if y == 4 {
        completed_minutes_row(w)
    } else {
        Seq::empty()
    }
}

impl TerminalSection for Completed {
    open spec fn ready(st: SettingsModel, s: StatusModel) -> bool {
        completed_work(st, s) <= u64::MAX
    }

    open spec fn row_spec(y: int, st: SettingsModel, s: StatusModel, d: DecorModel) -> Seq<char> {
        completed_row(y, s.completed, completed_work(st, s) / 60, d.completed_label)
    }

    open spec fn size_spec() -> (u16, u16) {
        (23, 7)
    }

    proof fn lemma_row_len(y: int, st: SettingsModel, s: StatusModel, d: DecorModel) {
    }

    fn output_at(x: u16, y: u16, settings: &Settings, status: &Status, decor: &Decor) -> (r: Option<
        char,
    >) {
        let mut row: Vec<char> = Vec::new();
        if y == 0 || y == 6 {
            push_repeat(&mut row, '▒', 23);
        } else if y == 1 || y == 5 {
            push_repeat(&mut row, '▒', 2);
            push_repeat(&mut row, ' ', 19);
            push_repeat(&mut row, '▒', 2);
        } else if y == 2 {
            row = vec!['▒', '▒', ' ', ' ', ' ', ' ', ' '];
            push_seq(&mut row, &decor.completed_label);
            let mut tail = vec![' ', ' ', ' ', ' ', '▒', '▒'];
            row.append(&mut tail);
        } else if y == 3 {
            let c = status.completed_pomodoros as u64;
            row = vec![
                '▒',
                '▒',
                ' ',
                ' ',
                ' ',
                ' ',
                number_digit(c, 0),
                number_digit(c, 1),
                ' ',
                'p',
                'o',
                'm',
                'o',
                'd',
                'o',
                'r',
                'o',
                's',
                ' ',
                ' ',
                ' ',
                '▒',
                '▒',
            ];
        } else if y == 4 {
            let w = status.completed_work_time(settings).minutes();
            row = vec![
                '▒',
                '▒',
                ' ',
                ' ',
                ' ',
                ' ',
                number_digit(w, 0),
                number_digit(w, 1),
                number_digit(w, 2),
                ' ',
                'm',
                'i',
                'n',
                'u',
                't',
                'e',
                's',
                ' ',
                ' ',
                ' ',
                ' ',
                '▒',
                '▒',
            ];
        }
        assert(row@ =~= completed_row(
            y as int,
            status@.completed,
            completed_work(settings@, status@) / 60,
            decor@.completed_label,
        ));
        row_cell(&row, x)
    }

    fn size() -> (r: (u16, u16)) {
        (23, 7)
    }
}

/// The pause control: a shaded button showing "START" while paused and two
/// bars while running.
pub struct Pause {}

/// The shade of the button, darker while the pointer is over it.
pub open spec fn pause_shade(hover: bool) -> char {
    if hover {
        '▓'
    } else {
        '░'
    }
}

/// Row `y` of the button, with `start` as the coloured label shown while
/// paused and `bar` as each coloured bar shown while running.
pub open spec fn pause_row(y: int, paused: bool, hover: bool, start: Seq<char>, bar: Seq<char>) -> Seq<
    char,
> {
    let b = pause_shade(hover);
    if y < 0 || y > 6 {
        Seq::empty()
    } else if paused && y == 3 {
        repeat_char(b, 4) + start + repeat_char(b, 4)
    } else if !paused && 2 <= y <= 4 {
        repeat_char(b, 3) + bar + repeat_char(b, 3) + bar + repeat_char(b, 3)
    } else {
        repeat_char(b, 13)
    }
}

impl TerminalSection for Pause {
    open spec fn ready(st: SettingsModel, s: StatusModel) -> bool {
        true
    }

    open spec fn row_spec(y: int, st: SettingsModel, s: StatusModel, d: DecorModel) -> Seq<char> {
        pause_row(y, s.paused, s.hover, d.start_label, d.pause_bar)
    }

    open spec fn size_spec() -> (u16, u16) {
        (13, 7)
    }

    proof fn lemma_row_len(y: int, st: SettingsModel, s: StatusModel, d: DecorModel) {
    }

    fn output_at(x: u16, y: u16, settings: &Settings, status: &Status, decor: &Decor) -> (r: Option<
        char,
    >) {
        let b = if status.hover_on_pause {
            '▓'
        } else {
            '░'
        };
        let mut row: Vec<char> = Vec::new();
        if y > 6 {
        } else if status.paused && y == 3 {
            push_repeat(&mut row, b, 4);
            push_seq(&mut row, &decor.start_label);
            push_repeat(&mut row, b, 4);
        } else if !status.paused && 2 <= y && y <= 4 {
            push_repeat(&mut row, b, 3);
            push_seq(&mut row, &decor.pause_bar);
            push_repeat(&mut row, b, 3);
            push_seq(&mut row, &decor.pause_bar);
            push_repeat(&mut row, b, 3);
        } else {
            push_repeat(&mut row, b, 13);
        }
        assert(row@ =~= pause_row(
            y as int,
            status.paused,
            status.hover_on_pause,
            decor@.start_label,
            decor@.pause_bar,
        ));
        row_cell(&row, x)
    }

    fn size() -> (r: (u16, u16)) {
        (13, 7)
    }
}

/// A bordered bar, 101 columns by 5 rows, that fills as the phase runs and
/// names the phase in its middle.
pub struct Progress {}

/// The label in the middle row at column `x`, if any: "Break" or "Work".
pub open spec fn progress_label(x: int, in_break: bool) -> Option<char> {
    if in_break {
        if x == 48 {
            Some('B')
        } else if x == 49 {
            Some('r')
        } else if x == 50 {
            Some('e')
        } else if x == 51 {
            Some('a')
        } else if x == 52 {
            Some('k')
        } else {
            None
        }
    } else {
        if x == 48 {
            Some('W')
        } else if x == 49 {
            Some('o')
        } else if x == 50 {
            Some('r')
        } else if x == 51 {
            Some('k')
        } else {
            None
        }
    }
}

/// The fill at column `x` of a bar filled up to column `filled`: full
/// blocks before it, a lighter block just before it, a shade at it, blank
/// after it.
pub open spec fn progress_fill(x: int, filled: int) -> char {
    if x == filled {
        '▒'
    } else if x + 1 == filled {
        '▓'
    } else if x <= filled {
        '█'
    } else {
        ' '
    }
}

/// The character at column `x` (0 to 100) of row `y` (0 to 4) of the bar.
pub open spec fn progress_cell(x: int, y: int, in_break: bool, filled: int) -> char {
    if y == 0 && x == 0 {
        '┏'
    } else if y == 0 && x == 100 {
        '┓'
    } else if y == 4 && x == 0 {
        '┗'
    } else if y == 4 && x == 100 {
        '┛'
    } else if x == 0 || x == 100 {
        '┃'
    } else if y == 0 || y == 4 {
        '━'
    } else if y == 2 && progress_label(x, in_break) is Some {
        progress_label(x, in_break).unwrap()
    } else {
        progress_fill(x, filled)
    }
}

impl TerminalSection for Progress {
    open spec fn ready(st: SettingsModel, s: StatusModel) -> bool {
        true
    }

    open spec fn row_spec(y: int, st: SettingsModel, s: StatusModel, d: DecorModel) -> Seq<char> {
        if 0 <= y <= 4 {
            Seq::new(101, |x: int| progress_cell(x, y, s.in_break, d.fill as int))
        } else {
            Seq::empty()
        }
    }

    open spec fn size_spec() -> (u16, u16) {
        (101, 5)
    }

    proof fn lemma_row_len(y: int, st: SettingsModel, s: StatusModel, d: DecorModel) {
    }

    fn output_at(x: u16, y: u16, settings: &Settings, status: &Status, decor: &Decor) -> (r: Option<
        char,
    >) {
        if x > 100 || y > 4 {
            return None;
        }
        if y == 0 && x == 0 {
            return Some('┏');
        } else if y == 0 && x == 100 {
            return Some('┓');
        } else if y == 4 && x == 0 {
            return Some('┗');
        } else if y == 4 && x == 100 {
            return Some('┛');
        } else if x == 0 || x == 100 {
            return Some('┃');
        } else if y == 0 || y == 4 {
            return Some('━');
        }
        if y == 2 {
            if status.in_break {
                match x {
                    48 => return Some('B'),
                    49 => return Some('r'),
                    50 => return Some('e'),
                    51 => return Some('a'),
                    52 => return Some('k'),
                    _ => {},
                }
            } else {
                match x {
                    48 => return Some('W'),
                    49 => return Some('o'),
                    50 => return Some('r'),
                    51 => return Some('k'),
                    _ => {},
                }
            }
        }
        let x = x as u32;
        let filled = decor.fill as u32;
        Some(
            if x == filled {
                '▒'
            } else if x + 1 == filled {
                '▓'
            } else if x <= filled {
                '█'
            } else {
                ' '
            },
        )
    }

    fn size() -> (r: (u16, u16)) {
        (101, 5)
    }
}

} // verus!
