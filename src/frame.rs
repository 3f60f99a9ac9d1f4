use vstd::prelude::*;
use crate::output::{
    Completed, Decor, DecorModel, MinutesLeft, Pause, Progress, TerminalSection, cell, renderable,
};
use crate::status::{Settings, SettingsModel, Status, StatusModel};
use crate::text::{chars_to_string, push_seq, spaces};

verus! {

/// Rows in the block of sections: 7 + 2 + 7 + 2 + 7 + 2 + 5, each ended by
/// a line break.
pub const INNER_LINES: u16 = 32;

/// The spaces on each side of a section `section_width` columns wide in a
/// terminal `term_width` columns wide; none when the terminal is narrower.
pub open spec fn padding(term_width: nat, section_width: nat) -> nat {
    if term_width >= section_width {
        ((term_width - section_width) as nat / 2) as nat
    } else {
        0
    }
}

/// The blank rows above and below the block of sections.
pub open spec fn vertical_padding(term_height: nat) -> nat {
    if term_height > INNER_LINES {
        ((term_height - INNER_LINES) as nat / 2) as nat
    } else {
        0
    }
}

/// A full-width blank row.
pub open spec fn blank_line(term_width: nat) -> Seq<char> {
    spaces(term_width).push('\n')
}

/// `n` copies of `line`.
pub open spec fn lines(line: Seq<char>, n: nat) -> Seq<char>
    decreases n,
{
    if n == 0 {
        Seq::empty()
    } else {
        lines(line, (n - 1) as nat) + line
    }
}

/// The first `rows` rows of section `S`, each padded by `pad` spaces on both
/// sides and ended by a line break.
pub open spec fn section_text<S: TerminalSection>(
    st: SettingsModel,
    s: StatusModel,
    d: DecorModel,
    pad: nat,
    rows: nat,
) -> Seq<char>
    decreases rows,
{
    if rows == 0 {
        Seq::empty()
    } else {
        section_text::<S>(st, s, d, pad, (rows - 1) as nat) + spaces(pad) + S::row_spec(
            rows - 1,
            st,
            s,
            d,
        ) + spaces(pad) + seq!['\n']
    }
}

/// Section `S`, centred in a terminal `w` columns wide.
pub open spec fn placed<S: TerminalSection>(
    st: SettingsModel,
    s: StatusModel,
    d: DecorModel,
    w: nat,
) -> Seq<char> {
    section_text::<S>(
        st,
        s,
        d,
        padding(w, S::size_spec().0 as nat),
        S::size_spec().1 as nat,
    )
}

/// The sections in order, two blank rows between each two.
pub open spec fn inner_text(st: SettingsModel, s: StatusModel, d: DecorModel, w: nat) -> Seq<char> {
    let gap = blank_line(w) + blank_line(w);
    placed::<MinutesLeft>(st, s, d, w) + gap + placed::<Completed>(st, s, d, w) + gap
        + placed::<Pause>(st, s, d, w) + gap + placed::<Progress>(st, s, d, w)
}

/// The whole frame: the sections, centred vertically by blank rows.
pub open spec fn frame(st: SettingsModel, s: StatusModel, d: DecorModel, w: nat, h: nat) -> Seq<
    char,
> {
    let v = lines(blank_line(w), vertical_padding(h));
    v + inner_text(st, s, d, w) + v
}

/// The spaces on each side of a section in a terminal of the given width.
pub fn section_padding(term_width: u16, section_width: u16) -> (r: u16)
    ensures
        r as nat == padding(term_width as nat, section_width as nat),
{
    if term_width >= section_width {
        (term_width - section_width) / 2
    } else {
        0
    }
}

fn push_spaces(buf: &mut Vec<char>, n: u16)
    ensures
        final(buf)@ == old(buf)@ + spaces(n as nat),
{
    let mut i: u16 = 0;
    while i < n
        invariant
            i <= n,
            buf@ == old(buf)@ + spaces(i as nat),
        decreases n - i,
    {
        buf.push(' ');
        i += 1;
        assert(buf@ =~= old(buf)@ + spaces(i as nat));
    }
}

/// Appends row `y` of section `S`, read column by column until the section
/// reports the end of the row.
fn push_row<S: TerminalSection>(
    buf: &mut Vec<char>,
    y: u16,
    settings: &Settings,
    status: &Status,
    decor: &Decor,
)
    requires
        S::ready(settings@, status@),
        decor@.fits(),
    ensures
        final(buf)@ == old(buf)@ + S::row_spec(y as int, settings@, status@, decor@),
{
    let ghost row = S::row_spec(y as int, settings@, status@, decor@);
    proof {
        S::lemma_row_len(y as int, settings@, status@, decor@);
    }
    let mut x: u16 = 0;
    let mut next = S::output_at(0, y, settings, status, decor);
    while next.is_some()
        invariant
            S::ready(settings@, status@),
            row == S::row_spec(y as int, settings@, status@, decor@),
            row.len() <= 200,
            x <= row.len(),
            next == cell(row, x as int),
            buf@ == old(buf)@ + row.subrange(0, x as int),
        decreases row.len() - x,
    {
        buf.push(next.unwrap());
        assert(buf@ =~= old(buf)@ + row.subrange(0, x + 1));
        x += 1;
        next = S::output_at(x, y, settings, status, decor);
    }
    assert(row.subrange(0, x as int) =~= row);
}

/// Appends section `S`, centred in a terminal `term_width` columns wide.
fn push_section<S: TerminalSection>(
    buf: &mut Vec<char>,
    term_width: u16,
    settings: &Settings,
    status: &Status,
    decor: &Decor,
)
    requires
        S::ready(settings@, status@),
        decor@.fits(),
    ensures
        final(buf)@ == old(buf)@ + placed::<S>(settings@, status@, decor@, term_width as nat),
{
    let size = S::size();
    let pad = section_padding(term_width, size.0);
    let mut y: u16 = 0;
    while y < size.1
        invariant
            S::ready(settings@, status@),
            decor@.fits(),
            size == S::size_spec(),
            pad as nat == padding(term_width as nat, size.0 as nat),
            y <= size.1,
            buf@ == old(buf)@ + section_text::<S>(
                settings@,
                status@,
                decor@,
                pad as nat,
                y as nat,
            ),
        decreases size.1 - y,
    {
        push_spaces(buf, pad);
        push_row::<S>(buf, y, settings, status, decor);
        push_spaces(buf, pad);
        buf.push('\n');
        y += 1;
        assert(buf@ =~= old(buf)@ + section_text::<S>(
            settings@,
            status@,
            decor@,
            pad as nat,
            y as nat,
        ));
    }
}

fn push_lines(buf: &mut Vec<char>, line: &Vec<char>, n: u16)
    ensures
        final(buf)@ == old(buf)@ + lines(line@, n as nat),
{
    let mut i: u16 = 0;
    while i < n
        invariant
            i <= n,
            buf@ == old(buf)@ + lines(line@, i as nat),
        decreases n - i,
    {
        push_seq(buf, line);
        i += 1;
        assert(buf@ =~= old(buf)@ + lines(line@, i as nat));
    }
}

/// Composes the frame for a terminal of `term_width` columns and
/// `term_height` rows, with the progress column and coloured pieces of
/// `decor`.
pub fn compose_frame(
    settings: &Settings,
    status: &Status,
    term_width: u16,
    term_height: u16,
    decor: &Decor,
) -> (r: String)
    requires
        renderable(settings@, status@),
        decor@.fits(),
    ensures
        r@ == frame(
            settings@,
            status@,
            decor@,
            term_width as nat,
            term_height as nat,
        ),
{
    let mut empty_line_full: Vec<char> = Vec::new();
    push_spaces(&mut empty_line_full, term_width);
    empty_line_full.push('\n');
    let ghost blank = blank_line(term_width as nat);
    assert(empty_line_full@ =~= blank);

    let mut inner: Vec<char> = Vec::new();
    push_section::<MinutesLeft>(&mut inner, term_width, settings, status, decor);
    push_lines(&mut inner, &empty_line_full, 2);
    push_section::<Completed>(&mut inner, term_width, settings, status, decor);
    push_lines(&mut inner, &empty_line_full, 2);
    push_section::<Pause>(&mut inner, term_width, settings, status, decor);
    push_lines(&mut inner, &empty_line_full, 2);
    push_section::<Progress>(&mut inner, term_width, settings, status, decor);
    proof {
        assert(lines(blank, 2) =~= blank + blank) by {
            reveal_with_fuel(lines, 3);
        }
        assert(inner@ =~= inner_text(
            settings@,
            status@,
            decor@,
            term_width as nat,
        ));
    }

    let vertical = if term_height > INNER_LINES {
        (term_height - INNER_LINES) / 2
    } else {
        0
    };
    let mut buffer: Vec<char> = Vec::new();
    push_lines(&mut buffer, &empty_line_full, vertical);
    push_seq(&mut buffer, &inner);
    push_lines(&mut buffer, &empty_line_full, vertical);
    assert(buffer@ =~= frame(
        settings@,
        status@,
        decor@,
        term_width as nat,
        term_height as nat,
    ));
    chars_to_string(&buffer)
}

/// The screen cell at column `col`, row `row` lies on the pause control as
/// the frame places it: below two sections and their gaps, centred.
pub open spec fn on_pause_control(col: nat, row: nat, w: nat, h: nat) -> bool {
    let left = padding(w, 13);
    let top = vertical_padding(h) + 18;
    left <= col < left + 13 && top <= row < top + 7
}

/// Whether a pointer at column `col`, row `row` is over the pause control in
/// a terminal of `term_width` columns and `term_height` rows.
pub fn in_pause_box(col: u16, row: u16, term_width: u16, term_height: u16) -> (r: bool)
    ensures
        r == on_pause_control(col as nat, row as nat, term_width as nat, term_height as nat),
{
    let left = section_padding(term_width, 13) as u32;
    let vertical = if term_height > INNER_LINES {
        (term_height - INNER_LINES) / 2
    } else {
        0
    };
    let top = vertical as u32 + 18;
    let c = col as u32;
    let r = row as u32;
    left <= c && c < left + 13 && top <= r && r < top + 7
}

impl Status {
    /// A click: over the pause control it toggles the pause, elsewhere it
    /// changes nothing.
    pub fn click(&mut self, col: u16, row: u16, term_width: u16, term_height: u16)
        ensures
            final(self)@ == (StatusModel {
                paused: old(self)@.paused != on_pause_control(
                    col as nat,
                    row as nat,
                    term_width as nat,
                    term_height as nat,
                ),
                ..old(self)@
            }),
    {
        if in_pause_box(col, row, term_width, term_height) {
            self.paused = !self.paused;
        }
    }

    /// A pointer move: records whether the pointer is over the pause control.
    pub fn hover(&mut self, col: u16, row: u16, term_width: u16, term_height: u16)
        ensures
            final(self)@ == (StatusModel {
                hover: on_pause_control(col as nat, row as nat, term_width as nat, term_height as nat),
                ..old(self)@
            }),
    {
        self.hover_on_pause = in_pause_box(col, row, term_width, term_height);
    }
}

/// The background colour of the frame as red, green and blue: green during
/// a break, dark blue while working.
pub fn background_rgb(status: &Status) -> (r: (u8, u8, u8))
    ensures
        r == if status.in_break {
            (20u8, 80u8, 20u8)
        } else {
            (20u8, 20u8, 30u8)
        },
{
    if status.in_break {
        (20, 80, 20)
    } else {
        (20, 20, 30)
    }
}

/// Composes the frame for a terminal of `term_width` columns and
/// `term_height` rows, with the progress bar ending at column
/// `progress_fill`: the pieces are coloured once, as crossterm writes them.
pub fn construct_string(
    settings: &Settings,
    status: &Status,
    term_width: u16,
    term_height: u16,
    progress_fill: u16,
) -> (r: String)
    requires
        renderable(settings@, status@),
    ensures
        exists|d: DecorModel|
            d.fill == progress_fill && d.styled() && r@ == #[trigger] frame(
                settings@,
                status@,
                d,
                term_width as nat,
                term_height as nat,
            ),
{
    let decor = Decor::new(progress_fill);
    let r = compose_frame(settings, status, term_width, term_height, &decor);
    assert(r@ == frame(settings@, status@, decor@, term_width as nat, term_height as nat));
    r
}

} // verus!
