use pomodoro::frame::{background_rgb, compose_frame, construct_string, in_pause_box, section_padding};
use pomodoro::long_duration::LongDuration;
use pomodoro::output::{Completed, Decor, MinutesLeft, Pause, Progress, TerminalSection};
use pomodoro::status::{Settings, Status};
use pomodoro::text::{block_number_string, decimal_chars, number_digit};

fn settings(work: u64, short: u64, long: u64, cycles: usize) -> Settings {
    Settings {
        work_time: LongDuration::new_minutes(work),
        short_break_time: LongDuration::new_minutes(short),
        long_break_time: LongDuration::new_minutes(long),
        long_break_cycles: cycles,
    }
}

fn row_of<F: Fn(u16) -> Option<char>>(f: F) -> String {
    let mut s = String::new();
    let mut x: u16 = 0;
    while let Some(c) = f(x) {
        s.push(c);
        x += 1;
    }
    s
}

#[test]
fn decimal_digits() {
    assert_eq!(decimal_chars(0), vec!['0']);
    assert_eq!(decimal_chars(1207), vec!['1', '2', '0', '7']);
    assert_eq!(number_digit(1234, 0), '1');
    assert_eq!(number_digit(1234, 3), '4');
    assert_eq!(number_digit(5, 1), ' ');
    assert_eq!(number_digit(0, 0), '0');
    assert_eq!(number_digit(u64::MAX, 19), '5');
}

#[test]
fn block_digits() {
    assert_eq!(block_number_string(42, 7, 0), Some(' '));
    assert_eq!(block_number_string(42, 15, 0), None);
    assert_eq!(block_number_string(42, 0, 6), None);
    // row 0 of the glyph of 4 is "██   ██"
    assert_eq!(block_number_string(42, 0, 0), Some('█'));
    assert_eq!(block_number_string(42, 2, 0), Some(' '));
    assert_eq!(block_number_string(42, 6, 0), Some('█'));
    // row 0 of the glyph of 1 is "   ██  "
    assert_eq!(block_number_string(1, 8, 0), Some(' '));
    assert_eq!(block_number_string(1, 11, 0), Some('█'));
    assert_eq!(block_number_string(1, 12, 0), Some('█'));
    assert_eq!(block_number_string(1, 13, 0), Some(' '));
    // the glyph of 0 for the tens digit
    assert_eq!(block_number_string(1, 0, 0), Some('█'));
    assert_eq!(block_number_string(1, 3, 1), Some(' '));
    assert_eq!(block_number_string(99, 14, 5), Some(' '));
}

#[test]
fn minutes_left_section() {
    let set = Settings::default();
    let st = Status::initial();
    assert_eq!(MinutesLeft::size(), (15, 7));
    let caption = row_of(|x| MinutesLeft::output_at(x, 6, &set, &st, &Decor::new(0)));
    assert_eq!(caption, " minutes left  ");
    let blank = row_of(|x| MinutesLeft::output_at(x, 5, &set, &st, &Decor::new(0)));
    assert_eq!(blank, " ".repeat(15));
    // 26 minutes: row 0 of both 2 and 6 is solid
    let top = row_of(|x| MinutesLeft::output_at(x, 0, &set, &st, &Decor::new(0)));
    assert_eq!(top, "███████ ███████");
    // row 1: "     ██" for 2 and "██     " for 6
    let second = row_of(|x| MinutesLeft::output_at(x, 1, &set, &st, &Decor::new(0)));
    assert_eq!(second, "     ██ ██     ");
    assert_eq!(MinutesLeft::output_at(0, 7, &set, &st, &Decor::new(0)), None);
}

#[test]
fn minutes_left_wide_count_is_blank() {
    let set = settings(200, 5, 30, 4);
    let st = Status::initial();
    let top = row_of(|x| MinutesLeft::output_at(x, 0, &set, &st, &Decor::new(0)));
    assert_eq!(top, " ".repeat(15));
}

#[test]
fn completed_section() {
    let set = Settings::default();
    let mut st = Status::initial();
    st.completed_pomodoros = 7;
    st.in_break = true;
    assert_eq!(Completed::size(), (23, 7));
    assert_eq!(row_of(|x| Completed::output_at(x, 0, &set, &st, &Decor::new(0))), "▒".repeat(23));
    assert_eq!(
        row_of(|x| Completed::output_at(x, 1, &set, &st, &Decor::new(0))),
        "▒▒                   ▒▒"
    );
    assert_eq!(
        row_of(|x| Completed::output_at(x, 2, &set, &st, &Decor::new(0))),
        "▒▒     \u{1b}[38;5;10mCompleted:\u{1b}[39m    ▒▒"
    );
    assert_eq!(Completed::output_at(7, 2, &set, &st, &Decor::new(0)), Some('\u{1b}'));
    assert_eq!(
        row_of(|x| Completed::output_at(x, 3, &set, &st, &Decor::new(0))),
        "▒▒    7  pomodoros   ▒▒"
    );
    // eight cycles of 25 minutes
    assert_eq!(
        row_of(|x| Completed::output_at(x, 4, &set, &st, &Decor::new(0))),
        "▒▒    200 minutes    ▒▒"
    );
    assert_eq!(Completed::output_at(0, 7, &set, &st, &Decor::new(0)), None);
}

#[test]
fn pause_section() {
    let set = Settings::default();
    let mut st = Status::initial();
    assert_eq!(Pause::size(), (13, 7));
    assert_eq!(row_of(|x| Pause::output_at(x, 0, &set, &st, &Decor::new(0))), "░".repeat(13));
    assert_eq!(
        row_of(|x| Pause::output_at(x, 3, &set, &st, &Decor::new(0))),
        "░░░\u{1b}[38;5;9m██\u{1b}[39m░░░\u{1b}[38;5;9m██\u{1b}[39m░░░"
    );
    st.paused = true;
    st.hover_on_pause = true;
    assert_eq!(
        row_of(|x| Pause::output_at(x, 3, &set, &st, &Decor::new(0))),
        "▓▓▓▓\u{1b}[38;5;10mSTART\u{1b}[39m▓▓▓▓"
    );
    assert_eq!(row_of(|x| Pause::output_at(x, 2, &set, &st, &Decor::new(0))), "▓".repeat(13));
}

#[test]
fn progress_section() {
    let set = Settings::default();
    let mut st = Status::initial();
    assert_eq!(Progress::size(), (101, 5));
    let top = row_of(|x| Progress::output_at(x, 0, &set, &st, &Decor::new(0)));
    assert_eq!(top, format!("┏{}┓", "━".repeat(99)));
    let bottom = row_of(|x| Progress::output_at(x, 4, &set, &st, &Decor::new(0)));
    assert_eq!(bottom, format!("┗{}┛", "━".repeat(99)));
    let fill = row_of(|x| Progress::output_at(x, 1, &set, &st, &Decor::new(10)));
    assert_eq!(fill, format!("┃{}▓▒{}┃", "█".repeat(8), " ".repeat(89)));
    let label = row_of(|x| Progress::output_at(x, 2, &set, &st, &Decor::new(10)));
    assert_eq!(label.chars().skip(48).take(4).collect::<String>(), "Work");
    assert_eq!(label.chars().nth(52), Some(' '));
    st.in_break = true;
    let label = row_of(|x| Progress::output_at(x, 2, &set, &st, &Decor::new(99)));
    assert_eq!(label.chars().skip(48).take(5).collect::<String>(), "Break");
    assert_eq!(label.chars().nth(98), Some('▓'));
    assert_eq!(label.chars().nth(99), Some('▒'));
    assert_eq!(Progress::output_at(101, 1, &set, &st, &Decor::new(0)), None);
    assert_eq!(Progress::output_at(0, 5, &set, &st, &Decor::new(0)), None);
}

#[test]
fn padding_for_progress_width() {
    assert_eq!(section_padding(101, 101), 0);
    assert_eq!(section_padding(103, 101), 1);
    assert_eq!(section_padding(104, 101), 1);
    assert_eq!(section_padding(80, 101), 0);
}

#[test]
fn frame_in_exact_width() {
    let set = Settings::default();
    let st = Status::initial();
    let frame = construct_string(&set, &st, 101, 33, 0);
    let lines: Vec<&str> = frame.split('\n').collect();
    assert_eq!(lines.len(), 33);
    assert!(lines[27].starts_with('┏'));
    assert_eq!(lines[27].chars().count(), 101);
    assert_eq!(lines[0], format!("{}███████ ███████{}", " ".repeat(43), " ".repeat(43)));
    assert_eq!(lines[7], " ".repeat(101));
    assert_eq!(lines[32], "");
}

#[test]
fn frame_padding_and_vertical_centering() {
    let set = Settings::default();
    let st = Status::initial();
    let frame = construct_string(&set, &st, 103, 40, 0);
    let lines: Vec<&str> = frame.split('\n').collect();
    assert_eq!(lines.len(), 41);
    for i in 0..4 {
        assert_eq!(lines[i], " ".repeat(103));
        assert_eq!(lines[36 + i], " ".repeat(103));
    }
    assert!(lines[4].starts_with(&" ".repeat(44)));
    assert!(lines[4 + 27].starts_with(" ┏"));
    assert!(lines[4 + 27].ends_with("┓ "));
    assert_eq!(lines[40], "");
}

#[test]
fn frame_one_blank_row_each_side_at_height_34() {
    let set = Settings::default();
    let st = Status::initial();
    let frame = construct_string(&set, &st, 101, 34, 0);
    let lines: Vec<&str> = frame.split('\n').collect();
    assert_eq!(lines.len(), 35);
    assert_eq!(lines[0], " ".repeat(101));
    assert_eq!(lines[33], " ".repeat(101));
    assert!(lines[1 + 27].starts_with('┏'));
}

#[test]
fn pause_box_hit_test() {
    assert!(in_pause_box(44, 18, 101, 33));
    assert!(in_pause_box(56, 24, 101, 33));
    assert!(!in_pause_box(57, 24, 101, 33));
    assert!(!in_pause_box(43, 18, 101, 33));
    assert!(!in_pause_box(44, 25, 101, 33));
    assert!(in_pause_box(45, 22, 103, 40));
    assert!(in_pause_box(57, 28, 103, 40));
    assert!(!in_pause_box(45, 21, 103, 40));
    assert!(!in_pause_box(45, 29, 103, 40));
}

#[test]
fn click_toggles_pause_inside_only() {
    let mut st = Status::initial();
    st.click(0, 0, 101, 33);
    assert!(!st.paused);
    st.click(50, 20, 101, 33);
    assert!(st.paused);
    st.click(50, 20, 101, 33);
    assert!(!st.paused);
    st.hover(50, 20, 101, 33);
    assert!(st.hover_on_pause);
    st.hover(0, 20, 101, 33);
    assert!(!st.hover_on_pause);
}

#[test]
fn background_by_phase() {
    let mut st = Status::initial();
    assert_eq!(background_rgb(&st), (20, 20, 30));
    st.in_break = true;
    assert_eq!(background_rgb(&st), (20, 80, 20));
}

#[test]
fn narrow_terminal_gets_no_padding() {
    let set = Settings::default();
    let st = Status::initial();
    let frame = construct_string(&set, &st, 10, 5, 0);
    let lines: Vec<&str> = frame.split('\n').collect();
    assert_eq!(lines.len(), 33);
    assert_eq!(lines[0], "███████ ███████");
    assert_eq!(lines[7], " ".repeat(10));
}

#[test]
fn wide_counters_are_cut_to_their_columns() {
    let set = settings(1, 1, 1, 4);
    let mut st = Status::initial();
    st.completed_pomodoros = 150;
    st.in_break = true;
    assert_eq!(
        row_of(|x| Completed::output_at(x, 3, &set, &st, &Decor::new(0))),
        "▒▒    15 pomodoros   ▒▒"
    );
    // 151 minutes of work
    assert_eq!(
        row_of(|x| Completed::output_at(x, 4, &set, &st, &Decor::new(0))),
        "▒▒    151 minutes    ▒▒"
    );
}

#[test]
fn decor_colours_each_piece() {
    let d = Decor::new(7);
    assert_eq!(d.fill, 7);
    assert_eq!(d.completed_label.iter().collect::<String>(), "\u{1b}[38;5;10mCompleted:\u{1b}[39m");
    assert_eq!(d.start_label.iter().collect::<String>(), "\u{1b}[38;5;10mSTART\u{1b}[39m");
    assert_eq!(d.pause_bar.iter().collect::<String>(), "\u{1b}[38;5;9m██\u{1b}[39m");
}

#[test]
fn frame_without_colour_pieces() {
    let set = Settings::default();
    let mut st = Status::initial();
    let plain = Decor { fill: 0, completed_label: vec![], start_label: vec![], pause_bar: vec![] };
    let frame = compose_frame(&set, &st, 101, 32, &plain);
    let lines: Vec<&str> = frame.split('\n').collect();
    assert_eq!(lines.len(), 33);
    assert_eq!(lines[11], format!("{}▒▒         ▒▒{}", " ".repeat(39), " ".repeat(39)));
    assert_eq!(lines[21], format!("{}░░░░░░░░░{}", " ".repeat(44), " ".repeat(44)));
    st.paused = true;
    let frame = compose_frame(&set, &st, 101, 32, &plain);
    let lines: Vec<&str> = frame.split('\n').collect();
    assert_eq!(lines[21], format!("{}░░░░░░░░{}", " ".repeat(44), " ".repeat(44)));
}
