use core::fmt::Write;
use oled_terminal::displayrotation::DisplayRotation;
use oled_terminal::displaysize::DisplaySize;
use oled_terminal::mode::terminal::{CharacterBitmap, ResetStep, TerminalMode};
use oled_terminal::window::AddressingWindow;

/// One call that the window received.
#[derive(Clone, Debug, PartialEq, Eq)]
enum Call {
    GetSize,
    SetDrawArea((u8, u8), (u8, u8)),
    Draw(Vec<u8>),
    InitColumnMode,
    SetRotation(DisplayRotation),
}

/// A window that writes down every call and fails where it is told to.
struct Recorder {
    size: DisplaySize,
    calls: Vec<Call>,
    /// The draw calls that fail, counted from 1.
    failing_draws: Vec<usize>,
    draws: usize,
    fail_draw_area: bool,
    fail_init: bool,
    fail_rotation: bool,
}

impl Recorder {
    fn new(size: DisplaySize) -> Recorder {
        Recorder {
            size,
            calls: Vec::new(),
            failing_draws: Vec::new(),
            draws: 0,
            fail_draw_area: false,
            fail_init: false,
            fail_rotation: false,
        }
    }

    fn failing_draw(size: DisplaySize, nth: usize) -> Recorder {
        let mut recorder = Recorder::new(size);
        recorder.failing_draws.push(nth);
        recorder
    }

    fn commands(&self) -> Vec<Call> {
        self.calls.iter().filter(|call| **call != Call::GetSize).cloned().collect()
    }

    fn drawn(&self) -> Vec<Vec<u8>> {
        let mut drawn = Vec::new();
        for call in &self.calls {
            if let Call::Draw(bytes) = call {
                drawn.push(bytes.clone());
            }
        }
        drawn
    }
}

impl AddressingWindow for Recorder {
    fn get_size(&self) -> DisplaySize {
        self.size
    }

    fn set_draw_area(&mut self, origin: (u8, u8), size: (u8, u8)) -> Result<(), ()> {
        self.calls.push(Call::SetDrawArea(origin, size));
        if self.fail_draw_area {
            Err(())
        } else {
            Ok(())
        }
    }

    fn draw(&mut self, buffer: &[u8]) -> Result<(), ()> {
        self.calls.push(Call::Draw(buffer.to_vec()));
        self.draws += 1;
        if self.failing_draws.contains(&self.draws) {
            Err(())
        } else {
            Ok(())
        }
    }

    fn init_column_mode(&mut self) -> Result<(), ()> {
        self.calls.push(Call::InitColumnMode);
        if self.fail_init {
            Err(())
        } else {
            Ok(())
        }
    }

    fn set_rotation(&mut self, rotation: DisplayRotation) -> Result<(), ()> {
        self.calls.push(Call::SetRotation(rotation));
        if self.fail_rotation {
            Err(())
        } else {
            Ok(())
        }
    }
}

fn expected_clear(dimensions: (u8, u8), cells: usize) -> Vec<Call> {
    let mut calls = vec![Call::SetDrawArea((6, 32), dimensions)];
    for _ in 0..cells {
        calls.push(Call::Draw(vec![0; 8]));
    }
    calls
}

#[test]
fn new_and_release_send_nothing() {
    let mut recorder = Recorder::new(DisplaySize::Display128x32);
    recorder.draws = 7;
    let terminal = TerminalMode::new(recorder);
    let recorder = terminal.release();
    assert!(recorder.calls.is_empty());
    assert_eq!(recorder.size, DisplaySize::Display128x32);
    assert_eq!(recorder.draws, 7);
}

#[test]
fn release_gives_back_the_window_as_it_is() {
    let mut terminal = TerminalMode::new(Recorder::new(DisplaySize::Display96x16));
    terminal.print_char('x').unwrap();
    let recorder = terminal.release();
    assert_eq!(recorder.draws, 1);
    let mut terminal = TerminalMode::new(recorder);
    terminal.print_char('y').unwrap();
    let recorder = terminal.release();
    assert_eq!(recorder.draws, 2);
    assert_eq!(
        recorder.drawn(),
        vec![
            vec![0x00, 0x44, 0x28, 0x10, 0x28, 0x44, 0x00, 0x00],
            vec![0x0C, 0x50, 0x50, 0x50, 0x3C, 0x00, 0x00, 0x00],
        ]
    );
}

#[test]
fn init_enters_column_mode() {
    let mut terminal = TerminalMode::new(Recorder::new(DisplaySize::Display128x64));
    assert_eq!(terminal.init(), Ok(()));
    assert_eq!(terminal.release().calls, vec![Call::InitColumnMode]);
}

#[test]
fn init_reports_a_transport_failure() {
    let mut recorder = Recorder::new(DisplaySize::Display128x64);
    recorder.fail_init = true;
    let mut terminal = TerminalMode::new(recorder);
    assert_eq!(terminal.init(), Err(()));
    assert_eq!(terminal.release().calls, vec![Call::InitColumnMode]);
}

#[test]
fn init_is_not_retried() {
    let mut recorder = Recorder::new(DisplaySize::Display128x64);
    recorder.fail_init = true;
    let mut terminal = TerminalMode::new(recorder);
    assert_eq!(terminal.init(), Err(()));
    assert_eq!(terminal.init(), Err(()));
    assert_eq!(
        terminal.release().calls,
        vec![Call::InitColumnMode, Call::InitColumnMode]
    );
}

#[test]
fn clear_of_128x64_draws_128_blanks() {
    let mut terminal = TerminalMode::new(Recorder::new(DisplaySize::Display128x64));
    assert_eq!(terminal.clear(), Ok(()));
    let recorder = terminal.release();
    assert_eq!(recorder.commands(), expected_clear((128, 64), 128));
    assert_eq!(recorder.draws, 128);
}

#[test]
fn clear_of_128x32_draws_64_blanks() {
    let mut terminal = TerminalMode::new(Recorder::new(DisplaySize::Display128x32));
    assert_eq!(terminal.clear(), Ok(()));
    let recorder = terminal.release();
    assert_eq!(recorder.commands(), expected_clear((128, 32), 64));
    assert_eq!(recorder.draws, 64);
}

#[test]
fn clear_of_96x16_draws_24_blanks() {
    let mut terminal = TerminalMode::new(Recorder::new(DisplaySize::Display96x16));
    assert_eq!(terminal.clear(), Ok(()));
    let recorder = terminal.release();
    assert_eq!(recorder.commands(), expected_clear((96, 16), 24));
    assert_eq!(recorder.draws, 24);
}

#[test]
fn clear_places_the_window_once_and_first() {
    let mut terminal = TerminalMode::new(Recorder::new(DisplaySize::Display128x64));
    terminal.clear().unwrap();
    let commands = terminal.release().commands();
    assert_eq!(commands[0], Call::SetDrawArea((6, 32), (128, 64)));
    let placements = commands
        .iter()
        .filter(|call| matches!(call, Call::SetDrawArea(_, _)))
        .count();
    assert_eq!(placements, 1);
    assert_eq!(commands.len(), 129);
    for call in &commands[1..] {
        assert_eq!(*call, Call::Draw(vec![0, 0, 0, 0, 0, 0, 0, 0]));
    }
}

#[test]
fn clear_without_a_layout_fails_and_sends_nothing() {
    let mut terminal = TerminalMode::new(Recorder::new(DisplaySize::Quirk128x32));
    assert_eq!(terminal.clear(), Err(()));
    let recorder = terminal.release();
    assert!(recorder.calls.is_empty());
    assert_eq!(recorder.draws, 0);
}

#[test]
fn clear_stops_at_the_third_draw_when_it_fails() {
    let mut terminal =
        TerminalMode::new(Recorder::failing_draw(DisplaySize::Display128x64, 3));
    assert_eq!(terminal.clear(), Err(()));
    let recorder = terminal.release();
    assert_eq!(recorder.draws, 3);
    assert_eq!(recorder.commands(), expected_clear((128, 64), 3));
}

#[test]
fn clear_stops_at_the_first_draw_when_it_fails() {
    let mut terminal = TerminalMode::new(Recorder::failing_draw(DisplaySize::Display96x16, 1));
    assert_eq!(terminal.clear(), Err(()));
    let recorder = terminal.release();
    assert_eq!(recorder.commands(), expected_clear((96, 16), 1));
}

#[test]
fn clear_fails_when_the_last_draw_fails() {
    let mut terminal = TerminalMode::new(Recorder::failing_draw(DisplaySize::Display96x16, 24));
    assert_eq!(terminal.clear(), Err(()));
    let recorder = terminal.release();
    assert_eq!(recorder.commands(), expected_clear((96, 16), 24));
}

#[test]
fn clear_draws_nothing_when_the_window_cannot_be_placed() {
    let mut recorder = Recorder::new(DisplaySize::Display128x32);
    recorder.fail_draw_area = true;
    let mut terminal = TerminalMode::new(recorder);
    assert_eq!(terminal.clear(), Err(()));
    let recorder = terminal.release();
    assert_eq!(recorder.commands(), vec![Call::SetDrawArea((6, 32), (128, 32))]);
    assert_eq!(recorder.draws, 0);
}

#[test]
fn clear_can_be_repeated() {
    let mut terminal = TerminalMode::new(Recorder::new(DisplaySize::Display96x16));
    assert_eq!(terminal.clear(), Ok(()));
    assert_eq!(terminal.clear(), Ok(()));
    let recorder = terminal.release();
    let mut expected = expected_clear((96, 16), 24);
    expected.extend(expected_clear((96, 16), 24));
    assert_eq!(recorder.commands(), expected);
}

#[test]
fn print_char_forwards_the_glyph() {
    let mut terminal = TerminalMode::new(Recorder::new(DisplaySize::Display128x64));
    assert_eq!(terminal.print_char('5'), Ok(()));
    assert_eq!(
        terminal.release().calls,
        vec![Call::Draw(vec![0x27, 0x67, 0x45, 0x45, 0x45, 0x7D, 0x38, 0x00])]
    );
}

#[test]
fn print_char_draws_a_blank_for_a_space() {
    let mut terminal = TerminalMode::new(Recorder::new(DisplaySize::Display128x64));
    assert_eq!(terminal.print_char(' '), Ok(()));
    assert_eq!(terminal.release().calls, vec![Call::Draw(vec![0; 8])]);
}

#[test]
fn print_char_draws_a_blank_for_an_unknown_character() {
    let mut terminal = TerminalMode::new(Recorder::new(DisplaySize::Display128x64));
    assert_eq!(terminal.print_char('\u{fc}'), Ok(()));
    assert_eq!(terminal.print_char('~'), Ok(()));
    assert_eq!(
        terminal.release().calls,
        vec![Call::Draw(vec![0; 8]), Call::Draw(vec![0; 8])]
    );
}

#[test]
fn print_char_reports_a_transport_failure() {
    let mut terminal =
        TerminalMode::new(Recorder::failing_draw(DisplaySize::Display128x64, 1));
    assert_eq!(terminal.print_char('A'), Err(()));
    assert_eq!(terminal.print_char('A'), Ok(()));
    assert_eq!(
        terminal.release().calls,
        vec![
            Call::Draw(vec![0x7E, 0x11, 0x11, 0x11, 0x7E, 0x00, 0x00, 0x00]),
            Call::Draw(vec![0x7E, 0x11, 0x11, 0x11, 0x7E, 0x00, 0x00, 0x00]),
        ]
    );
}

#[test]
fn flush_sends_nothing_and_succeeds() {
    let mut terminal = TerminalMode::new(Recorder::new(DisplaySize::Display128x64));
    assert_eq!(terminal.flush(), Ok(()));
    assert_eq!(terminal.flush(), Ok(()));
    assert!(terminal.release().calls.is_empty());
}

#[test]
fn flush_succeeds_on_a_failing_window() {
    let mut recorder = Recorder::failing_draw(DisplaySize::Quirk128x32, 1);
    recorder.fail_init = true;
    recorder.fail_draw_area = true;
    recorder.fail_rotation = true;
    let mut terminal = TerminalMode::new(recorder);
    assert_eq!(terminal.print_char('a'), Err(()));
    assert_eq!(terminal.flush(), Ok(()));
    assert_eq!(terminal.release().calls.len(), 1);
}

#[test]
fn set_rotation_forwards_the_rotation() {
    let rotations = [
        DisplayRotation::Rotate0,
        DisplayRotation::Rotate90,
        DisplayRotation::Rotate180,
        DisplayRotation::Rotate270,
    ];
    for rotation in rotations {
        let mut terminal = TerminalMode::new(Recorder::new(DisplaySize::Display128x64));
        assert_eq!(terminal.set_rotation(rotation), Ok(()));
        assert_eq!(terminal.release().calls, vec![Call::SetRotation(rotation)]);
    }
}

#[test]
fn set_rotation_reports_a_transport_failure() {
    let mut recorder = Recorder::new(DisplaySize::Display128x64);
    recorder.fail_rotation = true;
    let mut terminal = TerminalMode::new(recorder);
    assert_eq!(terminal.set_rotation(DisplayRotation::Rotate90), Err(()));
    assert_eq!(
        terminal.release().calls,
        vec![Call::SetRotation(DisplayRotation::Rotate90)]
    );
}

#[test]
fn write_str_draws_the_characters_in_order() {
    let mut terminal = TerminalMode::new(Recorder::new(DisplaySize::Display128x64));
    assert!(terminal.write_str("ab").is_ok());
    assert_eq!(
        terminal.release().calls,
        vec![
            Call::Draw(vec![0x20, 0x54, 0x54, 0x54, 0x78, 0x00, 0x00, 0x00]),
            Call::Draw(vec![0x7F, 0x48, 0x44, 0x44, 0x38, 0x00, 0x00, 0x00]),
        ]
    );
}

#[test]
fn write_str_goes_on_after_a_failure() {
    let mut terminal =
        TerminalMode::new(Recorder::failing_draw(DisplaySize::Display128x64, 1));
    assert!(terminal.write_str("ab").is_ok());
    assert_eq!(
        terminal.release().calls,
        vec![
            Call::Draw(vec![0x20, 0x54, 0x54, 0x54, 0x78, 0x00, 0x00, 0x00]),
            Call::Draw(vec![0x7F, 0x48, 0x44, 0x44, 0x38, 0x00, 0x00, 0x00]),
        ]
    );
}

#[test]
fn write_str_succeeds_when_every_draw_fails() {
    let mut recorder = Recorder::new(DisplaySize::Display128x64);
    recorder.failing_draws = vec![1, 2, 3];
    let mut terminal = TerminalMode::new(recorder);
    assert!(terminal.write_str("Hi!").is_ok());
    assert_eq!(
        terminal.release().drawn(),
        vec![
            vec![0x7F, 0x08, 0x08, 0x08, 0x7F, 0x00, 0x00, 0x00],
            vec![0x00, 0x44, 0x7D, 0x40, 0x00, 0x00, 0x00, 0x00],
            vec![0x00, 0x00, 0x5F, 0x00, 0x00, 0x00, 0x00, 0x00],
        ]
    );
}

#[test]
fn write_str_of_nothing_sends_nothing() {
    let mut terminal = TerminalMode::new(Recorder::new(DisplaySize::Display128x64));
    assert!(terminal.write_str("").is_ok());
    assert!(terminal.release().calls.is_empty());
}

#[test]
fn write_str_draws_one_cell_for_each_character() {
    let mut terminal = TerminalMode::new(Recorder::new(DisplaySize::Display128x64));
    assert!(terminal.write_str("a\u{e9} \u{1f600}b").is_ok());
    assert_eq!(
        terminal.release().drawn(),
        vec![
            vec![0x20, 0x54, 0x54, 0x54, 0x78, 0x00, 0x00, 0x00],
            vec![0; 8],
            vec![0; 8],
            vec![0; 8],
            vec![0x7F, 0x48, 0x44, 0x44, 0x38, 0x00, 0x00, 0x00],
        ]
    );
}

#[test]
fn write_char_goes_through_write_str() {
    let mut terminal = TerminalMode::new(Recorder::new(DisplaySize::Display128x64));
    assert!(terminal.write_char('Z').is_ok());
    assert_eq!(
        terminal.release().drawn(),
        vec![vec![0x61, 0x51, 0x49, 0x45, 0x43, 0x00, 0x00, 0x00]]
    );
}

#[test]
fn operations_reach_the_window_in_the_order_of_the_calls() {
    let mut terminal = TerminalMode::new(Recorder::new(DisplaySize::Display96x16));
    terminal.init().unwrap();
    terminal.set_rotation(DisplayRotation::Rotate180).unwrap();
    terminal.clear().unwrap();
    terminal.print_char('O').unwrap();
    terminal.flush().unwrap();
    terminal.write_str("k").unwrap();
    let mut expected = vec![
        Call::InitColumnMode,
        Call::SetRotation(DisplayRotation::Rotate180),
    ];
    expected.extend(expected_clear((96, 16), 24));
    expected.push(Call::Draw(vec![0x3E, 0x7F, 0x41, 0x41, 0x41, 0x7F, 0x3E, 0x00]));
    expected.push(Call::Draw(vec![0x00, 0x7F, 0x10, 0x28, 0x44, 0x00, 0x00, 0x00]));
    assert_eq!(terminal.release().commands(), expected);
}

#[test]
fn reset_steps_in_order() {
    let terminal = TerminalMode::new(Recorder::new(DisplaySize::Display128x64));
    assert_eq!(terminal.reset(0), Some(ResetStep::DriveHigh));
    assert_eq!(terminal.reset(1), Some(ResetStep::Wait { ms: 1 }));
    assert_eq!(terminal.reset(2), Some(ResetStep::DriveLow));
    assert_eq!(terminal.reset(3), Some(ResetStep::Wait { ms: 10 }));
    assert_eq!(terminal.reset(4), Some(ResetStep::DriveHigh));
    assert!(terminal.release().calls.is_empty());
}

#[test]
fn reset_ends_after_five_steps() {
    let terminal = TerminalMode::new(Recorder::new(DisplaySize::Display128x64));
    assert_eq!(terminal.reset(5), None);
    assert_eq!(terminal.reset(6), None);
    assert_eq!(terminal.reset(usize::MAX), None);
}

#[test]
fn reset_holds_the_pin_low_for_ten_milliseconds() {
    let terminal = TerminalMode::new(Recorder::new(DisplaySize::Display128x64));
    let mut low = false;
    let mut low_for: u32 = 0;
    let mut done = 0;
    while let Some(step) = terminal.reset(done) {
        match step {
            ResetStep::DriveHigh => low = false,
            ResetStep::DriveLow => low = true,
            ResetStep::Wait { ms } => {
                if low {
                    low_for += ms as u32;
                }
            }
        }
        done += 1;
    }
    assert_eq!(done, 5);
    assert!(!low);
    assert_eq!(low_for, 10);
}

/// A cell with every pixel of its first `0` columns lit.
struct Bar(usize);

impl CharacterBitmap<Bar> for TerminalMode<Recorder> {
    fn to_bitmap(input: Bar) -> [u8; 8] {
        let mut columns = [0; 8];
        for column in columns.iter_mut().take(input.0) {
            *column = 0x7F;
        }
        columns
    }
}

#[test]
fn print_char_draws_what_the_bitmap_of_its_argument_is() {
    let mut terminal = TerminalMode::new(Recorder::new(DisplaySize::Display128x64));
    assert_eq!(terminal.print_char(Bar(3)), Ok(()));
    assert_eq!(terminal.print_char('|'), Ok(()));
    assert_eq!(
        terminal.release().drawn(),
        vec![
            vec![0x7F, 0x7F, 0x7F, 0x00, 0x00, 0x00, 0x00, 0x00],
            vec![0x00, 0x00, 0x7F, 0x00, 0x00, 0x00, 0x00, 0x00],
        ]
    );
}

#[test]
fn print_bitmap_forwards_the_columns() {
    let mut terminal = TerminalMode::new(Recorder::new(DisplaySize::Display128x64));
    assert_eq!(terminal.print_bitmap(&[1, 2, 3, 4, 5, 6, 7, 8]), Ok(()));
    assert_eq!(
        terminal.release().calls,
        vec![Call::Draw(vec![1, 2, 3, 4, 5, 6, 7, 8])]
    );
}

#[test]
fn print_bitmap_reports_a_transport_failure() {
    let mut terminal =
        TerminalMode::new(Recorder::failing_draw(DisplaySize::Display128x64, 1));
    assert_eq!(terminal.print_bitmap(&[0xFF; 8]), Err(()));
    assert_eq!(terminal.release().calls, vec![Call::Draw(vec![0xFF; 8])]);
}
