//! Unbuffered terminal mode.
//!
//! Characters are written from the top left of the panel to the bottom right,
//! one 8x8 cell each. Nothing is buffered: a character becomes eight column
//! bytes, and those go to the panel's addressing window at once. The window
//! moves the cursor and wraps it at the end of a row and at the last cell, so
//! the renderer keeps no position of its own.
//!
//! What an operation asks of the window is stated over the renderer's
//! [`history`](TerminalMode::history): an operation appends to it the
//! exchanges that it made, and nothing else ever changes it.

use vstd::prelude::*;
use crate::displayrotation::DisplayRotation;
use crate::displaysize::DisplaySize;
use crate::font::{blank_glyph, glyph, has_glyph};
use crate::window::{AddressingWindow, Channel, Command, Exchange};

verus! {

/// A trait to convert from a character to 8x8 bitmap.
pub trait CharacterBitmap<T> {
    /// Turn input of type T into a displayable 8x8 bitmap.
    fn to_bitmap(input: T) -> [u8; 8];
}

/// How many glyph cells a clear fills on a panel of `size`, for the panels
/// that the renderer has a layout for.
///
/// The number belongs to the layout and not to the pixel geometry: the two
/// panels of 128 by 32 pixels differ in it.
pub open spec fn glyph_cells(size: DisplaySize) -> Option<u8> {
    match size {
        DisplaySize::Display128x64 => Some(128u8),
        DisplaySize::Display128x32 => Some(64u8),
        DisplaySize::Display96x16 => Some(24u8),
        DisplaySize::Quirk128x32 => None,
    }
}

/// The number of glyph cells that a clear fills, or `None` for a panel that
/// the renderer has no layout for.
pub fn glyph_capacity(size: DisplaySize) -> (cells: Option<u8>)
    ensures
        cells == glyph_cells(size),
{
    match size {
        DisplaySize::Display128x64 => Some(128),
        DisplaySize::Display128x32 => Some(64),
        DisplaySize::Display96x16 => Some(24),
        DisplaySize::Quirk128x32 => None,
    }
}

/// The exchange in which `command` was sent and the window accepted it or
/// not.
pub open spec fn sent(command: Command, accepted: bool) -> Exchange {
    Exchange::Sent { command, accepted }
}

/// Whether `exchange` is a draw of exactly `columns`, accepted or not.
pub open spec fn is_draw_of(exchange: Exchange, columns: Seq<u8>) -> bool {
    exchange is Sent && exchange->command == (Command::Draw { columns })
}

/// Whether `run` carries out `plan` from its start, in order, and stops at the
/// first command that the window does not accept.
///
/// With `success`, the whole plan was sent and accepted. Without it, `run`
/// ends with the one command that failed, and no command after it was sent.
pub open spec fn carried_out(run: Seq<Exchange>, plan: Seq<Command>, success: bool) -> bool {
    &&& run.len() <= plan.len()
    &&& success ==> run.len() == plan.len()
    &&& !success ==> run.len() >= 1
    &&& forall|i: int|
        0 <= i < run.len() ==> #[trigger] run[i] == sent(plan[i], i + 1 < run.len() || success)
}

/// What a clear sends for a panel of `size` with `cells` glyph cells: the
/// window is placed at (6, 32) over the whole panel, then each cell gets a
/// blank glyph.
pub open spec fn clear_commands(size: DisplaySize, cells: nat) -> Seq<Command> {
    seq![Command::SetDrawArea { origin: (6u8, 32u8), size: size.pixel_dimensions() }] + Seq::new(
        cells,
        |i: int| Command::Draw { columns: blank_glyph() },
    )
}

/// Whether `run` is what one clear exchanges with the window, `success`
/// being what the clear returns.
///
/// The clear asks for the panel variant once. For a panel without a layout it
/// then fails with nothing sent. Otherwise it carries out
/// [`clear_commands`] and fails where the window does.
pub open spec fn clear_run(run: Seq<Exchange>, success: bool) -> bool {
    &&& run.len() >= 1
    &&& run[0] is SizeQuery
    &&& match glyph_cells(run[0]->size) {
        Some(cells) => carried_out(
            run.skip(1),
            clear_commands(run[0]->size, cells as nat),
            success,
        ),
        None => run.len() == 1 && !success,
    }
}

/// Whether `run` draws the glyphs of `text`, one draw for each character, in
/// the order of the text, whatever the window answered to each.
pub open spec fn text_run(run: Seq<Exchange>, text: Seq<char>) -> bool {
    &&& run.len() == text.len()
    &&& forall|i: int| 0 <= i < run.len() ==> is_draw_of(#[trigger] run[i], glyph(text[i]))
}

/// One step of the panel's hardware reset.
#[derive(Clone, Copy, Debug, PartialEq, Eq, Structural)]
pub enum ResetStep {
    /// Drive the reset pin high.
    DriveHigh,
    /// Drive the reset pin low.
    DriveLow,
    /// Leave the pin as it is for `ms` milliseconds.
    Wait { ms: u8 },
}

/// The hardware reset: the pin goes high, after 1 ms low, and after 10 ms of
/// low high again.
pub open spec fn reset_protocol() -> Seq<ResetStep> {
    seq![
        ResetStep::DriveHigh,
        ResetStep::Wait { ms: 1 },
        ResetStep::DriveLow,
        ResetStep::Wait { ms: 10 },
        ResetStep::DriveHigh,
    ]
}

/// Terminal mode handler.
pub struct TerminalMode<W> {
    properties: Channel<W>,
}

/// The 7x7 font, see [`glyph`].
impl<W: AddressingWindow> CharacterBitmap<char> for TerminalMode<W> {
    fn to_bitmap(input: char) -> (columns: [u8; 8])
        ensures
            columns@ == glyph(input),
            !has_glyph(input) ==> columns@ == blank_glyph(),
    {
        match input {
            '!' => [0x00, 0x00, 0x5F, 0x00, 0x00, 0x00, 0x00, 0x00],
            '"' => [0x00, 0x07, 0x00, 0x07, 0x00, 0x00, 0x00, 0x00],
            '#' => [0x14, 0x7F, 0x14, 0x7F, 0x14, 0x00, 0x00, 0x00],
            '$' => [0x24, 0x2A, 0x7F, 0x2A, 0x12, 0x00, 0x00, 0x00],
            '%' => [0x23, 0x13, 0x08, 0x64, 0x62, 0x00, 0x00, 0x00],
            '&' => [0x36, 0x49, 0x55, 0x22, 0x50, 0x00, 0x00, 0x00],
            '\'' => [0x00, 0x05, 0x03, 0x00, 0x00, 0x00, 0x00, 0x00],
            '(' => [0x00, 0x1C, 0x22, 0x41, 0x00, 0x00, 0x00, 0x00],
            ')' => [0x00, 0x41, 0x22, 0x1C, 0x00, 0x00, 0x00, 0x00],
            '*' => [0x08, 0x2A, 0x1C, 0x2A, 0x08, 0x00, 0x00, 0x00],
            '+' => [0x08, 0x08, 0x3E, 0x08, 0x08, 0x00, 0x00, 0x00],
            ',' => [0x00, 0x50, 0x30, 0x00, 0x00, 0x00, 0x00, 0x00],
            '-' => [0x00, 0x18, 0x18, 0x18, 0x18, 0x18, 0x00, 0x00],
            '.' => [0x00, 0x60, 0x60, 0x00, 0x00, 0x00, 0x00, 0x00],
            '/' => [0x20, 0x10, 0x08, 0x04, 0x02, 0x00, 0x00, 0x00],
            '0' => [0x1C, 0x3E, 0x61, 0x41, 0x43, 0x3E, 0x1C, 0x00],
            '1' => [0x40, 0x42, 0x7F, 0x7F, 0x40, 0x40, 0x00, 0x00],
            '2' => [0x62, 0x73, 0x79, 0x59, 0x5D, 0x4F, 0x46, 0x00],
            '3' => [0x20, 0x61, 0x49, 0x4D, 0x4F, 0x7B, 0x31, 0x00],
            '4' => [0x18, 0x1C, 0x16, 0x13, 0x7F, 0x7F, 0x10, 0x00],
            '5' => [0x27, 0x67, 0x45, 0x45, 0x45, 0x7D, 0x38, 0x00],
            '6' => [0x3C, 0x7E, 0x4B, 0x49, 0x49, 0x79, 0x30, 0x00],
            '7' => [0x03, 0x03, 0x71, 0x79, 0x0D, 0x07, 0x03, 0x00],
            '8' => [0x36, 0x7F, 0x49, 0x49, 0x49, 0x7F, 0x36, 0x00],
            '9' => [0x06, 0x4F, 0x49, 0x49, 0x69, 0x3F, 0x1E, 0x00],
            ':' => [0x00, 0x36, 0x36, 0x00, 0x00, 0x00, 0x00, 0x00],
            ';' => [0x00, 0x56, 0x36, 0x00, 0x00, 0x00, 0x00, 0x00],
            '<' => [0x00, 0x08, 0x14, 0x22, 0x41, 0x00, 0x00, 0x00],
            '=' => [0x14, 0x14, 0x14, 0x14, 0x14, 0x00, 0x00, 0x00],
            '>' => [0x41, 0x22, 0x14, 0x08, 0x00, 0x00, 0x00, 0x00],
            '?' => [0x02, 0x01, 0x51, 0x09, 0x06, 0x00, 0x00, 0x00],
            '@' => [0x32, 0x49, 0x79, 0x41, 0x3E, 0x00, 0x00, 0x00],
            'A' => [0x7E, 0x11, 0x11, 0x11, 0x7E, 0x00, 0x00, 0x00],
            'B' => [0x7F, 0x49, 0x49, 0x49, 0x36, 0x00, 0x00, 0x00],
            'C' => [0x3E, 0x41, 0x41, 0x41, 0x22, 0x00, 0x00, 0x00],
            'D' => [0x7F, 0x7F, 0x41, 0x41, 0x63, 0x3E, 0x1C, 0x00],
            'E' => [0x7F, 0x49, 0x49, 0x49, 0x41, 0x00, 0x00, 0x00],
            'F' => [0x7F, 0x09, 0x09, 0x01, 0x01, 0x00, 0x00, 0x00],
            'G' => [0x3E, 0x41, 0x41, 0x51, 0x32, 0x00, 0x00, 0x00],
            'H' => [0x7F, 0x08, 0x08, 0x08, 0x7F, 0x00, 0x00, 0x00],
            'I' => [0x00, 0x41, 0x7F, 0x41, 0x00, 0x00, 0x00, 0x00],
            'J' => [0x20, 0x40, 0x41, 0x3F, 0x01, 0x00, 0x00, 0x00],
            'K' => [0x7F, 0x08, 0x14, 0x22, 0x41, 0x00, 0x00, 0x00],
            'L' => [0x7F, 0x7F, 0x40, 0x40, 0x40, 0x40, 0x00, 0x00],
            'M' => [0x7F, 0x02, 0x04, 0x02, 0x7F, 0x00, 0x00, 0x00],
            'N' => [0x7F, 0x04, 0x08, 0x10, 0x7F, 0x00, 0x00, 0x00],
            'O' => [0x3E, 0x7F, 0x41, 0x41, 0x41, 0x7F, 0x3E, 0x00],
            'P' => [0x7F, 0x09, 0x09, 0x09, 0x06, 0x00, 0x00, 0x00],
            'Q' => [0x3E, 0x41, 0x51, 0x21, 0x5E, 0x00, 0x00, 0x00],
            'R' => [0x7F, 0x7F, 0x11, 0x31, 0x79, 0x6F, 0x4E, 0x00],
            'S' => [0x46, 0x49, 0x49, 0x49, 0x31, 0x00, 0x00, 0x00],
            'T' => [0x01, 0x01, 0x7F, 0x01, 0x01, 0x00, 0x00, 0x00],
            'U' => [0x3F, 0x40, 0x40, 0x40, 0x3F, 0x00, 0x00, 0x00],
            'V' => [0x1F, 0x20, 0x40, 0x20, 0x1F, 0x00, 0x00, 0x00],
            'W' => [0x7F, 0x7F, 0x38, 0x1C, 0x38, 0x7F, 0x7F, 0x00],
            'X' => [0x63, 0x14, 0x08, 0x14, 0x63, 0x00, 0x00, 0x00],
            'Y' => [0x03, 0x04, 0x78, 0x04, 0x03, 0x00, 0x00, 0x00],
            'Z' => [0x61, 0x51, 0x49, 0x45, 0x43, 0x00, 0x00, 0x00],
            '[' => [0x00, 0x00, 0x7F, 0x41, 0x41, 0x00, 0x00, 0x00],
            '\\' => [0x02, 0x04, 0x08, 0x10, 0x20, 0x00, 0x00, 0x00],
            ']' => [0x41, 0x41, 0x7F, 0x00, 0x00, 0x00, 0x00, 0x00],
            '^' => [0x04, 0x02, 0x01, 0x02, 0x04, 0x00, 0x00, 0x00],
            '_' => [0x40, 0x40, 0x40, 0x40, 0x40, 0x00, 0x00, 0x00],
            '`' => [0x00, 0x01, 0x02, 0x04, 0x00, 0x00, 0x00, 0x00],
            'a' => [0x20, 0x54, 0x54, 0x54, 0x78, 0x00, 0x00, 0x00],
            'b' => [0x7F, 0x48, 0x44, 0x44, 0x38, 0x00, 0x00, 0x00],
            'c' => [0x38, 0x44, 0x44, 0x44, 0x20, 0x00, 0x00, 0x00],
            'd' => [0x38, 0x44, 0x44, 0x48, 0x7F, 0x00, 0x00, 0x00],
            'e' => [0x38, 0x54, 0x54, 0x54, 0x18, 0x00, 0x00, 0x00],
            'f' => [0x08, 0x7E, 0x09, 0x01, 0x02, 0x00, 0x00, 0x00],
            'g' => [0x08, 0x14, 0x54, 0x54, 0x3C, 0x00, 0x00, 0x00],
            'h' => [0x7F, 0x08, 0x04, 0x04, 0x78, 0x00, 0x00, 0x00],
            'i' => [0x00, 0x44, 0x7D, 0x40, 0x00, 0x00, 0x00, 0x00],
            'j' => [0x20, 0x40, 0x44, 0x3D, 0x00, 0x00, 0x00, 0x00],
            'k' => [0x00, 0x7F, 0x10, 0x28, 0x44, 0x00, 0x00, 0x00],
            'l' => [0x00, 0x41, 0x7F, 0x40, 0x00, 0x00, 0x00, 0x00],
            'm' => [0x7C, 0x04, 0x18, 0x04, 0x78, 0x00, 0x00, 0x00],
            'n' => [0x7C, 0x08, 0x04, 0x04, 0x78, 0x00, 0x00, 0x00],
            'o' => [0x38, 0x44, 0x44, 0x44, 0x38, 0x00, 0x00, 0x00],
            'p' => [0x7C, 0x14, 0x14, 0x14, 0x08, 0x00, 0x00, 0x00],
            'q' => [0x08, 0x14, 0x14, 0x18, 0x7C, 0x00, 0x00, 0x00],
            'r' => [0x7C, 0x08, 0x04, 0x04, 0x08, 0x00, 0x00, 0x00],
            's' => [0x48, 0x54, 0x54, 0x54, 0x20, 0x00, 0x00, 0x00],
            't' => [0x04, 0x3F, 0x44, 0x40, 0x20, 0x00, 0x00, 0x00],
            'u' => [0x3C, 0x40, 0x40, 0x20, 0x7C, 0x00, 0x00, 0x00],
            'v' => [0x1C, 0x20, 0x40, 0x20, 0x1C, 0x00, 0x00, 0x00],
            'w' => [0x3C, 0x40, 0x30, 0x40, 0x3C, 0x00, 0x00, 0x00],
            'x' => [0x00, 0x44, 0x28, 0x10, 0x28, 0x44, 0x00, 0x00],
            'y' => [0x0C, 0x50, 0x50, 0x50, 0x3C, 0x00, 0x00, 0x00],
            'z' => [0x44, 0x64, 0x54, 0x4C, 0x44, 0x00, 0x00, 0x00],
            '{' => [0x00, 0x08, 0x36, 0x41, 0x00, 0x00, 0x00, 0x00],
            '|' => [0x00, 0x00, 0x7F, 0x00, 0x00, 0x00, 0x00, 0x00],
            '}' => [0x00, 0x41, 0x36, 0x08, 0x00, 0x00, 0x00, 0x00],
            _ => [0x00, 0x00, 0x00, 0x00, 0x00, 0x00, 0x00, 0x00],
        }
    }
}

impl<W: AddressingWindow> TerminalMode<W> {
    /// The addressing window that the renderer holds.
    pub closed spec fn window(&self) -> W {
        self.properties.window()
    }

    /// Every exchange that the renderer has had with its window since
    /// [`new`](Self::new), oldest first.
    pub closed spec fn history(&self) -> Seq<Exchange> {
        self.properties.record()
    }

    /// Whether [`init`](Self::init) has succeeded on this renderer.
    pub open spec fn is_ready(&self) -> bool {
        self.history().contains(sent(Command::InitColumnMode, true))
    }

    /// Whether `self` is `earlier` after some more exchanges: nothing that
    /// `earlier` had exchanged is gone or changed.
    pub open spec fn continues(&self, earlier: &Self) -> bool {
        earlier.history().is_prefix_of(self.history())
    }

    /// The exchanges that `self` has had beyond those of `earlier`.
    pub open spec fn since(&self, earlier: &Self) -> Seq<Exchange>
        recommends
            self.continues(earlier),
    {
        self.history().skip(earlier.history().len() as int)
    }

    /// Whether `self` is `earlier` after exactly one more exchange: `columns`
    /// were sent to be drawn, and the window accepted them or not.
    pub open spec fn drew(&self, earlier: &Self, columns: Seq<u8>, accepted: bool) -> bool {
        self.history() == earlier.history().push(sent(Command::Draw { columns }, accepted))
    }

    /// Takes the window over. Nothing is sent to it.
    pub fn new(properties: W) -> (terminal: Self)
        ensures
            terminal.window() == properties,
            terminal.history() == Seq::<Exchange>::empty(),
    {
        TerminalMode { properties: Channel::open(properties) }
    }

    /// Hands the window back. Nothing is sent to it.
    pub fn release(self) -> (properties: W)
        ensures
            properties == self.window(),
    {
        self.properties.close()
    }

    /// Clear the display.
    ///
    /// The window is placed anew, so that printing starts from a known
    /// position afterwards, and every glyph cell of the panel is then
    /// overwritten with a blank glyph. The first failure ends the clear and is
    /// returned; cells not yet reached keep what they showed. On a panel that
    /// the renderer has no layout for, nothing is sent and the clear fails.
    pub fn clear(&mut self) -> (outcome: Result<(), ()>)
        ensures
            final(self).continues(old(self)),
            clear_run(final(self).since(old(self)), outcome is Ok),
    {
        let ghost before = self.history();
        let size = self.properties.get_size();
        let cells: u8 = match glyph_capacity(size) {
            Some(cells) => cells,
            None => {
                assert(self.history().skip(before.len() as int) == seq![
                    Exchange::SizeQuery { size },
                ]);
                return Err(());
            },
        };
        let ghost asked = before.push(Exchange::SizeQuery { size });
        let ghost plan = clear_commands(size, cells as nat);
        let (display_width, display_height) = size.dimensions();
        // Reset position so we don't end up in some random place of our cleared screen
        match self.properties.set_draw_area((6, 32), (display_width, display_height)) {
            Ok(()) => {},
            Err(e) => {
                proof {
                    lemma_clear_run(before, self.history(), size, cells, 0, false);
                }
                return Err(e);
            },
        }
        let blank: [u8; 8] = [0; 8];
        assert(blank@ == blank_glyph());
        let mut filled: u8 = 0;
        while filled < cells
            invariant
                filled <= cells,
                blank@ == blank_glyph(),
                glyph_cells(size) == Some(cells),
                plan == clear_commands(size, cells as nat),
                before == old(self).history(),
                asked == before.push(Exchange::SizeQuery { size }),
                self.history() == asked + accepted(plan, 1 + filled as nat),
            decreases cells - filled,
        {
            match self.properties.draw(&blank) {
                Ok(()) => {},
                Err(e) => {
                    proof {
                        lemma_clear_run(before, self.history(), size, cells, 1 + filled as nat, false);
                    }
                    return Err(e);
                },
            }
            assert(accepted(plan, 2 + filled as nat) == accepted(plan, 1 + filled as nat).push(
                sent(Command::Draw { columns: blank_glyph() }, true),
            ));
            filled += 1;
        }
        proof {
            lemma_clear_run(before, self.history(), size, cells, 1 + cells as nat, true);
        }
        Ok(())
    }

    /// Reset display, one step at a time.
    ///
    /// The renderer reaches neither the reset pin nor a clock, so its caller
    /// performs the reset: it asks for the step that follows when `done` steps
    /// have been performed, starting with `done` at 0, carries it out, and
    /// goes on until the answer is `None`.
    pub fn reset(&self, done: usize) -> (step: Option<ResetStep>)
        ensures
            step == (if done < reset_protocol().len() {
                Some(reset_protocol()[done as int])
            } else {
                None
            }),
    {
        match done {
            0 => Some(ResetStep::DriveHigh),
            1 => Some(ResetStep::Wait { ms: 1 }),
            2 => Some(ResetStep::DriveLow),
            3 => Some(ResetStep::Wait { ms: 10 }),
            4 => Some(ResetStep::DriveHigh),
            _ => None,
        }
    }

    /// Write out data to display. This is a noop in terminal mode: every
    /// character went out when it was printed.
    pub fn flush(&mut self) -> (outcome: Result<(), ()>)
        ensures
            outcome is Ok,
            *final(self) == *old(self),
    {
        Ok(())
    }

    /// Print a character to the display, at the cursor.
    pub fn print_char<T>(&mut self, c: T) -> (outcome: Result<(), ()>)
        where
            TerminalMode<W>: CharacterBitmap<T>,
        ensures
            exists|columns: [u8; 8]| #[trigger]
                call_ensures(<TerminalMode<W> as CharacterBitmap<T>>::to_bitmap, (c,), columns)
                    && final(self).drew(old(self), columns@, outcome is Ok),
            final(self).continues(old(self)),
    {
        // Send the pixel data to the display
        let columns = Self::to_bitmap(c);
        self.print_bitmap(&columns)
    }

    /// Print an 8x8 bitmap to the display, at the cursor: `columns` are its
    /// pixel columns from left to right.
    pub fn print_bitmap(&mut self, columns: &[u8; 8]) -> (outcome: Result<(), ()>)
        ensures
            final(self).drew(old(self), columns@, outcome is Ok),
            final(self).continues(old(self)),
    {
        self.properties.draw(columns)
    }

    /// Initialise the display in column mode (i.e. a byte walks down a column of 8 pixels) with
    /// column 0 on the left and column _(display_width - 1)_ on the right.
    pub fn init(&mut self) -> (outcome: Result<(), ()>)
        ensures
            final(self).history() == old(self).history().push(
                sent(Command::InitColumnMode, outcome is Ok),
            ),
            final(self).continues(old(self)),
            outcome is Ok ==> final(self).is_ready(),
    {
        let outcome = self.properties.init_column_mode();
        assert(outcome is Ok ==> self.history().last() == sent(Command::InitColumnMode, true));
        outcome
    }

    /// Set the display rotation.
    pub fn set_rotation(&mut self, rot: DisplayRotation) -> (outcome: Result<(), ()>)
        ensures
            final(self).history() == old(self).history().push(
                sent(Command::SetRotation { rotation: rot }, outcome is Ok),
            ),
            final(self).continues(old(self)),
    {
        self.properties.set_rotation(rot)
    }

    /// A renderer stays ready: whatever is exchanged after a successful
    /// [`init`](Self::init), the renderer that `self` has become is ready if
    /// `earlier` was.
    pub proof fn lemma_ready_is_kept(&self, earlier: &Self)
        requires
            earlier.is_ready(),
            self.continues(earlier),
        ensures
            self.is_ready(),
    {
        let ready = sent(Command::InitColumnMode, true);
        let i = choose|i: int| 0 <= i < earlier.history().len() && earlier.history()[i] == ready;
        assert(self.history()[i] == ready);
    }
}

/// A clear that succeeds has asked for the panel variant once, has placed the
/// window once, at (6, 32) and over the whole panel, and has then drawn the
/// blank glyph once for each glyph cell of the panel: no more, no fewer, and
/// nothing else.
pub proof fn lemma_complete_clear(run: Seq<Exchange>)
    requires
        clear_run(run, true),
    ensures
        run[0] is SizeQuery,
        glyph_cells(run[0]->size) is Some,
        run.len() == 2 + glyph_cells(run[0]->size)->0,
        run[1] == sent(
            Command::SetDrawArea { origin: (6u8, 32u8), size: run[0]->size.pixel_dimensions() },
            true,
        ),
        forall|i: int|
            2 <= i < run.len() ==> #[trigger] run[i] == sent(
                Command::Draw { columns: blank_glyph() },
                true,
            ),
{
    let rest = run.skip(1);
    assert(run[1] == rest[0]);
    assert forall|i: int| 2 <= i < run.len() implies #[trigger] run[i] == sent(
        Command::Draw { columns: blank_glyph() },
        true,
    ) by {
        assert(run[i] == rest[i - 1]);
    }
}

/// A clear ends with the first command that the window refuses: the clear
/// fails, and the refused command is the last thing that it sent.
pub proof fn lemma_clear_ends_at_failure(run: Seq<Exchange>, success: bool, at: int)
    requires
        clear_run(run, success),
        0 <= at < run.len(),
        run[at] is Sent,
        !run[at]->accepted,
    ensures
        !success,
        at == run.len() - 1,
{
    let rest = run.skip(1);
    assert(run[at] == rest[at - 1]);
}

/// A clear that fails on a panel with a layout has sent a command that the
/// window refused, so it never fails by itself.
pub proof fn lemma_failed_clear(run: Seq<Exchange>)
    requires
        clear_run(run, false),
        glyph_cells(run[0]->size) is Some,
    ensures
        run.len() >= 2,
        run.last() is Sent,
        !run.last()->accepted,
{
    let rest = run.skip(1);
    assert(run.last() == rest[rest.len() - 1]);
}

/// Text is drawn in reading order: the draw at position `i` of a run shows
/// the character at position `i` of the text, whether or not earlier draws
/// were accepted.
pub proof fn lemma_text_in_order(run: Seq<Exchange>, text: Seq<char>, i: int)
    requires
        text_run(run, text),
        0 <= i < text.len(),
    ensures
        run[i] is Sent,
        run[i]->command == (Command::Draw { columns: glyph(text[i]) }),
{
}

/// The first `count` commands of `plan`, each sent and accepted.
spec fn accepted(plan: Seq<Command>, count: nat) -> Seq<Exchange> {
    Seq::new(count, |i: int| sent(plan[i], true))
}

/// A history that grew from `before` by the size query, `count` accepted
/// commands of the clear and, without `success`, the next one refused, grew
/// by a run of a clear.
proof fn lemma_clear_run(
    before: Seq<Exchange>,
    after: Seq<Exchange>,
    size: DisplaySize,
    cells: u8,
    count: nat,
    success: bool,
)
    requires
        glyph_cells(size) == Some(cells),
        count <= 1 + cells,
        success ==> count == 1 + cells,
        !success ==> count <= cells,
        after == ({
            let plan = clear_commands(size, cells as nat);
            let asked = before.push(Exchange::SizeQuery { size });
            if success {
                asked + accepted(plan, count)
            } else {
                (asked + accepted(plan, count)).push(sent(plan[count as int], false))
            }
        }),
    ensures
        before.is_prefix_of(after),
        clear_run(after.skip(before.len() as int), success),
{
    let plan = clear_commands(size, cells as nat);
    let run = after.skip(before.len() as int);
    assert(run[0] == Exchange::SizeQuery { size });
    let rest = run.skip(1);
    assert forall|i: int| 0 <= i < rest.len() implies #[trigger] rest[i] == sent(
        plan[i],
        i + 1 < rest.len() || success,
    ) by {
        assert(rest[i] == after[before.len() + 1 + i]);
    }
    assert(carried_out(rest, plan, success));
}

/// The formatter's error. The renderer returns it from no operation; the type
/// is named because `core::fmt::Write` has it in its signatures. Nothing is
/// claimed of its values.
#[verifier::external_type_specification]
#[verifier::external_body]
pub struct ExFmtError(core::fmt::Error);

/// Formatted output goes to the panel character by character.
impl<W: AddressingWindow> core::fmt::Write for TerminalMode<W> {
    /// Prints each character of `s` in order.
    ///
    /// A character that the window does not accept is passed over: the
    /// characters after it are still printed, and the call succeeds.
    fn write_str(&mut self, s: &str) -> (outcome: Result<(), core::fmt::Error>)
        ensures
            outcome is Ok,
            final(self).continues(old(self)),
            text_run(final(self).since(old(self)), s@),
    {
        let ghost before = self.history();
        let ghost mut run = Seq::<Exchange>::empty();
        for c in it: s.chars()
            invariant
                it.seq() == s@,
                before == old(self).history(),
                self.history() == before + run,
                text_run(run, s@.take(it.index() as int)),
        {
            let printed = self.print_char(c);
            proof {
                run = run.push(sent(Command::Draw { columns: glyph(c) }, printed is Ok));
            }
        }
        assert(self.history().skip(before.len() as int) == run);
        assert(s@.take(s@.len() as int) == s@);
        Ok(())
    }
}

} // verus!
