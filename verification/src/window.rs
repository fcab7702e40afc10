//! The addressing window that the renderer writes into, and the record of what
//! was said to it.
//!
//! The window belongs to the panel driver. It turns a drawing rectangle into
//! panel commands, takes pixel columns, and moves and wraps the cursor by
//! itself. The renderer knows nothing of how it does so, and nothing here
//! promises anything of it: an operation may fail whenever the transport
//! below it fails. What the renderer can be held to is what it asks of the
//! window, in which order, and what it does with each answer. The renderer
//! therefore reaches its window through a channel that keeps that record, as
//! a sequence of [`Exchange`]s.

use vstd::prelude::*;
use crate::displayrotation::DisplayRotation;
use crate::displaysize::DisplaySize;

verus! {

/// The operations of the panel's addressing window.
///
/// `Err(())` stands for the one kind of failure there is: the transport did
/// not carry the bytes.
pub trait AddressingWindow {
    /// The panel variant that the window was configured for.
    fn get_size(&self) -> DisplaySize;

    /// Places the window at `origin`, spanning `size` pixels, and puts the
    /// cursor at its start.
    fn set_draw_area(&mut self, origin: (u8, u8), size: (u8, u8)) -> Result<(), ()>;

    /// Streams pixel columns into the window from the cursor on. The cursor
    /// advances, and wraps at the window's edges.
    fn draw(&mut self, buffer: &[u8]) -> Result<(), ()>;

    /// Puts the panel into column addressing mode: a byte fills eight pixels
    /// of one column, top down, and columns run left to right.
    fn init_column_mode(&mut self) -> Result<(), ()>;

    /// Turns the picture on the panel.
    fn set_rotation(&mut self, rotation: DisplayRotation) -> Result<(), ()>;
}

/// Something that is sent to the window for it to act on.
pub enum Command {
    /// Enter column addressing mode.
    InitColumnMode,
    /// Turn the picture.
    SetRotation { rotation: DisplayRotation },
    /// Place the window and reset the cursor.
    SetDrawArea { origin: (u8, u8), size: (u8, u8) },
    /// Pixel columns for the cells at the cursor.
    Draw { columns: Seq<u8> },
}

/// One call of a window operation together with what came back.
pub enum Exchange {
    /// The panel variant was asked for, and the window named `size`.
    SizeQuery { size: DisplaySize },
    /// `command` was sent. `accepted` is false where the window reported a
    /// transport failure.
    Sent { command: Command, accepted: bool },
}

/// A window together with the record of every exchange made through it.
///
/// The window is reached through the channel's methods only, and each of them
/// makes exactly one call and records it, so the record is complete.
pub(crate) struct Channel<W> {
    window: W,
    record: Ghost<Seq<Exchange>>,
}

impl<W: AddressingWindow> Channel<W> {
    /// The window at the end of the channel.
    pub closed spec fn window(&self) -> W {
        self.window
    }

    /// The exchanges made through the channel since it was opened, oldest
    /// first.
    pub closed spec fn record(&self) -> Seq<Exchange> {
        self.record@
    }

    /// Opens a channel to `window`. Nothing is said to the window.
    pub(crate) fn open(window: W) -> (channel: Self)
        ensures
            channel.window() == window,
            channel.record() == Seq::<Exchange>::empty(),
    {
        Channel { window, record: Ghost(Seq::empty()) }
    }

    /// Gives the window back. Nothing is said to it.
    pub(crate) fn close(self) -> (window: W)
        ensures
            window == self.window(),
    {
        self.window
    }

    /// Asks the window for the panel variant.
    pub(crate) fn get_size(&mut self) -> (size: DisplaySize)
        ensures
            final(self).record() == old(self).record().push(Exchange::SizeQuery { size }),
            final(self).window() == old(self).window(),
    {
        let size = self.window.get_size();
        proof {
            self.record@ = self.record@.push(Exchange::SizeQuery { size });
        }
        size
    }

    /// Sends `Command::SetDrawArea`.
    pub(crate) fn set_draw_area(&mut self, origin: (u8, u8), size: (u8, u8)) -> (outcome: Result<(), ()>)
        ensures
            final(self).record() == old(self).record().push(
                Exchange::Sent {
                    command: Command::SetDrawArea { origin, size },
                    accepted: outcome is Ok,
                },
            ),
    {
        let outcome = self.window.set_draw_area(origin, size);
        proof {
            self.record@ = self.record@.push(
                Exchange::Sent {
                    command: Command::SetDrawArea { origin, size },
                    accepted: outcome is Ok,
                },
            );
        }
        outcome
    }

    /// Sends `Command::Draw` with the bytes of `buffer`.
    pub(crate) fn draw(&mut self, buffer: &[u8]) -> (outcome: Result<(), ()>)
        ensures
            final(self).record() == old(self).record().push(
                Exchange::Sent {
                    command: Command::Draw { columns: buffer@ },
                    accepted: outcome is Ok,
                },
            ),
    {
        let outcome = self.window.draw(buffer);
        proof {
            self.record@ = self.record@.push(
                Exchange::Sent {
                    command: Command::Draw { columns: buffer@ },
                    accepted: outcome is Ok,
                },
            );
        }
        outcome
    }

    /// Sends `Command::InitColumnMode`.
    pub(crate) fn init_column_mode(&mut self) -> (outcome: Result<(), ()>)
        ensures
            final(self).record() == old(self).record().push(
                Exchange::Sent { command: Command::InitColumnMode, accepted: outcome is Ok },
            ),
    {
        let outcome = self.window.init_column_mode();
        proof {
            self.record@ = self.record@.push(
                Exchange::Sent { command: Command::InitColumnMode, accepted: outcome is Ok },
            );
        }
        outcome
    }

    /// Sends `Command::SetRotation`.
    pub(crate) fn set_rotation(&mut self, rotation: DisplayRotation) -> (outcome: Result<(), ()>)
        ensures
            final(self).record() == old(self).record().push(
                Exchange::Sent {
                    command: Command::SetRotation { rotation },
                    accepted: outcome is Ok,
                },
            ),
    {
        let outcome = self.window.set_rotation(rotation);
        proof {
            self.record@ = self.record@.push(
                Exchange::Sent {
                    command: Command::SetRotation { rotation },
                    accepted: outcome is Ok,
                },
            );
        }
        outcome
    }
}

} // verus!
