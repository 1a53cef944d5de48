//! The event loop's decisions: what a key press does to the dashboard.
//!
//! The loop is either running or terminated. While it runs it draws the
//! table, waits for one key, and hands the key to `step`. Once terminated it
//! stays so.

use vstd::prelude::*;
use crate::selection::{advance, retreat, App, AppView};

verus! {

/// A key press, as far as the dashboard tells keys apart.
#[derive(Clone, Copy, Debug, PartialEq, Eq, Structural)]
pub enum Key {
    /// A character key.
    Char(char),
    /// The arrow up.
    Up,
    /// The arrow down.
    Down,
    /// Any other key or event.
    Other,
}

/// The state of the event loop.
#[derive(Clone, Copy, Debug, PartialEq, Eq, Structural)]
pub enum Phase {
    Running,
    Terminated,
}

/// What a key asks for.
#[derive(Clone, Copy, Debug, PartialEq, Eq, Structural)]
pub enum Command {
    /// End the loop.
    Quit,
    /// Select the next runner.
    Next,
    /// Select the previous runner.
    Previous,
    /// Nothing.
    Ignore,
}

/// The command of a key: `q` quits, the arrow down and `j` select the next
/// runner, the arrow up and `k` the previous one. Every other key is
/// ignored.
pub open spec fn command_of(key: Key) -> Command {
    match key {
        Key::Char(c) => if c == 'q' {
            Command::Quit
        } else if c == 'j' {
            Command::Next
        } else if c == 'k' {
            Command::Previous
        } else {
            Command::Ignore
        },
        Key::Up => Command::Previous,
        Key::Down => Command::Next,
        Key::Other => Command::Ignore,
    }
}

/// The dashboard and the phase after a key has arrived in the given phase.
pub open spec fn transition(phase: Phase, app: AppView, key: Key) -> (Phase, AppView) {
    match phase {
        Phase::Terminated => (Phase::Terminated, app),
        Phase::Running => match command_of(key) {
            Command::Quit => (Phase::Terminated, app),
            Command::Next => (
                Phase::Running,
                AppView { cursor: advance(app.cursor, app.runners.len()), runners: app.runners },
            ),
            Command::Previous => (
                Phase::Running,
                AppView { cursor: retreat(app.cursor, app.runners.len()), runners: app.runners },
            ),
            Command::Ignore => (Phase::Running, app),
        },
    }
}

impl Key {
    /// The command of this key.
    pub fn command(self) -> (command: Command)
        ensures
            command == command_of(self),
    {
        match self {
            Key::Char(c) => if c == 'q' {
                Command::Quit
            } else if c == 'j' {
                Command::Next
            } else if c == 'k' {
                Command::Previous
            } else {
                Command::Ignore
            },
            Key::Up => Command::Previous,
            Key::Down => Command::Next,
            Key::Other => Command::Ignore,
        }
    }
}

/// Handles one key: moves the cursor or ends the loop as the key commands,
/// and gives the phase in which the loop goes on.
pub fn step(phase: Phase, app: &mut App, key: Key) -> (next: Phase)
    ensures
        (next, final(app)@) == transition(phase, old(app)@, key),
        final(app)@.valid(),
{
    match phase {
        Phase::Terminated => {
            let _ = app.selected();
            Phase::Terminated
        },
        Phase::Running => match key.command() {
            Command::Quit => {
                let _ = app.selected();
                Phase::Terminated
            },
            Command::Next => {
                app.next();
                Phase::Running
            },
            Command::Previous => {
                app.previous();
                Phase::Running
            },
            Command::Ignore => {
                let _ = app.selected();
                Phase::Running
            },
        },
    }
}

/// A terminated loop stays terminated, and no key changes the dashboard any
/// more.
pub proof fn lemma_terminated_is_final(app: AppView, key: Key)
    ensures
        transition(Phase::Terminated, app, key) == (Phase::Terminated, app),
{
}

} // verus!
