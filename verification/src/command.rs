//! Playback commands: the immutable intents the facade sends through the
//! mailbox to the worker.

use vstd::prelude::*;

verus! {

/// One playback intent, created by the facade and consumed exactly once by
/// the worker.  `Seek` carries an absolute target position so that every
/// mutation of the engine travels through the mailbox in order.
#[derive(Debug)]
pub enum Command {
    PlayPath(String),
    Pause,
    Resume,
    SetVolume(i32),
    Seek(u64),
}

/// The spec-level value of a `Command`, with the path abstracted to its
/// character sequence.
pub enum Cmd {
    PlayPath { path: Seq<char> },
    Pause,
    Resume,
    SetVolume { level: int },
    Seek { target_secs: int },
}

impl View for Command {
    type V = Cmd;

    open spec fn view(&self) -> Cmd {
        match self {
            Command::PlayPath(p) => Cmd::PlayPath { path: p@ },
            Command::Pause => Cmd::Pause,
            Command::Resume => Cmd::Resume,
            Command::SetVolume(v) => Cmd::SetVolume { level: *v as int },
            Command::Seek(t) => Cmd::Seek { target_secs: *t as int },
        }
    }
}

} // verus!
