//! The playback worker's dispatch table: the decision part of the worker's
//! poll loop.  The loop itself (receive, perform, sleep) runs outside the
//! library next to the native engine; this module decides, for each command
//! taken from the mailbox, which engine operation to perform.

use crate::command::{Cmd, Command};
use crate::player::{clamped_volume, Vlc};
use vstd::prelude::*;

verus! {

/// One operation on the backend adapter.  The worker performs these against
/// the native engine, in the order the commands were sent.
#[derive(Debug)]
pub enum EngineOp {
    /// Replace the current media with this file and play it from time zero.
    Load(String),
    /// Set the engine's paused flag.
    SetPause(bool),
    /// Apply this volume level, already clamped into 0 ..= 100.
    SetVolume(i32),
    /// Move the play cursor to this absolute position in seconds.
    SeekTo(u64),
}

/// The dispatch table as a relation: `op` is the engine operation that the
/// command `c` must turn into.
pub open spec fn op_for(c: Cmd, op: EngineOp) -> bool {
    match c {
        Cmd::PlayPath { path } => op matches EngineOp::Load(p) && p@ == path,
        Cmd::Pause => op == EngineOp::SetPause(true),
        Cmd::Resume => op == EngineOp::SetPause(false),
        Cmd::SetVolume { level } => (op matches EngineOp::SetVolume(v) && v == clamped_volume(
            level,
        )),
        Cmd::Seek { target_secs } => op matches EngineOp::SeekTo(t) && t == target_secs,
    }
}

/// Maps one command to the engine operation it stands for.  The volume is
/// clamped once more here, so the engine never sees a level outside
/// 0 ..= 100 whatever was sent.
pub fn dispatch(cmd: Command) -> (op: EngineOp)
    ensures
        op_for(cmd@, op),
{
    match cmd {
        Command::PlayPath(p) => EngineOp::Load(p),
        Command::Pause => EngineOp::SetPause(true),
        Command::Resume => EngineOp::SetPause(false),
        Command::SetVolume(v) => {
            let mut nv = v;
            if nv > 100 {
                nv = 100;
            } else if nv < 0 {
                nv = 0;
            }
            EngineOp::SetVolume(nv)
        },
        Command::Seek(t) => EngineOp::SeekTo(t),
    }
}

/// One worker tick's command handling: takes the oldest waiting command, if
/// any, and answers the engine operation to perform for it.  Repeated ticks
/// perform the sent operations in send order.
pub fn step(player: &mut Vlc) -> (r: Option<EngineOp>)
    requires
        old(player).inv(),
    ensures
        final(player).inv(),
        final(player).volume_spec() == old(player).volume_spec(),
        final(player).paused_spec() == old(player).paused_spec(),
        final(player).progress_spec() == old(player).progress_spec(),
        old(player).commands().len() == 0 ==> (r is None && final(player).commands() == old(
            player,
        ).commands()),
        old(player).commands().len() > 0 ==> {
            &&& r matches Some(op) && op_for(old(player).commands()[0], op)
            &&& final(player).commands() == old(player).commands().drop_first()
        },
{
    match player.next_command() {
        Some(cmd) => Some(dispatch(cmd)),
        None => None,
    }
}

} // verus!
