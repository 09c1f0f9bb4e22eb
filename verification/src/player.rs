//! The playback facade: the object the rest of the application holds.  It
//! turns high-level calls into commands for the worker, keeps a locally
//! cached volume and paused flag for instant read-back, and holds the last
//! progress snapshot the worker wrote back.

use crate::command::{Cmd, Command};
use crate::mailbox::Mailbox;
use crate::progress::ProgressSample;
use vstd::prelude::*;
use vstd::string::StringExecFns;

verus! {

/// A volume level forced into the allowed range 0 ..= 100.
pub open spec fn clamped_volume(v: int) -> int {
    if v > 100 {
        100
    } else if v < 0 {
        0
    } else {
        v
    }
}

/// The absolute position a relative seek aims at: the current position moved
/// by the delta, floored at zero.
pub open spec fn seek_target(position: int, delta: int) -> int {
    if position + delta >= 0 {
        position + delta
    } else {
        0
    }
}

/// The step one `volume_up` or `volume_down` call moves the volume by.
pub const VOLUME_STEP: i32 = 5;

/// The volume a fresh player starts with.
pub const INITIAL_VOLUME: i32 = 50;

/// The one failure the facade surfaces to its caller: a seek whose target
/// would run past the end of the current track.  Every other operation is
/// infallible from the caller's point of view.
#[derive(Debug, Clone, Copy, PartialEq, Eq, Structural)]
pub enum PlayerError {
    SeekOutOfRange,
}

impl PlayerError {
    /// A short description for display.
    pub fn message(&self) -> (m: &'static str)
        ensures
            m@ == "exceed max length"@,
    {
        "exceed max length"
    }
}

/// The playback facade.  All mutation of the engine leaves here as commands
/// in the mailbox; the cached volume and paused flag answer reads without
/// waiting for the worker.
pub struct Vlc {
    paused: bool,
    volume: i32,
    mailbox: Mailbox,
    progress: ProgressSample,
}

impl Vlc {
    /// The locally cached volume.
    pub closed spec fn volume_spec(&self) -> int {
        self.volume as int
    }

    /// The locally cached paused flag.
    pub closed spec fn paused_spec(&self) -> bool {
        self.paused
    }

    /// The commands waiting in the mailbox, oldest first.
    pub closed spec fn commands(&self) -> Seq<Cmd> {
        self.mailbox@
    }

    /// The last progress snapshot written back by the worker.
    pub closed spec fn progress_spec(&self) -> ProgressSample {
        self.progress
    }

    /// Well-formedness: the cached volume stays in range and the snapshot is
    /// valid.  Established by `new` and preserved by every method.
    pub open spec fn inv(&self) -> bool {
        &&& 0 <= self.volume_spec() <= 100
        &&& self.progress_spec().valid()
    }

    /// A fresh facade: not paused, volume at the initial level, no commands
    /// sent yet, no progress known yet.
    pub fn new() -> (p: Vlc)
        ensures
            p.inv(),
            !p.paused_spec(),
            p.volume_spec() == INITIAL_VOLUME,
            p.commands() == Seq::<Cmd>::empty(),
            p.progress_spec().position_secs == 0,
            p.progress_spec().duration_secs == 0,
    {
        Vlc {
            paused: false,
            volume: INITIAL_VOLUME,
            mailbox: Mailbox::new(),
            progress: ProgressSample::zero(),
        }
    }

    /// Turns a probed track duration into whole seconds: the probed value if
    /// the engine could determine one, zero otherwise.
    pub fn duration(probed_secs: Option<u64>) -> (d: u64)
        ensures
            d == match probed_secs {
                Some(s) => s as int,
                None => 0,
            },
    {
        match probed_secs {
            Some(s) => s,
            None => 0,
        }
    }

    /// Starts playing the given file: clears the paused flag, forgets the
    /// old progress snapshot (loading resets the playback position), and
    /// sends the play command.
    pub fn add_and_play(&mut self, song_str: &str)
        requires
            old(self).inv(),
        ensures
            final(self).inv(),
            !final(self).paused_spec(),
            final(self).volume_spec() == old(self).volume_spec(),
            final(self).progress_spec().position_secs == 0,
            final(self).progress_spec().duration_secs == 0,
            final(self).commands() == old(self).commands().push(
                Cmd::PlayPath { path: song_str@ },
            ),
    {
        self.paused = false;
        self.progress = ProgressSample::zero();
        self.mailbox.send(Command::PlayPath(String::from_str(song_str)));
    }

    /// Raises the cached volume by one step, clamped at 100, and sends the
    /// new level to the worker.
    pub fn volume_up(&mut self)
        requires
            old(self).inv(),
        ensures
            final(self).inv(),
            final(self).volume_spec() == clamped_volume(old(self).volume_spec() + VOLUME_STEP),
            final(self).paused_spec() == old(self).paused_spec(),
            final(self).progress_spec() == old(self).progress_spec(),
            final(self).commands() == old(self).commands().push(
                Cmd::SetVolume { level: final(self).volume_spec() },
            ),
    {
        let mut v = self.volume + VOLUME_STEP;
        if v > 100 {
            v = 100;
        }
        self.volume = v;
        self.mailbox.send(Command::SetVolume(v));
    }

    /// Lowers the cached volume by one step, clamped at 0, and sends the new
    /// level to the worker.
    pub fn volume_down(&mut self)
        requires
            old(self).inv(),
        ensures
            final(self).inv(),
            final(self).volume_spec() == clamped_volume(old(self).volume_spec() - VOLUME_STEP),
            final(self).paused_spec() == old(self).paused_spec(),
            final(self).progress_spec() == old(self).progress_spec(),
            final(self).commands() == old(self).commands().push(
                Cmd::SetVolume { level: final(self).volume_spec() },
            ),
    {
        let mut v = self.volume - VOLUME_STEP;
        if v < 0 {
            v = 0;
        }
        self.volume = v;
        self.mailbox.send(Command::SetVolume(v));
    }

    /// The cached volume, answered without waiting for the worker.
    pub fn volume(&self) -> (v: i32)
        ensures
            v == self.volume_spec(),
    {
        self.volume
    }

    /// Stores the given volume clamped into 0 ..= 100 and sends the clamped
    /// level to the worker.
    pub fn set_volume(&mut self, volume: i32)
        requires
            old(self).inv(),
        ensures
            final(self).inv(),
            final(self).volume_spec() == clamped_volume(volume as int),
            final(self).paused_spec() == old(self).paused_spec(),
            final(self).progress_spec() == old(self).progress_spec(),
            final(self).commands() == old(self).commands().push(
                Cmd::SetVolume { level: final(self).volume_spec() },
            ),
    {
        let mut v = volume;
        if v > 100 {
            v = 100;
        } else if v < 0 {
            v = 0;
        }
        self.volume = v;
        self.mailbox.send(Command::SetVolume(v));
    }

    /// Flags playback as paused at once and sends the pause command.
    pub fn pause(&mut self)
        requires
            old(self).inv(),
        ensures
            final(self).inv(),
            final(self).paused_spec(),
            final(self).volume_spec() == old(self).volume_spec(),
            final(self).progress_spec() == old(self).progress_spec(),
            final(self).commands() == old(self).commands().push(Cmd::Pause),
    {
        self.paused = true;
        self.mailbox.send(Command::Pause);
    }

    /// Flags playback as running at once and sends the resume command.
    pub fn resume(&mut self)
        requires
            old(self).inv(),
        ensures
            final(self).inv(),
            !final(self).paused_spec(),
            final(self).volume_spec() == old(self).volume_spec(),
            final(self).progress_spec() == old(self).progress_spec(),
            final(self).commands() == old(self).commands().push(Cmd::Resume),
    {
        self.paused = false;
        self.mailbox.send(Command::Resume);
    }

    /// The cached paused flag: optimistic, may disagree with the engine until
    /// the next worker tick reconciles it.
    pub fn is_paused(&mut self) -> (r: bool)
        ensures
            r == old(self).paused_spec(),
            *final(self) == *old(self),
    {
        self.paused
    }

    /// Moves the play cursor by `secs` relative to the last known position,
    /// floored at zero.  Fails with `SeekOutOfRange`, changing nothing, when
    /// the target would run past the known duration; otherwise sends the
    /// absolute target as a command.
    pub fn seek(&mut self, secs: i64) -> (r: Result<(), PlayerError>)
        requires
            old(self).inv(),
        ensures
            final(self).inv(),
            ({
                let target = seek_target(
                    old(self).progress_spec().position_secs as int,
                    secs as int,
                );
                if target <= old(self).progress_spec().duration_secs {
                    &&& r is Ok
                    &&& final(self).commands() == old(self).commands().push(
                        Cmd::Seek { target_secs: target },
                    )
                    &&& final(self).volume_spec() == old(self).volume_spec()
                    &&& final(self).paused_spec() == old(self).paused_spec()
                    &&& final(self).progress_spec() == old(self).progress_spec()
                } else {
                    &&& r matches Err(e) && e == PlayerError::SeekOutOfRange
                    &&& *final(self) == *old(self)
                }
            }),
    {
        let pos = self.progress.position_secs;
        let dur = self.progress.duration_secs;
        let target: u64 = match pos.checked_add_signed(secs) {
            Some(t) => t,
            None => {
                if secs >= 0 {
                    // The target does not even fit in 64 bits, so it is past
                    // any representable duration.
                    return Err(PlayerError::SeekOutOfRange);
                }
                0
            },
        };
        if target > dur {
            return Err(PlayerError::SeekOutOfRange);
        }
        self.mailbox.send(Command::Seek(target));
        Ok(())
    }

    /// The last known progress snapshot.  Never blocks: it reads the value
    /// the worker wrote back on its latest poll tick.
    pub fn get_progress(&mut self) -> (s: ProgressSample)
        ensures
            s == old(self).progress_spec(),
            *final(self) == *old(self),
    {
        self.progress
    }

    /// Stores the snapshot the worker took on its poll tick, clamping the
    /// position into the reported duration so the snapshot stays valid.
    pub fn update_progress(&mut self, position_secs: u64, duration_secs: u64)
        requires
            old(self).inv(),
        ensures
            final(self).inv(),
            final(self).progress_spec() == (ProgressSample {
                position_secs: if position_secs <= duration_secs {
                    position_secs
                } else {
                    duration_secs
                },
                duration_secs,
            }),
            final(self).volume_spec() == old(self).volume_spec(),
            final(self).paused_spec() == old(self).paused_spec(),
            final(self).commands() == old(self).commands(),
    {
        self.progress = ProgressSample::new(position_secs, duration_secs);
    }

    /// Reconciles the cached paused flag with the authoritative one the
    /// engine reported on a worker tick.  Callers tolerate the brief window
    /// in which the two disagree.
    pub fn reconcile_paused(&mut self, engine_paused: bool)
        requires
            old(self).inv(),
        ensures
            final(self).inv(),
            final(self).paused_spec() == engine_paused,
            final(self).volume_spec() == old(self).volume_spec(),
            final(self).progress_spec() == old(self).progress_spec(),
            final(self).commands() == old(self).commands(),
    {
        self.paused = engine_paused;
    }

    /// The worker-side receive: takes the oldest waiting command, or nothing
    /// when the mailbox is empty.  Commands come out in send order.
    pub fn next_command(&mut self) -> (r: Option<Command>)
        requires
            old(self).inv(),
        ensures
            final(self).inv(),
            final(self).volume_spec() == old(self).volume_spec(),
            final(self).paused_spec() == old(self).paused_spec(),
            final(self).progress_spec() == old(self).progress_spec(),
            old(self).commands().len() == 0 ==> (r is None && final(self).commands() == old(
                self,
            ).commands()),
            old(self).commands().len() > 0 ==> {
                &&& r matches Some(c) && c@ == old(self).commands()[0]
                &&& final(self).commands() == old(self).commands().drop_first()
            },
    {
        self.mailbox.recv()
    }
}

/// Volume stepping law: from any volume in the allowed range, one step up
/// yields `min(v + step, 100)` and one step down yields `max(v - step, 0)`;
/// at the boundaries the steps change nothing.
pub proof fn lemma_volume_step(v: int)
    requires
        0 <= v <= 100,
    ensures
        clamped_volume(v + VOLUME_STEP) == if v + VOLUME_STEP <= 100 {
            v + VOLUME_STEP
        } else {
            100
        },
        clamped_volume(v - VOLUME_STEP) == if v - VOLUME_STEP >= 0 {
            v - VOLUME_STEP
        } else {
            0
        },
        v == 100 ==> clamped_volume(v + VOLUME_STEP) == v,
        v == 0 ==> clamped_volume(v - VOLUME_STEP) == v,
{
}

} // verus!
