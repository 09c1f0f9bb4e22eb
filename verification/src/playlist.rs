//! The queue scheduler: the ordered list of pending tracks, the playback
//! state machine, and the play-then-requeue advancement performed when the
//! engine signals that a track finished.

use crate::command::Cmd;
use crate::lyric::Caption;
use crate::player::Vlc;
use vstd::prelude::*;

verus! {

/// One queued track.  Created when a file is enqueued and immutable
/// afterwards.
#[derive(Debug)]
pub struct Track {
    pub path: String,
    pub title: Option<String>,
    pub artist: Option<String>,
    pub album: Option<String>,
    pub duration_secs: u64,
    pub captions: Option<Vec<Caption>>,
}

impl Track {
    /// A track known only by its file path and duration, without tags or
    /// captions.
    pub fn new(path: String, duration_secs: u64) -> (t: Track)
        ensures
            t.path@ == path@,
            t.title is None,
            t.artist is None,
            t.album is None,
            t.duration_secs == duration_secs,
            t.captions is None,
    {
        Track { path, title: None, artist: None, album: None, duration_secs, captions: None }
    }

    /// The title to display: the tagged title, else a fixed fallback.
    pub fn display_title(&self) -> (t: &str)
        ensures
            self.title matches Some(s) ==> t@ == s@,
            self.title is None ==> t@ == "Unknown Title"@,
    {
        match &self.title {
            Some(s) => s.as_str(),
            None => "Unknown Title",
        }
    }

    /// The artist to display: the tagged artist, else a fixed fallback.
    pub fn display_artist(&self) -> (a: &str)
        ensures
            self.artist matches Some(s) ==> a@ == s@,
            self.artist is None ==> a@ == "Unknown Artist"@,
    {
        match &self.artist {
            Some(s) => s.as_str(),
            None => "Unknown Artist",
        }
    }

    /// The album to display: the tagged album, else the empty string.
    pub fn display_album(&self) -> (a: &str)
        ensures
            self.album matches Some(s) ==> a@ == s@,
            self.album is None ==> a@ == ""@,
    {
        match &self.album {
            Some(s) => s.as_str(),
            None => "",
        }
    }
}

/// The playback state owned by the scheduler.  It changes only on explicit
/// user action or on a track-finished signal.
#[derive(Debug, Clone, Copy, PartialEq, Eq, Structural)]
pub enum Status {
    Stopped,
    Running,
    Paused,
}

/// The queue after one play-then-requeue step: the head moves to the tail,
/// everything else shifts forward by one.
pub open spec fn advanced(q: Seq<Track>) -> Seq<Track>
    recommends
        q.len() > 0,
{
    q.subrange(1, q.len() as int).push(q[0])
}

/// The queue scheduler.  It owns the track queue and the playback state, and
/// is the only writer of either.
pub struct Scheduler {
    status: Status,
    queue: Vec<Track>,
}

impl Scheduler {
    /// The playback state.
    pub closed spec fn status_spec(&self) -> Status {
        self.status
    }

    /// The queued tracks, next-to-play first.
    pub closed spec fn queue_spec(&self) -> Seq<Track> {
        self.queue@
    }

    /// A fresh scheduler: stopped, with an empty queue.
    pub fn new() -> (s: Scheduler)
        ensures
            s.status_spec() == Status::Stopped,
            s.queue_spec() == Seq::<Track>::empty(),
    {
        Scheduler { status: Status::Stopped, queue: Vec::new() }
    }

    /// The playback state, for display.
    pub fn status(&self) -> (s: Status)
        ensures
            s == self.status_spec(),
    {
        self.status
    }

    /// How many tracks are queued.
    pub fn queue_len(&self) -> (n: usize)
        ensures
            n == self.queue_spec().len(),
    {
        self.queue.len()
    }

    /// The path of the queued track at position `i` (position 0 plays next).
    pub fn track_path_at(&self, i: usize) -> (p: &str)
        requires
            i < self.queue_spec().len(),
        ensures
            p@ == self.queue_spec()[i as int].path@,
    {
        self.queue[i].path.as_str()
    }

    /// Appends a track at the tail of the queue; the playback state does not
    /// change.
    pub fn enqueue(&mut self, track: Track)
        ensures
            final(self).status_spec() == old(self).status_spec(),
            final(self).queue_spec() == old(self).queue_spec().push(track),
    {
        self.queue.push(track);
    }

    /// Starts playback while stopped: plays the head track and requeues it at
    /// the tail (repeat-all), moving to `Running`.  Does nothing while
    /// already running or paused, or while the queue is empty.
    pub fn run(&mut self, player: &mut Vlc)
        requires
            old(player).inv(),
        ensures
            final(player).inv(),
            if old(self).status_spec() == Status::Stopped && old(self).queue_spec().len() > 0 {
                &&& final(self).status_spec() == Status::Running
                &&& final(self).queue_spec() == advanced(old(self).queue_spec())
                &&& !final(player).paused_spec()
                &&& final(player).volume_spec() == old(player).volume_spec()
                &&& final(player).progress_spec().position_secs == 0
                &&& final(player).progress_spec().duration_secs == 0
                &&& final(player).commands() == old(player).commands().push(
                    Cmd::PlayPath { path: old(self).queue_spec()[0].path@ },
                )
            } else {
                &&& *final(self) == *old(self)
                &&& *final(player) == *old(player)
            },
    {
        match self.status {
            Status::Stopped => {
                if self.queue.len() < 1 {
                    return;
                }
                self.status = Status::Running;
                let song = self.queue.remove(0);
                player.add_and_play(song.path.as_str());
                self.queue.push(song);
                proof {
                    assert(self.queue@ =~= advanced(old(self).queue_spec()));
                }
            },
            Status::Running => {},
            Status::Paused => {},
        }
    }

    /// Handles the engine's track-finished signal: while running, advances to
    /// the next track by the same play-then-requeue step as `run`; a finished
    /// signal on an empty queue stops playback.  Advancement never happens
    /// from `Stopped` or `Paused`.
    pub fn on_finished(&mut self, player: &mut Vlc)
        requires
            old(player).inv(),
        ensures
            final(player).inv(),
            if old(self).status_spec() == Status::Running && old(self).queue_spec().len() > 0 {
                &&& final(self).status_spec() == Status::Running
                &&& final(self).queue_spec() == advanced(old(self).queue_spec())
                &&& !final(player).paused_spec()
                &&& final(player).volume_spec() == old(player).volume_spec()
                &&& final(player).progress_spec().position_secs == 0
                &&& final(player).progress_spec().duration_secs == 0
                &&& final(player).commands() == old(player).commands().push(
                    Cmd::PlayPath { path: old(self).queue_spec()[0].path@ },
                )
            } else {
                &&& final(self).status_spec() == (if old(self).status_spec() == Status::Running {
                    Status::Stopped
                } else {
                    old(self).status_spec()
                })
                &&& final(self).queue_spec() == old(self).queue_spec()
                &&& *final(player) == *old(player)
            },
    {
        if self.status == Status::Running {
            if self.queue.len() >= 1 {
                let song = self.queue.remove(0);
                player.add_and_play(song.path.as_str());
                self.queue.push(song);
                proof {
                    assert(self.queue@ =~= advanced(old(self).queue_spec()));
                }
            } else {
                self.status = Status::Stopped;
            }
        }
    }

    /// Pauses playback: only meaningful while running; flips the state to
    /// `Paused` and tells the player.  Queue advancement never happens while
    /// paused.
    pub fn pause(&mut self, player: &mut Vlc)
        requires
            old(player).inv(),
        ensures
            final(player).inv(),
            final(self).queue_spec() == old(self).queue_spec(),
            if old(self).status_spec() == Status::Running {
                &&& final(self).status_spec() == Status::Paused
                &&& final(player).paused_spec()
                &&& final(player).volume_spec() == old(player).volume_spec()
                &&& final(player).progress_spec() == old(player).progress_spec()
                &&& final(player).commands() == old(player).commands().push(Cmd::Pause)
            } else {
                &&& final(self).status_spec() == old(self).status_spec()
                &&& *final(player) == *old(player)
            },
    {
        if self.status == Status::Running {
            self.status = Status::Paused;
            player.pause();
        }
    }

    /// Resumes playback: only meaningful while paused; flips the state back
    /// to `Running` and tells the player.
    pub fn resume(&mut self, player: &mut Vlc)
        requires
            old(player).inv(),
        ensures
            final(player).inv(),
            final(self).queue_spec() == old(self).queue_spec(),
            if old(self).status_spec() == Status::Paused {
                &&& final(self).status_spec() == Status::Running
                &&& !final(player).paused_spec()
                &&& final(player).volume_spec() == old(player).volume_spec()
                &&& final(player).progress_spec() == old(player).progress_spec()
                &&& final(player).commands() == old(player).commands().push(Cmd::Resume)
            } else {
                &&& final(self).status_spec() == old(self).status_spec()
                &&& *final(player) == *old(player)
            },
    {
        if self.status == Status::Paused {
            self.status = Status::Running;
            player.resume();
        }
    }
}

/// Repeat-all cycle law: on a three-track queue the play-then-requeue step
/// keeps the queue length at three, plays the tracks in their original
/// order, and after three finished signals the queue is back in its original
/// order, so the original first track plays again.
pub proof fn lemma_repeat_all_cycle(q: Seq<Track>)
    requires
        q.len() == 3,
    ensures
        advanced(q).len() == 3,
        advanced(advanced(q)).len() == 3,
        advanced(advanced(advanced(q))).len() == 3,
        advanced(q)[0] == q[1],
        advanced(advanced(q))[0] == q[2],
        advanced(advanced(advanced(q)))[0] == q[0],
        advanced(advanced(advanced(q))) == q,
{
    assert(advanced(q) =~= seq![q[1], q[2], q[0]]);
    assert(advanced(advanced(q)) =~= seq![q[2], q[0], q[1]]);
    assert(advanced(advanced(advanced(q))) =~= q);
}

} // verus!
