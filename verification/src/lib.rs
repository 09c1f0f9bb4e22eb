//! Playback control core: commands, a FIFO command mailbox, progress
//! samples, the player facade, the worker dispatch table, the track
//! queue scheduler, and the lyric synchronizer.

pub mod command;
pub mod lyric;
pub mod mailbox;
pub mod player;
pub mod playlist;
pub mod progress;
pub mod worker;
