//! The verified core of a media player: the decisions of a pipeline that
//! reads compressed units from a container, decodes each elementary stream
//! on a worker of its own, and shows every decoded frame when a playback
//! clock reaches its timestamp.
//!
//! Nothing here reads a file, decodes a frame, draws or waits. The code
//! around the library does that; it reports what happened in plain values
//! and is told what to do next.
//!
//! - [`clock`]: the playback clock, which counts ticks and loses no time.
//! - [`buffer`]: the presentation buffer and the rule by which it releases
//!   frames.
//! - [`mplayer`]: the player, which ticks the clock and the buffers of both
//!   streams.
//! - [`pipeline`]: the streams of an opened container, the plan to decode
//!   them, and the loop that hands units out to the workers.
//! - [`worker`]: the decode worker and the timestamps of its frames.
//! - [`decode`]: a decoder on a single thread, held back by the frames that
//!   were not taken yet.
//! - [`probe`], [`convert`], [`constants`], [`audio`]: what a container and
//!   its decoders report, and how that is turned into what the player and
//!   the devices need.
//! - [`command`]: the commands of the user and how a line of input is read.
//! - [`rational`], [`utils`]: ratios, ranges and the arithmetic of time.

pub mod audio;
pub mod buffer;
pub mod clock;
pub mod command;
pub mod constants;
pub mod convert;
pub mod decode;
pub mod mplayer;
pub mod pipeline;
pub mod probe;
pub mod rational;
pub mod utils;
pub mod worker;

pub use command::Command;
