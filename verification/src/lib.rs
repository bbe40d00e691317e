//! Polling of the host's active media-playback session, as a pure core.
//!
//! The crate decides; a driver performs. Every step that touches the platform
//! (asking for the session manager, reading a thumbnail stream, handing a
//! snapshot to the sink, sleeping) is described here as a [`poller::Command`]
//! and carried out elsewhere, and what came of it is handed back as an
//! [`builder::Outcome`]. What the core does with each outcome is fixed by the
//! models in [`builder`] and [`poller`], and the executable functions are
//! proved to follow them.

pub mod builder;
pub mod encoding;
pub mod poller;
pub mod snapshot;
pub mod status;
pub mod thumbnail;
