//! Core of a live voice relay: a capture controller that turns trigger
//! edges into start/stop commands for an external capture service, and a
//! tick-driven pipeline that decides, from what the service reports, how
//! many compressed bytes to fetch, how many to decode, and exactly which
//! decoded bytes become normalized samples for the playback sink.
//!
//! The capture service and the playback sink are external collaborators:
//! the host performs their calls and feeds the outcomes back as events.
//! Everything the pipeline decides from those outcomes is verified here.

pub mod capture;
pub mod pipeline;
pub mod sample;
