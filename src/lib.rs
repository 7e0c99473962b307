//! Translation of score-job requests into queue messages.
//!
//! A request carries the parameters of a page job or of a site job. The
//! library wraps them in an envelope with exactly one populated slot, frames
//! the envelope as JSON text, describes the publish that carries it to the
//! `score-requests` destination, and decides the caller's response from what
//! the broker reported.

pub mod endpoint;
pub mod params;
pub mod publish;
pub mod response;
pub mod wire;
