//! Terminal control for streams held in a shared registry: entering and
//! leaving raw input mode with the cooked mode saved beside the stream,
//! telling whether a stream is an interactive terminal, and finding the
//! handle whose window size answers a size query.
//!
//! The platform calls themselves stay with the caller: the registry decides
//! what is to be done (`control::RawPlan`, `control::TtyProbe`, a handle to
//! query) and records the outcome it is handed back.

pub mod control;
pub mod error;
pub mod mode;
pub mod registry;
pub mod resource;
