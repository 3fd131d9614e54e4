//! Verbosity-filtered event dispatch: levels, callsite interest caching, the
//! registry of callsites and collectors, the protocol between a dispatch and
//! its collector, and the resolution of the default dispatch.

pub mod callsite;
pub mod collect;
pub mod dispatch;
pub mod event;
pub mod level;
pub mod metadata;
pub mod span;
pub mod subscriber;
