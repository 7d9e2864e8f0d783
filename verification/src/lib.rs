//! Native-side core of a desktop visualization shell: a build-identity
//! record derived from a minute-granularity timestamp, and a menu command
//! vocabulary routed to named front-end events.

pub mod build_info;
pub mod codec;
pub mod menu;
