//! Control logic for a crossbar switch board that routes test channels to
//! target slots through a sixteen-pin I/O expander, together with the
//! self-test protocol that exercises each routed path.

pub mod signal;
pub mod error;
pub mod address;
pub mod expander;
pub mod routing;
pub mod args;
pub mod driver;
pub mod harness;
