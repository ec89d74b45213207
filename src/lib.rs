//! Control of the breathing effect of a handheld's indicator LED, held in one
//! bit of an embedded-controller register byte, and the decisions of a daemon
//! that re-applies the mode across sleep and wake.
pub mod daemon;
pub mod error;
pub mod register;
pub mod setup;
