//! A verified description of the GreenMail mail-testing container image:
//! which image to run, which ports it listens on, which environment it is
//! started with and how to tell that it has finished booting.
//!
//! `descriptor` holds the value that a test suite builds and customises,
//! `environment` the mathematical model of its environment and the laws of
//! the overrides, `runner` the types and calls of the `testcontainers` crate
//! that the descriptor's answers are made of.

pub mod descriptor;
pub mod environment;
pub mod runner;

pub use crate::descriptor::Greenmail;
