//! A toolchain dispatcher, as a library of decisions.
//!
//! One executable stands in for the tools of a compiler toolchain. Called
//! under the name of a tool, it finds the toolchain that is meant (in the
//! project's reproducible build description, in a collection of installed
//! toolchains, or in the search path) and hands the process over to the
//! tool, with the environment that the tool expects.
//!
//! This crate holds every decision on that way and none of its effects. The
//! file system, other programs and the decoders of their output are asked
//! through [`world::Query`] and answer through [`world::Answer`]; what was
//! answered is kept in [`world::Observations`]. [`driver::resolve`] leads
//! from an invocation to the command that takes the place of the process.

pub mod collection;
pub mod driver;
pub mod environment;
pub mod error;
pub mod invocation;
pub mod invoker;
pub mod model;
pub mod nix;
pub mod number;
pub mod paths;
pub mod table;
pub mod text;
pub mod util;
pub mod world;
