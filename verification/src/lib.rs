//! Configuration, logging plans and route tables of a small scripted web host.
use vstd::prelude::*;

pub mod config;
pub mod logging;
pub mod routing;
pub mod scripts;

verus! {
} // verus!
