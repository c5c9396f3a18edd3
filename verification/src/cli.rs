//! Command-line options, as plain data.
//!
//! The argument parser itself is an external collaborator; it hands
//! over values in this shape.

use vstd::prelude::*;

verus! {

/// Command-line options: the path of the configuration file to load.
#[derive(Debug)]
pub struct Cli {
    pub config: String,
}

} // verus!
