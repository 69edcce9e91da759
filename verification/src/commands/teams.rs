//! The command that lists the teams of the user.

use vstd::prelude::*;
use crate::commands::query::OutputFormat;

verus! {

/// The arguments of `teams`.
#[derive(Debug)]
pub struct TeamsArgs {
    pub output: OutputFormat,
}

} // verus!
