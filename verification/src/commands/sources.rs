//! The command that lists the sources of a team.

use vstd::prelude::*;
use crate::commands::query::OutputFormat;

verus! {

/// The arguments of `sources`.
#[derive(Debug)]
pub struct SourcesArgs {
    pub team: Option<String>,
    pub output: OutputFormat,
}

} // verus!
