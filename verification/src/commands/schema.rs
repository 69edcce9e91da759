//! The command that shows the columns of a source.

use vstd::prelude::*;
use crate::commands::query::OutputFormat;

verus! {

/// The arguments of `schema`.
#[derive(Debug)]
pub struct SchemaArgs {
    pub team: Option<String>,
    pub source: Option<String>,
    pub output: OutputFormat,
}

} // verus!
