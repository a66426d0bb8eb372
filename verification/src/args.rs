//! The startup options the host hands the pipeline.

use vstd::prelude::*;

verus! {

/// Startup options: both are optional and both have resolved defaults.
/// The host's command line parser fills this in.
#[derive(Clone, Debug, PartialEq)]
pub struct ExExArgs {
    /// Topic prefix for this instance; when absent it is derived from
    /// the chain identifier and name (see `resolve_topic_prefix`).
    pub exex_topic_prefix: Option<String>,
    /// Resumption directive (see `resolve_resumption`); when absent,
    /// processing continues from the last acknowledged height.
    pub exex_start_block: Option<u64>,
}

} // verus!
