//! Resolving the startup resumption directive.
//!
//! At startup the host may pass a directive saying where in chain
//! history processing restarts. The convention chosen here is uniform
//! across entry points: an absent directive keeps the previously
//! acknowledged head; `0` resets the head to genesis; `n > 0` sets the
//! head to block `n - 1`, so that streaming resumes with block `n`. The
//! host looks up the one hash this needs (`directive_lookup_number`
//! says which) and hands it in; a missing hash is a fatal resolution
//! error.

use vstd::prelude::*;

verus! {

/// Where the host positions the node's notification stream before the
/// event loop starts.
#[derive(Clone, Debug, PartialEq)]
pub enum ResumePoint {
    /// Keep the previously acknowledged head untouched.
    Continue,
    /// Set the head to this (number, hash) pair; streaming resumes with
    /// the block after it.
    Head { number: u64, hash: Vec<u8> },
}

/// Spec view of `ResumePoint`.
pub ghost enum ResumePointV {
    Continue,
    Head { number: u64, hash: Seq<u8> },
}

impl View for ResumePoint {
    type V = ResumePointV;

    open spec fn view(&self) -> ResumePointV {
        match self {
            ResumePoint::Continue => ResumePointV::Continue,
            ResumePoint::Head { number, hash } => ResumePointV::Head {
                number: *number,
                hash: hash@,
            },
        }
    }
}

impl DeepView for ResumePoint {
    type V = ResumePointV;

    open spec fn deep_view(&self) -> ResumePointV {
        self@
    }
}

/// Why a directive could not be resolved.
#[derive(Clone, Copy, Debug, PartialEq, Eq, Structural)]
pub enum ResumeError {
    /// The chain history could not supply the hash of this block, which
    /// the directive needs as the new head.
    MissingBlockHash { number: u64 },
}

/// The block number whose hash the host must look up before the
/// directive can be resolved: the predecessor of the named start block.
/// Genesis and an absent directive need no lookup.
pub open spec fn spec_lookup_number(start_block: Option<u64>) -> Option<u64> {
    match start_block {
        Some(n) => if n > 0 {
            Some((n - 1) as u64)
        } else {
            None
        },
        None => None,
    }
}

/// Says which block's hash the host must look up for `resolve_resumption`.
pub fn directive_lookup_number(start_block: Option<u64>) -> (r: Option<u64>)
    ensures
        r == spec_lookup_number(start_block),
{
    match start_block {
        Some(n) => if n > 0 {
            Some(n - 1)
        } else {
            None
        },
        None => None,
    }
}

/// The resolution of a startup directive: keep the stored head when no
/// directive was given; head (0, genesis hash) for directive `0`; head
/// (`n - 1`, its hash) for directive `n > 0`, or an error when that
/// hash is unavailable.
pub open spec fn spec_resolve(
    start_block: Option<u64>,
    genesis_hash: Seq<u8>,
    prior_hash: Option<Seq<u8>>,
) -> Result<ResumePointV, ResumeError> {
    match start_block {
        None => Ok(ResumePointV::Continue),
        Some(n) => if n == 0 {
            Ok(ResumePointV::Head { number: 0, hash: genesis_hash })
        } else if prior_hash is Some {
            Ok(ResumePointV::Head { number: (n - 1) as u64, hash: prior_hash.unwrap() })
        } else {
            Err(ResumeError::MissingBlockHash { number: (n - 1) as u64 })
        },
    }
}

/// The view of a resolution result.
pub open spec fn resolution_view(r: Result<ResumePoint, ResumeError>) -> Result<
    ResumePointV,
    ResumeError,
> {
    match r {
        Ok(p) => Ok(p@),
        Err(e) => Err(e),
    }
}

/// Resolves the startup directive into a concrete resumption point.
/// `genesis_hash` is the chain's genesis hash; `prior_hash` is the hash
/// of block `n - 1`, as looked up by the host, when the directive names
/// a block `n > 0`. It fails exactly when that lookup came back empty.
pub fn resolve_resumption(
    start_block: Option<u64>,
    genesis_hash: Vec<u8>,
    prior_hash: Option<Vec<u8>>,
) -> (r: Result<ResumePoint, ResumeError>)
    ensures
        resolution_view(r) == spec_resolve(start_block, genesis_hash@, prior_hash.deep_view()),
{
    match start_block {
        None => Ok(ResumePoint::Continue),
        Some(n) => if n == 0 {
            Ok(ResumePoint::Head { number: 0, hash: genesis_hash })
        } else {
            match prior_hash {
                Some(h) => {
                    let ghost pv = prior_hash.deep_view();
                    let r: Result<ResumePoint, ResumeError> = Ok(
                        ResumePoint::Head { number: n - 1, hash: h },
                    );
                    proof {
                        assert(pv == Some(r.unwrap()->Head_hash@));
                    }
                    r
                },
                None => Err(ResumeError::MissingBlockHash { number: n - 1 }),
            }
        },
    }
}

/// Directive `0` resolves to block number 0 bearing the chain's genesis
/// hash, and an absent directive leaves the stored head untouched,
/// whatever hash the host may have looked up.
pub proof fn lemma_resume_defaults(genesis_hash: Seq<u8>, prior_hash: Option<Seq<u8>>)
    ensures
        spec_resolve(Some(0u64), genesis_hash, prior_hash) == Ok::<ResumePointV, ResumeError>(
            ResumePointV::Head { number: 0, hash: genesis_hash },
        ),
        spec_resolve(None, genesis_hash, prior_hash) == Ok::<ResumePointV, ResumeError>(
            ResumePointV::Continue,
        ),
{
}

} // verus!
