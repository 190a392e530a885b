//! Builds that run on a hosted pipeline.
use vstd::prelude::*;

verus! {

/// Whether the build runs on the hosted pipeline: it does exactly when the
/// pipeline has named a directory for staging artifacts.
pub fn is_active(artifact_staging_directory: &Option<String>) -> (active: bool)
    ensures
        active == artifact_staging_directory.is_some(),
{
    artifact_staging_directory.is_some()
}

} // verus!
