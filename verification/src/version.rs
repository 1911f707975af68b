//! Choice of the version that devices are compared against.

use vstd::prelude::*;
use crate::model::ReportError;

verus! {

/// The catalog entry that counts as the latest version: the first one, as
/// the backend listed it, if there is one. The entries are neither sorted
/// nor compared, so a catalog that does not start with its newest version
/// yields an older one.
pub open spec fn latest_of(catalog: Seq<String>) -> Option<String> {
    if catalog.len() > 0 {
        Some(catalog[0])
    } else {
        None
    }
}

/// Selects the latest version of a catalog: its first entry, whatever the
/// entry looks like. A catalog without entries has no latest version, and
/// that is the only way in which the selection fails.
pub fn get_latest_semver(semvers: Vec<String>) -> (latest: Result<String, ReportError>)
    ensures
        latest == match latest_of(semvers@) {
            Some(v) => Ok::<String, ReportError>(v),
            None => Err(ReportError::EmptyCatalog),
        },
        latest is Err <==> semvers@.len() == 0,
{
    if semvers.len() > 0 {
        Ok(semvers[0].clone())
    } else {
        Err(ReportError::EmptyCatalog)
    }
}

} // verus!
