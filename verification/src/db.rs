//! Where clip metadata is kept.
use vstd::prelude::*;

verus! {

/// The path under which clip metadata was once kept in a database; the
/// metadata now lives in JSON files beside the clips.
#[derive(Debug, Clone)]
pub struct DbPath(pub String);

/// The clips recorded in the database: none, since the metadata lives beside the clips.
pub fn list_clips(_db_path: &str) -> (r: Result<Vec<(String, String, u64)>, String>)
    ensures
        r matches Ok(v) && v@.len() == 0,
{
    Ok(Vec::new())
}

/// Removes database entries whose clip is gone: there are none to remove.
pub fn cleanup_orphan_clips(_db_path: &str) -> (r: Result<(), String>)
    ensures
        r is Ok,
{
    Ok(())
}

} // verus!
