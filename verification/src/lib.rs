//! Semantic diff of a module's exported declarations.
//!
//! Given two versions of a TypeScript/TSX source module, the library
//! reports which top-level exported declarations were added, removed, or
//! modified, ignoring immaterial formatting differences. Parsing is
//! delegated to an outside parser; everything that classifies export
//! forms, builds snapshots, and compares them is verified.

use vstd::prelude::*;

pub mod ast;
pub mod collect;
pub mod diff;
pub mod parse;

pub use crate::collect::Snapshot;
pub use crate::diff::ChangeType;
pub use crate::diff::DiffResult;

use crate::collect::collect_exports;
use crate::collect::snapshot_of_items;
use crate::diff::diff_spec;
use crate::parse::parse_of;

verus! {

/// Parse one source version and collect its export snapshot. Succeeds
/// exactly when the text parses under the TypeScript/TSX dialect.
pub fn snapshot_of_source(code: &str) -> (r: Result<Snapshot, String>)
    ensures
        match r {
            Ok(snap) => parse_of(code@) is Some && snap@ == snapshot_of_items(
                parse_of(code@)->Some_0,
            ),
            Err(_) => parse_of(code@) is None,
        },
{
    match crate::parse::parse_tsx(code) {
        Ok(m) => Ok(collect_exports(&m)),
        Err(e) => Err(e),
    }
}

/// Compare two versions of a module: parse both, snapshot both, and
/// report every exported name whose declaration was added, removed, or
/// modified. Succeeds exactly when both texts parse; the record order
/// follows the new version's exported names first, then the old
/// version's names that the new one lacks.
pub fn analyze_diff(old_code: &str, new_code: &str) -> (r: Result<Vec<DiffResult>, String>)
    ensures
        match r {
            Ok(records) => parse_of(old_code@) is Some && parse_of(new_code@) is Some
                && records.deep_view() == diff_spec(
                snapshot_of_items(parse_of(old_code@)->Some_0),
                snapshot_of_items(parse_of(new_code@)->Some_0),
            ),
            Err(_) => parse_of(old_code@) is None || parse_of(new_code@) is None,
        },
{
    let old_snap = match snapshot_of_source(old_code) {
        Ok(s) => s,
        Err(e) => {
            return Err(e);
        },
    };
    let new_snap = match snapshot_of_source(new_code) {
        Ok(s) => s,
        Err(e) => {
            return Err(e);
        },
    };
    Ok(crate::diff::diff(&old_snap, &new_snap))
}

} // verus!
