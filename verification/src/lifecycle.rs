//! Which files may be deleted, and when.
//!
//! An intermediate file is deleted once the stage that consumes it has
//! succeeded, and not before. A final file is never deleted.

use crate::paths::{ArtifactPath, ArtifactPathView, Role};
use crate::protocol::{Action, ActionView};
use vstd::prelude::*;

verus! {

impl ArtifactPathView {
    /// Only an intermediate file may be deleted.
    pub open spec fn consumable(self) -> bool {
        self.role == Role::Intermediate
    }
}

/// The deletion of a file whose consumer has succeeded. To ask this of a
/// final file is a fault of the caller.
pub fn mark_consumed(artifact: &ArtifactPath) -> (action: Action)
    requires
        artifact@.consumable(),
    ensures
        action@ == (ActionView::Delete { path: artifact@.path }),
{
    Action::Delete { path: String::from_str(artifact.path()) }
}

} // verus!
