//! The roles that upgrade authorization events carry.

use vstd::prelude::*;

verus! {

/// A role in the upgrade workflow.
#[derive(Clone, Copy, Debug, PartialEq, Eq, Structural)]
pub enum UpgradeRole {
    Admin,
    Proposer,
    Approver,
    Executor,
}

} // verus!
