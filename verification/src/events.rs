use vstd::prelude::*;
use crate::account::Account;

verus! {

/// A notification emitted by the ownership registry, exactly once per
/// successful mutating operation, after the state mutation is applied.
/// The registry keeps the emitted notifications in order in a log.
#[derive(Clone, Copy, Debug, PartialEq, Eq, Structural)]
#[allow(inconsistent_fields)]
pub enum Event {
    Transfer { from: Account, to: Account, token_id: usize },
    Approval { owner: Account, approved: Account, token_id: usize },
    ApprovalForAll { owner: Account, operator: Account, approved: bool },
}

} // verus!
