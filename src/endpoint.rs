//! The query endpoint's decision. The metrics handle is shared by all
//! requests behind one lock held for the whole refresh-then-read pass; a
//! lock left unusable by a holder that failed means the handle may be
//! corrupt, and the request fails rather than answer from it.
use vstd::prelude::*;
use crate::sensors::{Readings, collect, snapshot_from};
use crate::snapshot::Snapshot;

verus! {

/// Why a query produced no snapshot.
#[derive(Clone, Copy, Debug, PartialEq, Eq, Structural)]
pub enum QueryError {
    /// The guard over the metrics handle was left unusable.
    GuardPoisoned,
}

/// The answer to one query, given what the guarded pass yielded: the
/// readings taken under the guard, or `GuardPoisoned` where the guard could
/// not be acquired in a usable state.
pub fn answer_query(pass: &Result<Readings, QueryError>) -> (r: Result<Snapshot, QueryError>)
    ensures
        pass is Err <==> r is Err,
        pass is Err ==> r == Err::<Snapshot, QueryError>(QueryError::GuardPoisoned),
        pass is Ok ==> snapshot_from(r->Ok_0, pass->Ok_0) && r->Ok_0.wf(),
{
    match pass {
        Ok(readings) => Ok(collect(readings)),
        Err(_) => Err(QueryError::GuardPoisoned),
    }
}

} // verus!
