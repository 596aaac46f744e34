use std::sync::Arc;
use vstd::prelude::*;

use crate::template::LoadError;

verus! {

/// The bytes that a slot holds: `None` while it is unloaded.
pub open spec fn resident(slot: Option<Arc<Vec<u8>>>) -> Option<Seq<u8>> {
    match slot {
        Some(b) => Some(b@),
        None => None,
    }
}

/// The content of a load's result, or its error.
pub open spec fn outcome(r: Result<Arc<Vec<u8>>, LoadError>) -> Result<Seq<u8>, LoadError> {
    match r {
        Ok(a) => Ok(a@),
        Err(e) => Err(e),
    }
}

/// How a request for the bytes relates the slot before, the slot after and
/// the result: a resident buffer is handed back and kept; an unloaded slot
/// takes the buffer that is handed back, or stays unloaded on an error.
pub open spec fn loaded_by(
    before: Option<Seq<u8>>,
    after: Option<Seq<u8>>,
    r: Result<Seq<u8>, LoadError>,
) -> bool {
    match before {
        Some(b) => r == Ok::<Seq<u8>, LoadError>(b) && after == before,
        None => match r {
            Ok(c) => after == Some(c),
            Err(_) => after is None,
        },
    }
}

/// A native handle is given out only while no bytes are resident.
pub open spec fn handle_allowed(s: Option<Seq<u8>>) -> bool {
    s is None
}

/// A shared copy of what the slot holds; reads nothing from outside.
pub fn cached(slot: &Option<Arc<Vec<u8>>>) -> (r: Option<Arc<Vec<u8>>>)
    ensures
        resident(r) == resident(*slot),
{
    match slot {
        Some(b) => Some(Arc::clone(b)),
        None => None,
    }
}

/// Publishes a freshly loaded buffer into the slot, unless a buffer is
/// already there: then that one is kept and handed back, and `loaded` is
/// dropped.
pub fn publish(slot: &mut Option<Arc<Vec<u8>>>, loaded: Vec<u8>) -> (r: Arc<Vec<u8>>)
    ensures
        resident(*final(slot)) == Some(r@),
        resident(*old(slot)) matches Some(b) ==> r@ == b,
        resident(*old(slot)) is None ==> r@ == loaded@,
{
    match slot {
        Some(b) => Arc::clone(b),
        None => {
            let b = Arc::new(loaded);
            *slot = Some(Arc::clone(&b));
            b
        },
    }
}

/// Once a request has handed back content `c`, every later request hands
/// back `c` again and leaves it resident, whatever a loader would produce.
pub proof fn lemma_later_loads_agree(
    s0: Option<Seq<u8>>,
    s1: Option<Seq<u8>>,
    s2: Option<Seq<u8>>,
    c: Seq<u8>,
    r2: Result<Seq<u8>, LoadError>,
)
    requires
        loaded_by(s0, s1, Ok(c)),
        loaded_by(s1, s2, r2),
    ensures
        r2 == Ok::<Seq<u8>, LoadError>(c),
        s2 == Some(c),
{
}

/// After a request that handed back `c`, exactly `c` is resident, and no
/// native handle is allowed any more.
pub proof fn lemma_resident_after_load(s0: Option<Seq<u8>>, s1: Option<Seq<u8>>, c: Seq<u8>)
    requires
        loaded_by(s0, s1, Ok(c)),
    ensures
        s1 == Some(c),
        !handle_allowed(s1),
{
}

/// A failed request leaves the slot unloaded: no empty or partial buffer is
/// ever made resident.
pub proof fn lemma_failure_publishes_nothing(
    s0: Option<Seq<u8>>,
    s1: Option<Seq<u8>>,
    e: LoadError,
)
    requires
        loaded_by(s0, s1, Err(e)),
    ensures
        s0 is None,
        s1 is None,
{
}

} // verus!
