//! The decisions an imported host function makes when the engine calls it:
//! which host arguments the closure gets, and what the engine gets back.
use vstd::prelude::*;
use crate::value::{HostValue, Val, ValType, host_of, to_host};
use crate::params::{ConvertError, accept_results, accept_spec, result_view};
use crate::store::StoreData;

verus! {

/// What a host closure handed back: a bare value, or a sequence of values.
#[derive(Clone, Debug)]
pub enum HostReturn {
    Value(HostValue),
    List(Vec<HostValue>),
}

/// The values a closure's return stands for: a bare value counts as a
/// sequence of one.
pub open spec fn returned_seq(r: HostReturn) -> Seq<HostValue> {
    match r {
        HostReturn::Value(v) => seq![v],
        HostReturn::List(l) => l@,
    }
}

/// How a call of the host closure ended.
#[derive(Clone, Debug)]
pub enum ClosureOutcome {
    Returned(HostReturn),
    /// It raised the host exception object named here.
    Raised(u64),
    /// It failed in a way that carries no exception object.
    Failed,
}

/// Why the engine is told to trap.
#[derive(Clone, Copy, Debug, PartialEq, Eq, Structural)]
pub enum TrapReason {
    /// The closure raised; the exception waits in the store's slot.
    Raised,
    /// The closure failed without an exception object.
    Failed,
    /// What the closure returned did not fit the declared results.
    Results(ConvertError),
}

/// The host values of the engine's arguments.
pub open spec fn host_args(params: Seq<Val>) -> Seq<HostValue> {
    Seq::new(params.len(), |i: int| host_of(params[i]))
}

/// The closure's arguments: the caller context first where one is forwarded,
/// then the engine's arguments in order.
pub open spec fn closure_args(caller: Option<HostValue>, params: Seq<Val>) -> Seq<HostValue> {
    match caller {
        Some(c) => seq![c] + host_args(params),
        None => host_args(params),
    }
}

/// What the engine gets from a closure outcome.
pub open spec fn complete_spec(ts: Seq<ValType>, outcome: ClosureOutcome) -> Result<Seq<Val>, TrapReason> {
    match outcome {
        ClosureOutcome::Returned(r) => match accept_spec(ts, returned_seq(r)) {
            Ok(v) => Ok(v),
            Err(e) => Err(TrapReason::Results(e)),
        },
        ClosureOutcome::Raised(_) => Err(TrapReason::Raised),
        ClosureOutcome::Failed => Err(TrapReason::Failed),
    }
}

/// The store's exception slot after a closure outcome: a raise is held, and
/// replaces one held before.
pub open spec fn held_after(held: Option<u64>, outcome: ClosureOutcome) -> Option<u64> {
    match outcome {
        ClosureOutcome::Raised(e) => Some(e),
        _ => held,
    }
}

pub open spec fn trap_view(r: Result<Vec<Val>, TrapReason>) -> Result<Seq<Val>, TrapReason> {
    match r {
        Ok(v) => Ok(v@),
        Err(e) => Err(e),
    }
}

/// Builds the host arguments of a closure from the engine's arguments.
pub fn marshal_params(caller: Option<HostValue>, params: &Vec<Val>) -> (r: Vec<HostValue>)
    requires
        params@.len() < usize::MAX,
    ensures
        r@ == closure_args(caller, params@),
{
    let mut out: Vec<HostValue> = Vec::new();
    if let Some(c) = caller {
        out.push(c);
    }
    let base: usize = out.len();
    let mut i: usize = 0;
    while i < params.len()
        invariant
            base == (if caller is Some { 1usize } else { 0usize }),
            i <= params@.len(),
            out@.len() == base + i,
            caller matches Some(c) ==> out@[0] == c,
            forall|j: int| 0 <= j < i ==> out@[base + j] == host_of(params@[j]),
        decreases params@.len() - i,
    {
        out.push(to_host(&params[i]));
        i = i + 1;
    }
    assert(out@ =~= closure_args(caller, params@));
    out
}

/// Finishes a call of the host closure: results are checked and converted for
/// the engine; a raised exception is held in the store, to be recovered by
/// the invocation that unwinds the trap.
pub fn complete_call(store: &mut StoreData, ts: &Vec<ValType>, outcome: ClosureOutcome) -> (r: Result<Vec<Val>, TrapReason>)
    ensures
        trap_view(r) == complete_spec(ts@, outcome),
        final(store).held() == held_after(old(store).held(), outcome),
        final(store).user_data_spec() == old(store).user_data_spec(),
        final(store).retained_spec() == old(store).retained_spec(),
        final(store).scopes() == old(store).scopes(),
        final(store).next_scope_spec() == old(store).next_scope_spec(),
        old(store).wf() ==> final(store).wf(),
{
    match outcome {
        ClosureOutcome::Returned(ret) => {
            let values: Vec<HostValue> = match ret {
                HostReturn::Value(v) => vec![v],
                HostReturn::List(l) => l,
            };
            proof {
                assert(values@ =~= returned_seq(outcome->Returned_0));
            }
            match accept_results(ts, &values) {
                Ok(v) => Ok(v),
                Err(e) => Err(TrapReason::Results(e)),
            }
        },
        ClosureOutcome::Raised(e) => {
            store.hold(e);
            Err(TrapReason::Raised)
        },
        ClosureOutcome::Failed => Err(TrapReason::Failed),
    }
}

} // verus!
