//! The invocation path of a function handle: arguments are adapted before the
//! engine runs, and its results or its trap are translated afterwards.
use vstd::prelude::*;
use crate::value::{HostValue, Val, ValType, host_of, to_host};
use crate::params::{ConvertError, adapt_params, adapt_spec};
use crate::store::StoreData;
use crate::trampoline::{HostReturn, host_args, returned_seq};

verus! {

/// A function's signature: parameter types, then result types.
#[derive(Clone, Debug)]
pub struct FuncType {
    pub params: Vec<ValType>,
    pub results: Vec<ValType>,
}

/// Why a call through a function handle failed.
#[derive(Clone, Debug)]
pub enum InvokeError {
    /// A host exception raised inside the call, recovered from the store.
    BoxedException(u64),
    /// The arguments did not fit the signature; the engine was not entered.
    Error(ConvertError),
    /// The engine trapped; its own description.
    Trap(String),
}

/// The host value of a call's results: nothing for none, the value itself for
/// one, the sequence of them for more.
pub open spec fn shown(r: HostReturn, vals: Seq<Val>) -> bool {
    if vals.len() == 0 {
        r == HostReturn::Value(HostValue::Nil)
    } else if vals.len() == 1 {
        r == HostReturn::Value(host_of(vals[0]))
    } else {
        r is List && returned_seq(r) == host_args(vals)
    }
}

/// The failure reported for an engine trap with description `text`, given
/// what the store's exception slot held.
pub open spec fn unwind_spec(held: Option<u64>, text: String) -> InvokeError {
    match held {
        Some(e) => InvokeError::BoxedException(e),
        None => InvokeError::Trap(text),
    }
}

/// Adapts a call's host arguments to the function's parameter types. An
/// error here comes before the engine is entered.
pub fn prepare(ty: &FuncType, args: &Vec<HostValue>) -> (r: Result<Vec<Val>, InvokeError>)
    ensures
        adapt_spec(args@, ty.params@) matches Ok(v) ==> r matches Ok(w) && w@ == v,
        adapt_spec(args@, ty.params@) matches Err(e) ==> r == Err::<Vec<Val>, InvokeError>(
            InvokeError::Error(e),
        ),
{
    match adapt_params(args, &ty.params) {
        Ok(v) => Ok(v),
        Err(e) => Err(InvokeError::Error(e)),
    }
}

/// The host value of an engine call's results.
pub fn show_results(vals: &Vec<Val>) -> (r: HostReturn)
    ensures
        shown(r, vals@),
{
    if vals.len() == 0 {
        return HostReturn::Value(HostValue::Nil);
    }
    if vals.len() == 1 {
        return HostReturn::Value(to_host(&vals[0]));
    }
    let mut out: Vec<HostValue> = Vec::new();
    let mut i: usize = 0;
    while i < vals.len()
        invariant
            i <= vals@.len(),
            out@.len() == i,
            forall|j: int| 0 <= j < i ==> out@[j] == host_of(vals@[j]),
        decreases vals@.len() - i,
    {
        out.push(to_host(&vals[i]));
        i = i + 1;
    }
    assert(out@ =~= host_args(vals@));
    HostReturn::List(out)
}

/// Translates what the engine call gave back. On a trap, a host exception
/// held in the store is taken out and reported as it was raised; without one,
/// the engine's description is reported.
pub fn finish(store: &mut StoreData, outcome: Result<Vec<Val>, String>) -> (r: Result<HostReturn, InvokeError>)
    ensures
        outcome matches Ok(vals) ==> r matches Ok(h) && shown(h, vals@) && *final(store) == *old(store),
        outcome matches Err(text) ==> r == Err::<HostReturn, InvokeError>(
            unwind_spec(old(store).held(), text),
        ),
        outcome is Err ==> final(store).held() is None,
        final(store).user_data_spec() == old(store).user_data_spec(),
        final(store).retained_spec() == old(store).retained_spec(),
        final(store).scopes() == old(store).scopes(),
        final(store).next_scope_spec() == old(store).next_scope_spec(),
        old(store).wf() ==> final(store).wf(),
{
    match outcome {
        Ok(vals) => Ok(show_results(&vals)),
        Err(text) => match store.take_exception() {
            Some(e) => Err(InvokeError::BoxedException(e)),
            None => Err(InvokeError::Trap(text)),
        },
    }
}

} // verus!
