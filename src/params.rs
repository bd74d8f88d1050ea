//! Adapting ordered host values to an ordered list of engine types: used for
//! arguments going into the engine and for results coming back from a host
//! closure.
use vstd::prelude::*;
use crate::value::{HostValue, Val, ValType, vm_of, to_vm};

verus! {

/// A marshalling failure, detected before or after the engine runs.
#[derive(Clone, Copy, Debug, PartialEq, Eq, Structural)]
pub enum ConvertError {
    /// The value at `index` could not become a value of type `expected_type`.
    Conversion { index: usize, expected_type: ValType },
    /// `given` values were supplied where `expected` were declared.
    Arity { expected: usize, given: usize },
}

pub open spec fn converts(h: HostValue, t: ValType) -> bool {
    vm_of(h, t) is Some
}

/// The first index from `i` on at which a value does not convert, or the
/// length where every one does.
pub open spec fn first_bad(hs: Seq<HostValue>, ts: Seq<ValType>, i: int) -> int
    decreases hs.len() - i,
{
    if i >= hs.len() {
        hs.len() as int
    } else if !converts(hs[i], ts[i]) {
        i
    } else {
        first_bad(hs, ts, i + 1)
    }
}

pub open spec fn convert_each(hs: Seq<HostValue>, ts: Seq<ValType>) -> Seq<Val> {
    Seq::new(hs.len(), |i: int| vm_of(hs[i], ts[i])->Some_0)
}

/// Converts values and types of equal number, slot by slot; the first slot
/// that fails is reported.
pub open spec fn convert_all(hs: Seq<HostValue>, ts: Seq<ValType>) -> Result<Seq<Val>, ConvertError> {
    let k = first_bad(hs, ts, 0);
    if k < hs.len() {
        Err(ConvertError::Conversion { index: k as usize, expected_type: ts[k] })
    } else {
        Ok(convert_each(hs, ts))
    }
}

/// Arguments for a function with parameter types `ts`.
pub open spec fn adapt_spec(args: Seq<HostValue>, ts: Seq<ValType>) -> Result<Seq<Val>, ConvertError> {
    if args.len() != ts.len() {
        Err(ConvertError::Arity { expected: ts.len() as usize, given: args.len() as usize })
    } else {
        convert_all(args, ts)
    }
}

/// Results for a function with result types `ts`, from the values a host
/// closure returned. With no result types, whatever came back is ignored.
pub open spec fn accept_spec(ts: Seq<ValType>, ret: Seq<HostValue>) -> Result<Seq<Val>, ConvertError> {
    if ts.len() == 0 {
        Ok(Seq::empty())
    } else {
        adapt_spec(ret, ts)
    }
}

pub open spec fn result_view(r: Result<Vec<Val>, ConvertError>) -> Result<Seq<Val>, ConvertError> {
    match r {
        Ok(v) => Ok(v@),
        Err(e) => Err(e),
    }
}

/// Skipping values that convert does not move the first failing index.
pub proof fn lemma_first_bad_skip(hs: Seq<HostValue>, ts: Seq<ValType>, k: int, i: int)
    requires
        0 <= k <= i <= hs.len(),
        forall|j: int| k <= j < i ==> converts(hs[j], ts[j]),
    ensures
        first_bad(hs, ts, k) == first_bad(hs, ts, i),
    decreases i - k,
{
    if k < i {
        lemma_first_bad_skip(hs, ts, k + 1, i);
    }
}

fn convert_all_exec(hs: &Vec<HostValue>, ts: &Vec<ValType>) -> (r: Result<Vec<Val>, ConvertError>)
    requires
        hs@.len() == ts@.len(),
    ensures
        result_view(r) == convert_all(hs@, ts@),
{
    let mut out: Vec<Val> = Vec::new();
    let mut i: usize = 0;
    while i < hs.len()
        invariant
            hs@.len() == ts@.len(),
            i <= hs@.len(),
            out@.len() == i,
            forall|j: int| 0 <= j < i ==> converts(hs@[j], ts@[j]),
            forall|j: int| 0 <= j < i ==> out@[j] == vm_of(hs@[j], ts@[j])->Some_0,
        decreases hs@.len() - i,
    {
        match to_vm(&hs[i], ts[i]) {
            Some(v) => {
                out.push(v);
            },
            None => {
                proof {
                    lemma_first_bad_skip(hs@, ts@, 0, i as int);
                }
                return Err(ConvertError::Conversion { index: i, expected_type: ts[i] });
            },
        }
        i = i + 1;
    }
    proof {
        lemma_first_bad_skip(hs@, ts@, 0, i as int);
        assert(out@ =~= convert_each(hs@, ts@));
    }
    Ok(out)
}

/// Adapts host arguments to a function's parameter types: the counts must
/// agree, then each argument converts at its own type.
pub fn adapt_params(args: &Vec<HostValue>, ts: &Vec<ValType>) -> (r: Result<Vec<Val>, ConvertError>)
    ensures
        result_view(r) == adapt_spec(args@, ts@),
{
    if args.len() != ts.len() {
        return Err(ConvertError::Arity { expected: ts.len(), given: args.len() });
    }
    convert_all_exec(args, ts)
}

/// Accepts the values a host closure returned as the results of a function
/// with result types `ts`.
pub fn accept_results(ts: &Vec<ValType>, ret: &Vec<HostValue>) -> (r: Result<Vec<Val>, ConvertError>)
    ensures
        result_view(r) == accept_spec(ts@, ret@),
{
    if ts.len() == 0 {
        return Ok(Vec::new());
    }
    adapt_params(ret, ts)
}

} // verus!
