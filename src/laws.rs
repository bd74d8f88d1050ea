//! Properties that relate several operations of the bridge.
use vstd::prelude::*;
use crate::value::{HostValue, Val, ValType, type_of, vm_of, lemma_vm_of_host_of};
use crate::params::{ConvertError, adapt_spec, convert_all, convert_each, converts, lemma_first_bad_skip};
use crate::store::StoreData;
use crate::trampoline::{HostReturn, ClosureOutcome, TrapReason, closure_args, complete_spec, held_after, host_args, returned_seq};
use crate::func::{InvokeError, shown, unwind_spec};

verus! {

pub open spec fn types_of(vals: Seq<Val>) -> Seq<ValType> {
    Seq::new(vals.len(), |i: int| type_of(vals[i]))
}

proof fn lemma_convert_host_args(vals: Seq<Val>)
    ensures
        convert_all(host_args(vals), types_of(vals)) == Ok::<Seq<Val>, ConvertError>(vals),
{
    let hs = host_args(vals);
    let ts = types_of(vals);
    assert forall|j: int| 0 <= j < hs.len() implies converts(hs[j], ts[j]) && vm_of(hs[j], ts[j])
        == Some(vals[j]) by {
        lemma_vm_of_host_of(vals[j]);
    }
    lemma_first_bad_skip(hs, ts, 0, hs.len() as int);
    assert(convert_each(hs, ts) =~= vals);
}

/// Round trip: the host value that a call with results `vals` shows, when a
/// host closure of the same result types returns it, gives the engine exactly
/// `vals` back.
pub proof fn lemma_results_round_trip(vals: Seq<Val>, shown_value: HostReturn)
    requires
        shown(shown_value, vals),
    ensures
        complete_spec(types_of(vals), ClosureOutcome::Returned(shown_value)) == Ok::<Seq<Val>, TrapReason>(vals),
{
    let ts = types_of(vals);
    if vals.len() == 0 {
        assert(vals =~= Seq::<Val>::empty());
    } else {
        lemma_convert_host_args(vals);
        if vals.len() == 1 {
            assert(returned_seq(shown_value) =~= host_args(vals));
        }
        assert(returned_seq(shown_value) == host_args(vals));
    }
}

/// Arity: arguments whose count differs from the parameter count fail with
/// the declared and the given count, before any conversion.
pub proof fn lemma_argument_arity(args: Seq<HostValue>, ts: Seq<ValType>)
    requires
        args.len() != ts.len(),
    ensures
        adapt_spec(args, ts) == Err::<Seq<Val>, ConvertError>(
            ConvertError::Arity { expected: ts.len() as usize, given: args.len() as usize },
        ),
{
}

/// A closure with one declared result may return a bare value or a sequence
/// holding that value alone: the engine gets the same either way.
pub proof fn lemma_single_result_shapes(t: ValType, v: HostValue, l: HostReturn)
    requires
        l matches HostReturn::List(items) && items@ == seq![v],
    ensures
        complete_spec(seq![t], ClosureOutcome::Returned(HostReturn::Value(v))) == complete_spec(
            seq![t],
            ClosureOutcome::Returned(l),
        ),
{
    assert(returned_seq(HostReturn::Value(v)) == returned_seq(l));
}

/// With no declared results whatever a closure returns is ignored.
pub proof fn lemma_no_results_ignored(r: HostReturn)
    ensures
        complete_spec(Seq::<ValType>::empty(), ClosureOutcome::Returned(r)) == Ok::<Seq<Val>, TrapReason>(
            Seq::<Val>::empty(),
        ),
{
}

/// With two declared results a bare value is a sequence of one, and fails
/// with the declared and the given count.
pub proof fn lemma_two_results_bare_value(t0: ValType, t1: ValType, v: HostValue)
    ensures
        complete_spec(seq![t0, t1], ClosureOutcome::Returned(HostReturn::Value(v)))
            == Err::<Seq<Val>, TrapReason>(
            TrapReason::Results(ConvertError::Arity { expected: 2, given: 1 }),
        ),
{
    assert(returned_seq(HostReturn::Value(v)).len() == 1);
}

/// Exception fidelity: when a closure raises `e` during an engine call, the
/// engine is told to trap, and the invocation that unwinds the trap reports
/// `e` itself, whatever the trap's text and whatever the slot held before.
pub proof fn lemma_exception_fidelity(ts: Seq<ValType>, held: Option<u64>, e: u64, text: String)
    ensures
        complete_spec(ts, ClosureOutcome::Raised(e)) == Err::<Seq<Val>, TrapReason>(TrapReason::Raised),
        unwind_spec(held_after(held, ClosureOutcome::Raised(e)), text) == InvokeError::BoxedException(e),
{
}

/// Caller forwarding: the caller context is the closure's first argument,
/// given once, ahead of the engine's arguments in order; the scope it names is
/// not open before the call, is open during it, and is closed after it.
pub proof fn lemma_caller_forwarding(s: StoreData, c: HostValue, params: Seq<Val>)
    requires
        s.wf(),
    ensures
        closure_args(Some(c), params) == seq![c] + closure_args(None, params),
        closure_args(Some(c), params)[0] == c,
        !s.is_open(s.next_scope_spec()),
        s.scopes().push(s.next_scope_spec()).contains(s.next_scope_spec()),
        !s.scopes().push(s.next_scope_spec()).drop_last().contains(s.next_scope_spec()),
{
    s.lemma_scopes_below_next();
    assert(s.scopes().push(s.next_scope_spec()).drop_last() =~= s.scopes());
    assert(s.scopes().push(s.next_scope_spec()).last() == s.next_scope_spec());
}

} // verus!
