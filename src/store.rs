//! The per-store state that the bridge reads and writes: the user data, the
//! held-exception slot, the values retained for the engine's lifetime, and the
//! caller scopes that are open.
use vstd::prelude::*;
use crate::value::HostValue;

verus! {

/// State kept beside a store's engine context.
pub struct StoreData {
    user_data: HostValue,
    exception: Option<u64>,
    retained: Vec<u64>,
    open_scopes: Vec<u64>,
    next_scope: u64,
}

impl StoreData {
    /// Every open scope was handed out before `next_scope`, in increasing order.
    pub closed spec fn wf(&self) -> bool {
        &&& forall|i: int| 0 <= i < self.open_scopes@.len() ==> self.open_scopes@[i] < self.next_scope
        &&& forall|i: int, j: int| 0 <= i < j < self.open_scopes@.len()
            ==> self.open_scopes@[i] < self.open_scopes@[j]
    }

    pub closed spec fn user_data_spec(&self) -> HostValue {
        self.user_data
    }

    /// The host exception held while the engine unwinds, if any.
    pub closed spec fn held(&self) -> Option<u64> {
        self.exception
    }

    /// The host objects kept alive for as long as the engine may use them.
    pub closed spec fn retained_spec(&self) -> Seq<u64> {
        self.retained@
    }

    /// Whether the caller scope named `g` is open.
    pub open spec fn is_open(&self, g: u64) -> bool {
        self.scopes().contains(g)
    }

    /// The name the next opened scope will get.
    pub closed spec fn next_scope_spec(&self) -> u64 {
        self.next_scope
    }

    /// The open scopes, outermost first.
    pub closed spec fn scopes(&self) -> Seq<u64> {
        self.open_scopes@
    }

    /// Every open scope was named before the next one.
    pub proof fn lemma_scopes_below_next(&self)
        requires
            self.wf(),
        ensures
            forall|i: int| 0 <= i < self.scopes().len() ==> self.scopes()[i] < self.next_scope_spec(),
    {
    }

    pub fn new(user_data: HostValue) -> (r: StoreData)
        ensures
            r.wf(),
            r.user_data_spec() == user_data,
            r.held() is None,
            r.retained_spec() == Seq::<u64>::empty(),
            r.scopes() == Seq::<u64>::empty(),
            r.next_scope_spec() == 0,
    {
        StoreData {
            user_data,
            exception: None,
            retained: Vec::new(),
            open_scopes: Vec::new(),
            next_scope: 0,
        }
    }

    pub fn user_data(&self) -> (r: HostValue)
        ensures
            r == self.user_data_spec(),
    {
        self.user_data
    }

    /// Holds a raised host exception; one that was held already is replaced,
    /// so the most recent raise is the one recovered.
    pub fn hold(&mut self, e: u64)
        ensures
            final(self).held() == Some(e),
            final(self).user_data_spec() == old(self).user_data_spec(),
            final(self).retained_spec() == old(self).retained_spec(),
            final(self).scopes() == old(self).scopes(),
            final(self).next_scope_spec() == old(self).next_scope_spec(),
            old(self).wf() ==> final(self).wf(),
    {
        self.exception = Some(e);
    }

    /// Takes the held exception out, leaving the slot empty.
    pub fn take_exception(&mut self) -> (r: Option<u64>)
        ensures
            r == old(self).held(),
            final(self).held() is None,
            final(self).user_data_spec() == old(self).user_data_spec(),
            final(self).retained_spec() == old(self).retained_spec(),
            final(self).scopes() == old(self).scopes(),
            final(self).next_scope_spec() == old(self).next_scope_spec(),
            old(self).wf() ==> final(self).wf(),
    {
        let r = self.exception;
        self.exception = None;
        r
    }

    /// Keeps a host object alive for the store's lifetime.
    pub fn retain(&mut self, v: u64)
        ensures
            final(self).retained_spec() == old(self).retained_spec().push(v),
            final(self).held() == old(self).held(),
            final(self).user_data_spec() == old(self).user_data_spec(),
            final(self).scopes() == old(self).scopes(),
            final(self).next_scope_spec() == old(self).next_scope_spec(),
            old(self).wf() ==> final(self).wf(),
    {
        self.retained.push(v);
    }

    /// Opens a caller scope for one closure invocation. `None` once every
    /// scope name has been used.
    pub fn open_scope(&mut self) -> (r: Option<Caller>)
        requires
            old(self).wf(),
        ensures
            final(self).wf(),
            final(self).held() == old(self).held(),
            final(self).user_data_spec() == old(self).user_data_spec(),
            final(self).retained_spec() == old(self).retained_spec(),
            old(self).next_scope_spec() == u64::MAX ==> r is None && *final(self) == *old(self),
            old(self).next_scope_spec() < u64::MAX ==> r == Some(Caller { scope: old(self).next_scope_spec() })
                && final(self).scopes() == old(self).scopes().push(old(self).next_scope_spec())
                && final(self).next_scope_spec() == old(self).next_scope_spec() + 1,
    {
        if self.next_scope == u64::MAX {
            return None;
        }
        let g = self.next_scope;
        self.open_scopes.push(g);
        self.next_scope = g + 1;
        Some(Caller { scope: g })
    }

    /// Closes the innermost open scope, which must be `c`'s.
    pub fn close_scope(&mut self, c: Caller)
        requires
            old(self).wf(),
            old(self).scopes().len() > 0,
            old(self).scopes().last() == c.scope,
        ensures
            final(self).wf(),
            final(self).scopes() == old(self).scopes().drop_last(),
            !final(self).is_open(c.scope),
            final(self).held() == old(self).held(),
            final(self).user_data_spec() == old(self).user_data_spec(),
            final(self).retained_spec() == old(self).retained_spec(),
            final(self).next_scope_spec() == old(self).next_scope_spec(),
    {
        self.open_scopes.pop();
        proof {
            let s = old(self).open_scopes@;
            assert forall|i: int| 0 <= i < s.len() - 1 implies s[i] != c.scope by {
                assert(s[i] < s[s.len() - 1]);
            }
        }
    }
}

/// The view of an in-flight call that a host closure gets as its first
/// argument. It names a scope of its store, and answers only while that scope
/// is open.
#[derive(Clone, Copy, Debug, PartialEq, Eq, Structural)]
pub struct Caller {
    pub scope: u64,
}

/// What `Caller` operations report.
#[derive(Clone, Copy, Debug, PartialEq, Eq, Structural)]
pub enum CallerError {
    /// The call this context belonged to has returned.
    Expired,
    /// An export of a kind the bridge cannot hand to the host.
    UnsupportedExportKind(ExternKind),
}

/// The kinds of export an instance has.
#[derive(Clone, Copy, Debug, PartialEq, Eq, Structural)]
pub enum ExternKind {
    Func,
    Memory,
    Table,
    Global,
}

/// An export as the engine reports it: a function carries its identity.
#[derive(Clone, Copy, Debug, PartialEq, Eq, Structural)]
pub enum Export {
    Func(u64),
    Memory,
    Table,
    Global,
}

pub open spec fn export_spec(found: Option<Export>) -> Result<Option<HostValue>, CallerError> {
    match found {
        None => Ok(None),
        Some(Export::Func(f)) => Ok(Some(HostValue::Func(f))),
        Some(Export::Memory) => Err(CallerError::UnsupportedExportKind(ExternKind::Memory)),
        Some(Export::Table) => Err(CallerError::UnsupportedExportKind(ExternKind::Table)),
        Some(Export::Global) => Err(CallerError::UnsupportedExportKind(ExternKind::Global)),
    }
}

impl Caller {
    /// The store's user data, while the call is in flight.
    pub fn store_data(&self, store: &StoreData) -> (r: Result<HostValue, CallerError>)
        ensures
            store.is_open(self.scope) ==> r == Ok::<HostValue, CallerError>(store.user_data_spec()),
            !store.is_open(self.scope) ==> r == Err::<HostValue, CallerError>(CallerError::Expired),
    {
        if store.scope_open(self.scope) {
            Ok(store.user_data())
        } else {
            Err(CallerError::Expired)
        }
    }

    /// The export of the calling instance that the engine found under a name,
    /// as a host value. A function export becomes a function handle; the
    /// other kinds are refused.
    pub fn export(&self, store: &StoreData, found: Option<Export>) -> (r: Result<Option<HostValue>, CallerError>)
        ensures
            store.is_open(self.scope) ==> r == export_spec(found),
            !store.is_open(self.scope) ==> r == Err::<Option<HostValue>, CallerError>(CallerError::Expired),
    {
        if !store.scope_open(self.scope) {
            return Err(CallerError::Expired);
        }
        match found {
            None => Ok(None),
            Some(Export::Func(f)) => Ok(Some(HostValue::Func(f))),
            Some(Export::Memory) => Err(CallerError::UnsupportedExportKind(ExternKind::Memory)),
            Some(Export::Table) => Err(CallerError::UnsupportedExportKind(ExternKind::Table)),
            Some(Export::Global) => Err(CallerError::UnsupportedExportKind(ExternKind::Global)),
        }
    }
}

impl StoreData {
    /// Whether the scope named `g` is open.
    pub fn scope_open(&self, g: u64) -> (r: bool)
        ensures
            r == self.is_open(g),
    {
        let mut i: usize = 0;
        while i < self.open_scopes.len()
            invariant
                i <= self.open_scopes@.len(),
                forall|j: int| 0 <= j < i ==> self.open_scopes@[j] != g,
            decreases self.open_scopes@.len() - i,
        {
            if self.open_scopes[i] == g {
                return true;
            }
            i = i + 1;
        }
        false
    }
}

} // verus!
