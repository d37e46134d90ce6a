//! The scope and handle lifetime model, and the safe call boundary.
//!
//! Every reference native code holds into host-runtime memory is confined to
//! a dynamically nested activation region. The host engine's observable
//! state is modeled explicitly: the stack of open regions, an entry/exit
//! ledger, the pending-exception slot and the once-per-process running flag.
//! Entering a region pushes a fresh region marker; exiting pops it; a handle
//! is usable only while the region it was created in is still open.

use vstd::prelude::*;

use crate::Env;
use crate::value::HostValue;

verus! {

/// The marker raised when the host records an exception: the call must
/// unwind to the nearest guarded boundary.
pub struct Throw;

/// A reference to one host value, tied to the activation region it was
/// created in; it must not be read once that region has exited.
#[derive(PartialEq, Debug)]
pub struct Handle {
    /// What the host value can be observed to hold.
    pub value: HostValue,
    /// The region the handle belongs to.
    pub region: u64,
}

/// The observable state of the host runtime instance.
pub struct Host {
    /// The connection this state belongs to.
    pub env: Env,
    /// The stack of open activation regions, oldest first.
    pub regions: Vec<u64>,
    /// The marker the next region entry will use.
    pub next_region: u64,
    /// How many regions have ever been entered.
    pub enters: u64,
    /// How many regions have ever been exited.
    pub exits: u64,
    /// The exception the host has recorded and nothing has caught yet.
    pub pending: Option<HostValue>,
    /// Whether module setup has completed in this process.
    pub running: bool,
}

impl Host {
    /// The host's bookkeeping is consistent: region markers strictly grow,
    /// all are older than the next marker, and the ledger balances the
    /// number of open regions.
    pub open spec fn wf(self) -> bool {
        &&& forall|i: int, j: int|
            0 <= i < j < self.regions@.len() ==> self.regions@[i] < self.regions@[j]
        &&& forall|i: int| 0 <= i < self.regions@.len() ==> self.regions@[i] < self.next_region
        &&& self.exits <= self.enters
        &&& self.enters - self.exits == self.regions@.len()
    }

    /// Whether the region a handle belongs to is still open.
    pub open spec fn open_region(self, region: u64) -> bool {
        self.regions@.contains(region)
    }

    /// Enters a nested activation region and hands back its marker.
    pub fn enter_region(&mut self) -> (r: u64)
        requires
            old(self).wf(),
            old(self).enters < u64::MAX,
            old(self).next_region < u64::MAX,
        ensures
            final(self).wf(),
            r == old(self).next_region,
            final(self).regions@ == old(self).regions@.push(r),
            final(self).next_region == old(self).next_region + 1,
            final(self).enters == old(self).enters + 1,
            final(self).exits == old(self).exits,
            final(self).env == old(self).env,
            final(self).pending == old(self).pending,
            final(self).running == old(self).running,
    {
        let r = self.next_region;
        self.regions.push(r);
        self.next_region = self.next_region + 1;
        self.enters = self.enters + 1;
        r
    }

    /// Exits the innermost open region, releasing every reference created
    /// since its entry.
    pub fn exit_region(&mut self)
        requires
            old(self).wf(),
            old(self).regions@.len() > 0,
        ensures
            final(self).wf(),
            final(self).regions@ == old(self).regions@.drop_last(),
            final(self).exits == old(self).exits + 1,
            final(self).enters == old(self).enters,
            final(self).next_region == old(self).next_region,
            final(self).env == old(self).env,
            final(self).pending == old(self).pending,
            final(self).running == old(self).running,
    {
        let _ = self.regions.pop();
        self.exits = self.exits + 1;
    }

    /// Records an exception with the host.
    pub fn throw(&mut self, v: HostValue)
        ensures
            *final(self) == (Host { pending: Some(v), ..*old(self) }),
    {
        self.pending = Some(v);
    }

    /// Clears and hands back the pending exception, if one is recorded.
    pub fn catch_pending(&mut self) -> (r: Option<HostValue>)
        ensures
            r == old(self).pending,
            *final(self) == (Host { pending: None, ..*old(self) }),
    {
        self.pending.take()
    }
}

/// What the boundary decides once the guarded call has run: a pending host
/// exception is captured as a handle in the innermost open region and
/// returned as a typed error, the pending slot cleared; otherwise the
/// returned value passes through and the host is untouched.
pub open spec fn boundary_spec<T>(h: Host, res: Result<T, Throw>) -> (Host, Result<T, Handle>)
    recommends
        h.pending is Some ==> h.regions@.len() > 0,
        res is Err ==> h.pending is Some,
{
    match h.pending {
        Some(exc) => (
            (Host { pending: None, ..h }),
            Err(Handle { value: exc, region: h.regions@.last() }),
        ),
        None => (h, Ok(res->Ok_0)),
    }
}

/// Resolves the outcome of one guarded call. A call that unwound with a
/// throw marker while the host records no exception is an unrecoverable
/// internal-logic fault, distinct from the expected outcomes; it is
/// excluded by precondition, so the verified boundary never aborts.
pub fn resolve_boundary<T>(host: Host, res: Result<T, Throw>) -> (r: (Host, Result<T, Handle>))
    requires
        host.pending is Some ==> host.regions@.len() > 0,
        res is Err ==> host.pending is Some,
    ensures
        r == boundary_spec(host, res),
{
    let mut h = host;
    match h.catch_pending() {
        Some(exc) => {
            let region = h.regions[h.regions.len() - 1];
            (h, Err(Handle { value: exc, region }))
        },
        None => match res {
            Ok(v) => (h, Ok(v)),
            Err(_) => vstd::pervasive::unreached(),
        },
    }
}

impl Env {
    /// Runs a fallible computation under the exception guard: exactly one of
    /// a returned value or a captured host exception comes out.
    pub fn try_catch<T, F: FnOnce(Host) -> (Host, Result<T, Throw>)>(self, host: Host, f: F) -> (r:
        (Host, Result<T, Handle>))
        requires
            call_requires(f, (host,)),
            forall|out: (Host, Result<T, Throw>)|
                #[trigger] call_ensures(f, (host,), out) ==> (out.0.pending is Some
                    ==> out.0.regions@.len() > 0) && (out.1 is Err ==> out.0.pending is Some),
        ensures
            exists|mid: (Host, Result<T, Throw>)|
                #[trigger] call_ensures(f, (host,), mid) && r == boundary_spec(mid.0, mid.1),
    {
        let out = f(host);
        resolve_boundary(out.0, out.1)
    }
}

/// Law: the boundary keeps the two failure worlds apart. A pending host
/// exception always comes back as a typed error carrying the thrown value,
/// with the pending slot cleared, and never disturbs the region stack; a
/// normally returned value always passes through unchanged. A native
/// unwind is the one event that crosses the boundary abruptly; it is never
/// turned into a typed error, and lies outside this model.
pub proof fn lemma_boundary_separates_outcomes<T>(h: Host, res: Result<T, Throw>)
    requires
        res is Err ==> h.pending is Some,
    ensures
        h.pending matches Some(exc) ==> {
            &&& boundary_spec(h, res).1 matches Err(hd) && hd.value == exc
            &&& boundary_spec(h, res).0.pending is None
            &&& boundary_spec(h, res).0.regions == h.regions
        },
        h.pending is None ==> (res matches Ok(v) && boundary_spec(h, res) == (h, Ok::<T, Handle>(
            v,
        ))),
{
}

/// The metadata of one activation region: the connection it belongs to and
/// whether the context built on it may currently be used.
pub struct ScopeMetadata {
    pub env: Env,
    pub active: bool,
}

/// An activation region made available to a scope body: its metadata plus
/// the marker of the region entered on its behalf.
pub struct Scope {
    pub metadata: ScopeMetadata,
    pub region: u64,
}

/// How the host and the scope handed to a region body relate to the state
/// the region was entered from.
pub open spec fn entered(h0: Host, h: Host, s: Scope) -> bool {
    &&& h.env == h0.env
    &&& h.regions@ == h0.regions@.push(h0.next_region)
    &&& h.next_region == h0.next_region + 1
    &&& h.enters == h0.enters + 1
    &&& h.exits == h0.exits
    &&& h.pending == h0.pending
    &&& h.running == h0.running
    &&& s.metadata.env == h0.env
    &&& s.metadata.active
    &&& s.region == h0.next_region
}

/// How the host after the region exit relates to the body's final state.
pub open spec fn exited(hb: Host, h1: Host) -> bool {
    &&& h1.regions@ == hb.regions@.drop_last()
    &&& h1.exits == hb.exits + 1
    &&& h1.enters == hb.enters
    &&& h1.next_region == hb.next_region
    &&& h1.env == hb.env
    &&& h1.pending == hb.pending
    &&& h1.running == hb.running
}

impl Scope {
    /// Enters a fresh activation region, runs the body inside it, and exits
    /// the region on the way out, whatever the body returned — a value or
    /// an error travelling inside it.
    pub fn with<T, F: FnOnce(Host, Scope) -> (Host, T)>(host: Host, f: F) -> (r: (Host, T))
        requires
            host.wf(),
            host.enters < u64::MAX,
            host.next_region < u64::MAX,
            forall|h: Host, s: Scope| entered(host, h, s) ==> call_requires(f, (h, s)),
            forall|h: Host, s: Scope, out: (Host, T)|
                entered(host, h, s) && #[trigger] call_ensures(f, (h, s), out) ==> out.0.wf()
                    && out.0.regions@ == h.regions@,
        ensures
            r.0.wf(),
            r.0.regions@ == host.regions@,
            exists|h: Host, s: Scope, out: (Host, T)|
                entered(host, h, s) && #[trigger] call_ensures(f, (h, s), out) && out.1 == r.1
                    && exited(out.0, r.0),
    {
        let mut h = host;
        let region = h.enter_region();
        let scope = Scope { metadata: ScopeMetadata { env: h.env, active: true }, region };
        proof {
            assert(entered(host, h, scope));
        }
        let ghost h_entered = h;
        let ghost s_entered = scope;
        let out = f(h, scope);
        let mut hb = out.0;
        let result = out.1;
        let ghost hb_body = hb;
        proof {
            assert(call_ensures(f, (h_entered, s_entered), (hb_body, result)));
            assert(hb.regions@.len() > 0);
        }
        hb.exit_region();
        proof {
            assert(hb.regions@ =~= host.regions@);
            assert(exited(hb_body, hb));
        }
        (hb, result)
    }
}

/// Law: one region exit is performed for each region entry, also when the
/// body comes back with an error inside its result: entering advances the
/// entry ledger by exactly one, the body leaves the region stack as it
/// found it, and the exit advances the exit ledger by exactly one, closing
/// exactly the region that was entered.
pub proof fn lemma_region_exit_once(h0: Host, h: Host, s: Scope, hb: Host, h1: Host)
    requires
        h0.wf(),
        entered(h0, h, s),
        hb.regions@ == h.regions@,
        exited(hb, h1),
    ensures
        h.enters == h0.enters + 1,
        h1.exits == hb.exits + 1,
        h1.regions@ == h0.regions@,
        !h1.open_region(s.region),
{
    assert(h1.regions@ =~= h0.regions@);
    assert forall|i: int| 0 <= i < h0.regions@.len() implies h0.regions@[i] != s.region by {
        assert(h0.regions@[i] < h0.next_region);
    }
    if h1.open_region(s.region) {
        let i = choose|i: int| 0 <= i < h1.regions@.len() && h1.regions@[i] == s.region;
        assert(h0.regions@[i] == s.region);
    }
}

/// The capability a context exposes over its activation region.
pub trait ContextInternal: Sized {
    /// The metadata the context is built on.
    spec fn metadata_view(&self) -> ScopeMetadata;

    fn scope_metadata(&self) -> (r: &ScopeMetadata)
        ensures
            *r == self.metadata_view(),
    ;

    fn env(&self) -> (r: Env)
        ensures
            r == self.metadata_view().env,
    ;

    fn is_active(&self) -> (r: bool)
        ensures
            r == self.metadata_view().active,
    ;

    /// An operation on an inactive context is a use-after-scope-exit bug,
    /// not a recoverable condition, and must fail loudly; an active context
    /// is therefore demanded of every verified caller.
    fn check_active(&self)
        requires
            self.metadata_view().active,
    ;

    fn activate(&mut self)
        ensures
            final(self).metadata_view() == (ScopeMetadata {
                active: true,
                ..old(self).metadata_view()
            }),
    ;

    fn deactivate(&mut self)
        ensures
            final(self).metadata_view() == (ScopeMetadata {
                active: false,
                ..old(self).metadata_view()
            }),
    ;
}

/// The context a module's entry callback receives: the region metadata and
/// the handle to the module's export object.
pub struct ModuleContext {
    pub metadata: ScopeMetadata,
    pub exports: Handle,
}

impl ContextInternal for ModuleContext {
    open spec fn metadata_view(&self) -> ScopeMetadata {
        self.metadata
    }

    fn scope_metadata(&self) -> (r: &ScopeMetadata) {
        &self.metadata
    }

    fn env(&self) -> (r: Env) {
        self.metadata.env
    }

    fn is_active(&self) -> (r: bool) {
        self.metadata.active
    }

    fn check_active(&self) {
        if !self.metadata.active {
            vstd::pervasive::unreached::<()>();
        }
    }

    fn activate(&mut self) {
        self.metadata.active = true;
    }

    fn deactivate(&mut self) {
        self.metadata.active = false;
    }
}

impl ModuleContext {
    /// Runs a fallible computation against this context's connection under
    /// the exception guard. The context itself carries no host state — it
    /// is a capability over the connection — so the guarded computation
    /// works on the host state directly.
    pub fn try_catch_internal<T, F: FnOnce(Host) -> (Host, Result<T, Throw>)>(
        &mut self,
        host: Host,
        f: F,
    ) -> (r: (Host, Result<T, Handle>))
        requires
            call_requires(f, (host,)),
            forall|out: (Host, Result<T, Throw>)|
                #[trigger] call_ensures(f, (host,), out) ==> (out.0.pending is Some
                    ==> out.0.regions@.len() > 0) && (out.1 is Err ==> out.0.pending is Some),
        ensures
            *final(self) == *old(self),
            exists|mid: (Host, Result<T, Throw>)|
                #[trigger] call_ensures(f, (host,), mid) && r == boundary_spec(mid.0, mid.1),
    {
        let env = self.metadata.env;
        env.try_catch(host, f)
    }
}

/// How the host and context handed to the module's entry callback relate to
/// the state module initialization started from.
pub open spec fn module_entered(h0: Host, h: Host, cx: ModuleContext, exports: HostValue) -> bool {
    &&& h.env == h0.env
    &&& h.regions@ == h0.regions@.push(h0.next_region)
    &&& h.next_region == h0.next_region + 1
    &&& h.enters == h0.enters + 1
    &&& h.exits == h0.exits
    &&& h.pending == h0.pending
    &&& h.running
    &&& cx.metadata.env == h0.env
    &&& cx.metadata.active
    &&& cx.exports.value == exports
    &&& cx.exports.region == h0.next_region
}

/// Performs once-per-process module setup: records that the runtime is
/// running, enters the module's activation region, hands the entry callback
/// a context holding the export object, and exits the region afterwards,
/// whether or not the callback failed.
pub fn initialize_module<F: FnOnce(Host, ModuleContext) -> (Host, Result<(), Throw>)>(
    host: Host,
    exports: HostValue,
    init: F,
) -> (r: Host)
    requires
        host.wf(),
        host.enters < u64::MAX,
        host.next_region < u64::MAX,
        forall|h: Host, cx: ModuleContext|
            module_entered(host, h, cx, exports) ==> call_requires(init, (h, cx)),
        forall|h: Host, cx: ModuleContext, out: (Host, Result<(), Throw>)|
            module_entered(host, h, cx, exports) && #[trigger] call_ensures(init, (h, cx), out)
                ==> out.0.wf() && out.0.regions@ == h.regions@ && out.0.running,
    ensures
        r.wf(),
        r.running,
        r.regions@ == host.regions@,
        exists|h: Host, cx: ModuleContext, out: (Host, Result<(), Throw>)|
            module_entered(host, h, cx, exports) && #[trigger] call_ensures(init, (h, cx), out)
                && exited(out.0, r),
{
    let mut h = host;
    h.running = true;
    let region = h.enter_region();
    let cx = ModuleContext {
        metadata: ScopeMetadata { env: h.env, active: true },
        exports: Handle { value: exports, region },
    };
    proof {
        assert(module_entered(host, h, cx, exports));
    }
    let ghost h_entered = h;
    let ghost cx_entered = cx;
    let out = init(h, cx);
    let mut hb = out.0;
    let ghost hb_body = hb;
    proof {
        assert(call_ensures(init, (h_entered, cx_entered), out));
        assert(hb.regions@.len() > 0);
    }
    hb.exit_region();
    proof {
        assert(hb.regions@ =~= host.regions@);
        assert(exited(hb_body, hb));
        assert(call_ensures(init, (h_entered, cx_entered), (hb_body, out.1)));
    }
    hb
}

} // verus!
