//! The plugin manager core: a uniqueness-enforcing registry of loaded plugin
//! identities together with every decision the host's event loop takes.
//!
//! The host performs the outside work (opening a shared library, running a
//! lifecycle hook, delivering a notification, sending a reply) and calls in
//! here before and after each step. The registry is mutated only through
//! these methods, so its invariant — identities are distinct and never equal
//! to the reserved manager identity — holds in every reachable state.

use vstd::prelude::*;
use vstd::string::StringExecFns;

use crate::errors::PluginError;
use crate::notification::Notification;
use crate::rpc::RpcRequest;

verus! {

/// Reserved identity of the manager itself; no plugin may ever use it.
pub const EXEX_MANAGER_ID: &'static str = "ExExManager";

/// The view of the reserved manager identity.
pub open spec fn reserved_id() -> Seq<char> {
    "ExExManager"@
}

/// The views of a sequence of identity strings.
pub open spec fn id_views(v: Seq<String>) -> Seq<Seq<char>> {
    v.map_values(|s: String| s@)
}

/// One administrative step as the registry sees it: a load request carrying
/// the constructed plugin's identity, an unload request, or a notification
/// arrival (which never changes the registry).
pub enum AdminOp {
    Load { id: Seq<char> },
    Unload { id: Seq<char> },
    Notify,
}

/// The set of loaded identities after one administrative step. A load of a
/// reserved or already-present identity is rejected and changes nothing; an
/// unload of an absent identity is a no-op.
pub open spec fn apply_op(s: Set<Seq<char>>, op: AdminOp) -> Set<Seq<char>> {
    match op {
        AdminOp::Load { id } => {
            if id == reserved_id() || s.contains(id) {
                s
            } else {
                s.insert(id)
            }
        },
        AdminOp::Unload { id } => s.remove(id),
        AdminOp::Notify => s,
    }
}

/// The set of loaded identities after a sequence of administrative steps.
pub open spec fn apply_ops(s: Set<Seq<char>>, ops: Seq<AdminOp>) -> Set<Seq<char>>
    decreases ops.len(),
{
    if ops.len() == 0 {
        s
    } else {
        apply_op(apply_ops(s, ops.drop_last()), ops.last())
    }
}

/// There is a load of `id` at position `i` with no later unload of `id`.
pub open spec fn load_survives_from(ops: Seq<AdminOp>, id: Seq<char>, i: int) -> bool {
    &&& 0 <= i < ops.len()
    &&& ops[i] == (AdminOp::Load { id })
    &&& forall|j: int| i < j < ops.len() ==> ops[j] != (AdminOp::Unload { id })
}

/// `id` was loaded at some point and not unloaded afterwards.
pub open spec fn loaded_and_not_unloaded(ops: Seq<AdminOp>, id: Seq<char>) -> bool {
    exists|i: int| load_survives_from(ops, id, i)
}

/// The plan the event loop executes for one incoming notification: offer it
/// to every loaded plugin, in registry order, then acknowledge the highest
/// committed block number (if the notification committed anything) — exactly
/// one acknowledgement, emitted after all deliveries.
#[derive(Debug)]
pub struct NotificationPlan {
    /// Identities of every plugin the notification must be offered to.
    pub deliveries: Vec<String>,
    /// The advance acknowledgement owed to the upstream producer.
    pub ack: Option<u64>,
}

/// What the event loop must do next for one administrative request.
#[derive(Debug)]
pub enum RpcAction {
    /// Reply with the identities of all loaded plugins.
    ReplyPluginList { ids: Vec<String> },
    /// Reply that the unload completed; if an instance was actually removed,
    /// its identity is here and its `on_unload` hook must run exactly once.
    ReplyUnloaded { unloaded_id: Option<String> },
    /// Begin the load protocol for the artifact at this path.
    StartLoad { plugin_path: String },
}

/// The plugin manager core: the registry of loaded plugin identities.
pub struct ExExPluginManager {
    plugins: Vec<String>,
}

impl ExExPluginManager {
    /// The identities of the loaded plugins, in insertion order.
    pub closed spec fn ids(&self) -> Seq<Seq<char>> {
        id_views(self.plugins@)
    }

    /// The identities of the loaded plugins, as the unordered set the
    /// registry stands for.
    pub open spec fn id_set(&self) -> Set<Seq<char>> {
        self.ids().to_set()
    }

    /// Whether a plugin with this identity is loaded.
    pub open spec fn has_id(&self, id: Seq<char>) -> bool {
        self.ids().contains(id)
    }

    /// Registry invariant: identities are distinct and the reserved manager
    /// identity is never among them.
    pub open spec fn wf(&self) -> bool {
        &&& forall|a: int, b: int|
            0 <= a < b < self.ids().len() ==> self.ids()[a] != self.ids()[b]
        &&& !self.has_id(reserved_id())
    }

    /// Whether a plugin with this identity may be loaded now: it is not the
    /// reserved manager identity, and it is not already present.
    pub open spec fn spec_can_load(&self, id: Seq<char>) -> bool {
        id != reserved_id() && !self.has_id(id)
    }

    /// Creates a manager with no loaded plugins.
    pub fn new() -> (m: Self)
        ensures
            m.wf(),
            m.ids() == Seq::<Seq<char>>::empty(),
            m.id_set() == Set::<Seq<char>>::empty(),
    {
        let m = ExExPluginManager { plugins: Vec::new() };
        proof {
            assert(m.ids() =~= Seq::<Seq<char>>::empty());
            assert(m.id_set() =~= Set::<Seq<char>>::empty());
        }
        m
    }

    /// Finds the registry index of an identity.
    fn find_index(&self, id: &String) -> (r: Option<usize>)
        ensures
            r matches Some(i) ==> i < self.plugins@.len() && self.ids()[i as int] == id@,
            r is Some <==> self.has_id(id@),
    {
        let mut k: usize = 0;
        while k < self.plugins.len()
            invariant
                k <= self.plugins.len(),
                forall|t: int| 0 <= t < k ==> self.ids()[t] != id@,
            decreases self.plugins.len() - k,
        {
            if self.plugins[k].eq(id) {
                proof {
                    assert(self.ids()[k as int] == id@);
                    assert(self.has_id(id@));
                }
                return Some(k);
            }
            k += 1;
        }
        proof {
            if self.has_id(id@) {
                let t = self.ids().lemma_contains_to_index(id@);
                assert(false);
            }
        }
        None
    }

    /// Whether a plugin with this identity is currently loaded.
    pub fn contains_plugin(&self, id: &String) -> (r: bool)
        ensures
            r == self.has_id(id@),
    {
        self.find_index(id).is_some()
    }

    /// Returns the identities of all loaded plugins.
    pub fn plugins(&self) -> (r: Vec<String>)
        ensures
            id_views(r@) == self.ids(),
    {
        let mut r: Vec<String> = Vec::new();
        let mut k: usize = 0;
        while k < self.plugins.len()
            invariant
                k <= self.plugins.len(),
                r@.len() == k,
                forall|t: int| 0 <= t < k ==> r@[t] == self.plugins@[t],
            decreases self.plugins.len() - k,
        {
            r.push(self.plugins[k].clone());
            k += 1;
        }
        proof {
            assert(r@ =~= self.plugins@);
        }
        r
    }

    /// Validates a plugin identity before any lifecycle hook runs: refused,
    /// naming the identity, if it equals the reserved manager identity — that
    /// check comes first — or if it is already loaded.
    pub fn validate_plugin(&self, id: &String) -> (r: Result<(), PluginError>)
        ensures
            r is Ok <==> self.spec_can_load(id@),
            id@ == reserved_id() ==> (r matches Err(PluginError::ReservedIdentity { id: eid })
                && eid@ == id@),
            id@ != reserved_id() && self.has_id(id@) ==> (r matches Err(
                PluginError::DuplicateIdentity { id: eid },
            ) && eid@ == id@),
    {
        let reserved: String = String::from_str("ExExManager");
        if id.eq(&reserved) {
            Err(PluginError::ReservedIdentity { id: id.clone() })
        } else if self.contains_plugin(id) {
            Err(PluginError::DuplicateIdentity { id: id.clone() })
        } else {
            Ok(())
        }
    }

    /// Registers a plugin whose `on_load` hook has succeeded. Validation is
    /// repeated here, so a rejected identity leaves the registry unchanged
    /// (no partial insert); on success the identity is returned back as the
    /// newly assigned identity of the load request.
    pub fn load_plugin(&mut self, id: String) -> (r: Result<String, PluginError>)
        requires
            old(self).wf(),
        ensures
            final(self).wf(),
            r is Ok <==> old(self).spec_can_load(id@),
            r matches Ok(rid) ==> rid@ == id@,
            r is Err ==> *final(self) == *old(self),
            id@ == reserved_id() ==> (r matches Err(PluginError::ReservedIdentity { id: eid })
                && eid@ == id@),
            id@ != reserved_id() && old(self).has_id(id@) ==> (r matches Err(
                PluginError::DuplicateIdentity { id: eid },
            ) && eid@ == id@),
            r is Ok ==> final(self).ids() == old(self).ids().push(id@),
            final(self).id_set() == apply_op(old(self).id_set(), AdminOp::Load { id: id@ }),
    {
        match self.validate_plugin(&id) {
            Err(e) => {
                proof {
                    assert(self.id_set() =~= apply_op(
                        self.id_set(),
                        AdminOp::Load { id: id@ },
                    ));
                }
                Err(e)
            },
            Ok(()) => {
                let rid = id.clone();
                proof {
                    lemma_id_views_push(self.plugins@, id);
                    old(self).ids().lemma_push_to_set_commute(id@);
                }
                self.plugins.push(id);
                proof {
                    lemma_distinct_after_push(old(self).ids(), id@);
                }
                Ok(rid)
            },
        }
    }

    /// Removes the plugin with this identity, if present. Returns whether an
    /// instance was removed — its `on_unload` hook must then run exactly once
    /// before it is dropped. Unloading an absent identity is a successful
    /// no-op, so unloading twice has the same effect as unloading once.
    pub fn unload_plugin(&mut self, id: &String) -> (was_present: bool)
        requires
            old(self).wf(),
        ensures
            final(self).wf(),
            was_present == old(self).has_id(id@),
            !final(self).has_id(id@),
            forall|x: Seq<char>|
                final(self).has_id(x) <==> (old(self).has_id(x) && x != id@),
            final(self).id_set() == apply_op(old(self).id_set(), AdminOp::Unload { id: id@ }),
            !was_present ==> *final(self) == *old(self),
    {
        match self.find_index(id) {
            Some(i) => {
                proof {
                    lemma_id_views_remove(self.plugins@, i as int);
                    lemma_distinct_remove(self.ids(), i as int);
                }
                let _ = self.plugins.remove(i);
                true
            },
            None => {
                proof {
                    assert(self.id_set().remove(id@) =~= self.id_set());
                }
                false
            },
        }
    }

    /// Removes every plugin, returning the identities that were loaded; each
    /// returned instance's `on_unload` hook must run exactly once.
    pub fn unload_all(&mut self) -> (unloaded: Vec<String>)
        requires
            old(self).wf(),
        ensures
            final(self).wf(),
            final(self).ids() == Seq::<Seq<char>>::empty(),
            final(self).id_set() == Set::<Seq<char>>::empty(),
            id_views(unloaded@) == old(self).ids(),
    {
        let mut out: Vec<String> = Vec::new();
        core::mem::swap(&mut self.plugins, &mut out);
        proof {
            assert(self.ids() =~= Seq::<Seq<char>>::empty());
            assert(self.id_set() =~= Set::<Seq<char>>::empty());
        }
        out
    }

    /// Plans the handling of one incoming notification: it is offered to
    /// every loaded plugin — delivery failures are isolated per plugin and
    /// never change the plan — and then acknowledged exactly once if it
    /// committed a chain segment. The registry itself is untouched.
    pub fn handle_notification(&self, notification: &Notification) -> (plan: NotificationPlan)
        requires
            notification.wf(),
        ensures
            id_views(plan.deliveries@) == self.ids(),
            plan.ack == notification.spec_ack(),
    {
        NotificationPlan { deliveries: self.plugins(), ack: notification.ack() }
    }

    /// Dispatches one administrative request: a list request is answered from
    /// the registry, an unload is applied to the registry and answered, and a
    /// load starts the load protocol against the artifact's path. Exactly one
    /// action — carrying exactly one reply, or the start of the protocol that
    /// will produce one — is returned per request.
    pub fn handle_rpc_request(&mut self, req: RpcRequest) -> (action: RpcAction)
        requires
            old(self).wf(),
        ensures
            final(self).wf(),
            req matches RpcRequest::ListPlugins ==> {
                &&& *final(self) == *old(self)
                &&& action matches RpcAction::ReplyPluginList { ids } && id_views(ids@) == old(
                    self,
                ).ids()
            },
            req matches RpcRequest::LoadPlugin { plugin_path } ==> {
                &&& *final(self) == *old(self)
                &&& action == (RpcAction::StartLoad { plugin_path })
            },
            req matches RpcRequest::UnloadPlugin { id } ==> {
                &&& final(self).id_set() == apply_op(
                    old(self).id_set(),
                    AdminOp::Unload { id: id@ },
                )
                &&& !final(self).has_id(id@)
                &&& action matches RpcAction::ReplyUnloaded { unloaded_id } && if old(
                    self,
                ).has_id(id@) {
                    unloaded_id matches Some(u) && u@ == id@
                } else {
                    unloaded_id is None && *final(self) == *old(self)
                }
            },
    {
        match req {
            RpcRequest::ListPlugins => RpcAction::ReplyPluginList { ids: self.plugins() },
            RpcRequest::LoadPlugin { plugin_path } => RpcAction::StartLoad { plugin_path },
            RpcRequest::UnloadPlugin { id } => {
                let was_present = self.unload_plugin(&id);
                let unloaded_id = if was_present {
                    Some(id)
                } else {
                    None
                };
                RpcAction::ReplyUnloaded { unloaded_id }
            },
        }
    }
}

/// Mapping identity strings to views commutes with appending one identity.
proof fn lemma_id_views_push(v: Seq<String>, x: String)
    ensures
        id_views(v.push(x)) == id_views(v).push(x@),
{
    assert(id_views(v.push(x)) =~= id_views(v).push(x@));
}

/// Mapping identity strings to views commutes with removing one identity.
proof fn lemma_id_views_remove(v: Seq<String>, i: int)
    requires
        0 <= i < v.len(),
    ensures
        id_views(v.remove(i)) == id_views(v).remove(i),
{
    v.remove_ensures(i);
    v.map_values(|s: String| s@).remove_ensures(i);
    assert(id_views(v.remove(i)) =~= id_views(v).remove(i));
}

/// Appending an identity that is not yet present keeps identities distinct.
proof fn lemma_distinct_after_push(s: Seq<Seq<char>>, x: Seq<char>)
    requires
        forall|a: int, b: int| 0 <= a < b < s.len() ==> s[a] != s[b],
        !s.contains(x),
    ensures
        forall|a: int, b: int| 0 <= a < b < s.push(x).len() ==> s.push(x)[a] != s.push(x)[b],
{
    assert forall|a: int, b: int|
        0 <= a < b < s.push(x).len() implies s.push(x)[a] != s.push(x)[b] by {
        if b == s.len() {
            assert(s.push(x)[b] == x);
            assert(s.push(x)[a] == s[a]);
            if s[a] == x {
                assert(s.contains(x));
            }
        }
    }
}

/// Removing one position from a distinct sequence removes exactly that
/// element: membership afterwards, distinctness, and the set view.
proof fn lemma_distinct_remove(s: Seq<Seq<char>>, i: int)
    requires
        0 <= i < s.len(),
        forall|a: int, b: int| 0 <= a < b < s.len() ==> s[a] != s[b],
    ensures
        forall|x: Seq<char>| s.remove(i).contains(x) <==> (s.contains(x) && x != s[i]),
        forall|a: int, b: int|
            0 <= a < b < s.remove(i).len() ==> s.remove(i)[a] != s.remove(i)[b],
        s.remove(i).to_set() == s.to_set().remove(s[i]),
{
    let t = s.remove(i);
    s.remove_ensures(i);
    assert forall|x: Seq<char>| t.contains(x) <==> (s.contains(x) && x != s[i]) by {
        if t.contains(x) {
            let k = choose|k: int| 0 <= k < t.len() && t[k] == x;
            if k < i {
                assert(s[k] == x);
            } else {
                assert(s[k + 1] == x);
            }
            assert(s.contains(x));
            assert(x != s[i]);
        }
        if s.contains(x) && x != s[i] {
            let j = choose|j: int| 0 <= j < s.len() && s[j] == x;
            if j < i {
                assert(t[j] == x);
            } else {
                assert(t[j - 1] == x);
            }
            assert(t.contains(x));
        }
    }
    assert forall|a: int, b: int| 0 <= a < b < t.len() implies t[a] != t[b] by {
        let a2: int = if a < i { a } else { a + 1 };
        let b2: int = if b < i { b } else { b + 1 };
        assert(t[a] == s[a2]);
        assert(t[b] == s[b2]);
    }
    assert(t.to_set() =~= s.to_set().remove(s[i]));
}

/// Law: after any sequence of administrative operations, the registry holds
/// exactly the identities that were loaded and not unloaded afterwards —
/// whatever notifications arrived in between. This characterizes the real
/// registry after any call sequence: `new` starts from the empty set, every
/// mutating method ensures its effect on `id_set()` equals `apply_op` of its
/// operation, and notification handling borrows the manager immutably. A
/// load of the reserved manager identity is the one excluded input: it is
/// rejected, so it never counts as loaded.
pub proof fn lemma_registry_is_loads_minus_unloads(ops: Seq<AdminOp>, id: Seq<char>)
    requires
        id != reserved_id(),
    ensures
        apply_ops(Set::<Seq<char>>::empty(), ops).contains(id) <==> loaded_and_not_unloaded(
            ops,
            id,
        ),
    decreases ops.len(),
{
    if ops.len() == 0 {
        assert(!apply_ops(Set::<Seq<char>>::empty(), ops).contains(id));
        assert(!loaded_and_not_unloaded(ops, id)) by {
            if loaded_and_not_unloaded(ops, id) {
                let i = choose|i: int| load_survives_from(ops, id, i);
                assert(false);
            }
        }
    } else {
        let init = ops.drop_last();
        let op = ops.last();
        lemma_registry_is_loads_minus_unloads(init, id);
        let s_init = apply_ops(Set::<Seq<char>>::empty(), init);
        let s_all = apply_ops(Set::<Seq<char>>::empty(), ops);
        assert(s_all == apply_op(s_init, op));
        assert(ops =~= init.push(op));
        match op {
            AdminOp::Load { id: l } => {
                if l == id {
                    assert(s_all.contains(id));
                    assert(load_survives_from(ops, id, ops.len() - 1));
                } else {
                    lemma_survives_push_neutral(init, op, id);
                    assert(s_all.contains(id) == s_init.contains(id));
                }
            },
            AdminOp::Unload { id: u } => {
                if u == id {
                    assert(!s_all.contains(id));
                    assert(!loaded_and_not_unloaded(ops, id)) by {
                        if loaded_and_not_unloaded(ops, id) {
                            let i = choose|i: int| load_survives_from(ops, id, i);
                            assert(ops[ops.len() - 1] == (AdminOp::Unload { id }));
                            assert(ops[i] == (AdminOp::Load { id }));
                            assert(i < ops.len() - 1);
                            assert(false);
                        }
                    }
                } else {
                    lemma_survives_push_neutral(init, op, id);
                    assert(s_all.contains(id) == s_init.contains(id));
                }
            },
            AdminOp::Notify => {
                lemma_survives_push_neutral(init, op, id);
            },
        }
    }
}

/// Appending an operation that neither loads nor unloads `id` does not
/// change whether `id` counts as loaded-and-not-unloaded.
proof fn lemma_survives_push_neutral(ops: Seq<AdminOp>, op: AdminOp, id: Seq<char>)
    requires
        op != (AdminOp::Load { id }),
        op != (AdminOp::Unload { id }),
    ensures
        loaded_and_not_unloaded(ops.push(op), id) <==> loaded_and_not_unloaded(ops, id),
{
    let pushed = ops.push(op);
    if loaded_and_not_unloaded(ops, id) {
        let i = choose|i: int| load_survives_from(ops, id, i);
        assert(pushed[i] == ops[i]);
        assert forall|j: int| i < j < pushed.len() implies pushed[j] != (AdminOp::Unload {
            id,
        }) by {
            if j < ops.len() {
                assert(pushed[j] == ops[j]);
            } else {
                assert(pushed[j] == op);
            }
        }
        assert(load_survives_from(pushed, id, i));
    }
    if loaded_and_not_unloaded(pushed, id) {
        let i = choose|i: int| load_survives_from(pushed, id, i);
        assert(pushed[pushed.len() - 1] == op);
        assert(i < ops.len());
        assert(pushed[i] == ops[i]);
        assert forall|j: int| i < j < ops.len() implies ops[j] != (AdminOp::Unload { id }) by {
            assert(pushed[j] == ops[j]);
        }
        assert(load_survives_from(ops, id, i));
    }
}

/// Law: unloading an identity twice has the same observable effect on the
/// registry as unloading it once.
pub proof fn lemma_unload_idempotent(s: Set<Seq<char>>, id: Seq<char>)
    ensures
        apply_op(apply_op(s, AdminOp::Unload { id }), AdminOp::Unload { id }) == apply_op(
            s,
            AdminOp::Unload { id },
        ),
{
    assert(s.remove(id).remove(id) =~= s.remove(id));
}

} // verus!
