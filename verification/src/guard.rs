use vstd::prelude::*;
use crate::revoke::fire_trigger;

verus! {

/// The concurrent set that backs the per-conversation locks.
#[verifier::external_type_specification]
#[verifier::external_body]
#[verifier::reject_recursive_types(K)]
#[verifier::reject_recursive_types(S)]
pub struct ExDashSet<K, S>(dashmap::DashSet<K, S>);

/// The concurrent map that backs the initiator and revocation-handle records.
#[verifier::external_type_specification]
#[verifier::external_body]
#[verifier::reject_recursive_types(K)]
#[verifier::reject_recursive_types(V)]
#[verifier::reject_recursive_types(S)]
pub struct ExDashMap<K, V, S>(dashmap::DashMap<K, V, S>);

/// The lock set, initiator map and handle map as the registry holds them.
pub type LockSet = dashmap::DashSet<i64>;

/// The conversation-to-initiator records' backing map.
pub type OwnerMap = dashmap::DashMap<i64, i64>;

/// The revocation handles' backing map.
pub type HandleMap = dashmap::DashMap<i64, stream_cancel::Trigger>;

/// The initiator record of a registry that holds none.
pub open spec fn no_owners() -> Map<i64, i64> {
    Map::empty()
}

/// The conversations a lock set currently holds.
pub uninterp spec fn lock_elems(s: LockSet) -> Set<i64>;

/// The conversation-to-initiator records an initiator map currently holds.
pub uninterp spec fn owner_entries(m: OwnerMap) -> Map<i64, i64>;

/// The conversations for which a handle map currently holds a revocation handle.
pub uninterp spec fn handle_keys(m: HandleMap) -> Set<i64>;

/// Relies on dashmap::DashSet::new: a fresh set holds nothing.
#[verifier::external_body]
fn lock_set_new() -> (s: LockSet)
    ensures
        lock_elems(s) == Set::<i64>::empty(),
{
    dashmap::DashSet::new()
}

/// Relies on dashmap::DashSet::insert: adds the key, and reports whether the
/// key was absent before, in one atomic step.
#[verifier::external_body]
fn lock_set_insert(s: &mut LockSet, k: i64) -> (fresh: bool)
    ensures
        fresh == !lock_elems(*old(s)).contains(k),
        lock_elems(*final(s)) == lock_elems(*old(s)).insert(k),
{
    s.insert(k)
}

/// Relies on dashmap::DashSet::remove: takes the key out, and hands it back
/// if it was present.
#[verifier::external_body]
fn lock_set_remove(s: &mut LockSet, k: i64) -> (removed: Option<i64>)
    ensures
        removed is Some <==> lock_elems(*old(s)).contains(k),
        lock_elems(*final(s)) == lock_elems(*old(s)).remove(k),
{
    s.remove(&k)
}

/// Relies on dashmap::DashMap::new: a fresh map holds nothing.
#[verifier::external_body]
fn owner_map_new() -> (m: OwnerMap)
    ensures
        owner_entries(m) == no_owners(),
{
    dashmap::DashMap::new()
}

/// Relies on dashmap::DashMap::insert: maps the key to the value and hands
/// back what the key was mapped to before, if anything.
#[verifier::external_body]
fn owner_map_insert(m: &mut OwnerMap, k: i64, v: i64) -> (prev: Option<i64>)
    ensures
        owner_entries(*final(m)) == owner_entries(*old(m)).insert(k, v),
        prev is Some <==> owner_entries(*old(m)).dom().contains(k),
{
    m.insert(k, v)
}

/// Relies on dashmap::DashMap::get: a read-only lookup of the value under
/// the key.
#[verifier::external_body]
fn owner_map_get(m: &OwnerMap, k: i64) -> (r: Option<i64>)
    ensures
        r is Some <==> owner_entries(*m).dom().contains(k),
        r matches Some(v) ==> v == owner_entries(*m)[k],
{
    m.get(&k).map(|entry| *entry)
}

/// Relies on dashmap::DashMap::remove: takes the entry under the key out,
/// and hands its value back if it was present.
#[verifier::external_body]
fn owner_map_remove(m: &mut OwnerMap, k: i64) -> (prev: Option<i64>)
    ensures
        owner_entries(*final(m)) == owner_entries(*old(m)).remove(k),
        prev is Some <==> owner_entries(*old(m)).dom().contains(k),
{
    m.remove(&k).map(|(_, v)| v)
}

/// Relies on dashmap::DashMap::new: a fresh map holds nothing.
#[verifier::external_body]
fn handle_map_new() -> (m: HandleMap)
    ensures
        handle_keys(m) == Set::<i64>::empty(),
{
    dashmap::DashMap::new()
}

/// Relies on dashmap::DashMap::insert: stores the handle under the key and
/// hands back the handle stored there before, if any.
#[verifier::external_body]
fn handle_map_insert(
    m: &mut HandleMap,
    k: i64,
    t: stream_cancel::Trigger,
) -> (prev: Option<stream_cancel::Trigger>)
    ensures
        handle_keys(*final(m)) == handle_keys(*old(m)).insert(k),
        prev is Some <==> handle_keys(*old(m)).contains(k),
{
    m.insert(k, t)
}

/// Relies on dashmap::DashMap::remove: atomically takes the handle under the
/// key out, so that no two callers can both obtain it.
#[verifier::external_body]
fn handle_map_take(
    m: &mut HandleMap,
    k: i64,
) -> (t: Option<stream_cancel::Trigger>)
    ensures
        t is Some <==> handle_keys(*old(m)).contains(k),
        handle_keys(*final(m)) == handle_keys(*old(m)).remove(k),
{
    m.remove(&k).map(|(_, v)| v)
}

/// What a cancel request came to.
#[derive(Clone, Copy, Debug, PartialEq, Eq, Structural)]
pub enum CancelOutcome {
    /// The requester is not the participant who started the transfer
    /// (or no transfer is active): alert, change nothing.
    Unauthorized,
    /// The revocation handle was claimed and fired.
    Fired,
    /// Authorized, but the handle was already gone (the transfer finished,
    /// or an earlier cancel claimed it): acknowledge silently.
    AlreadyGone,
}

/// Per-conversation mutual exclusion and ownership for transfers: at most
/// one transfer per conversation, a record of who may cancel it, and the
/// revocation handle of its in-flight stream.
pub struct ConversationGuard {
    locks: LockSet,
    initiators: OwnerMap,
    handles: HandleMap,
}

/// Whether `requester` started the active transfer in `chat`.
pub open spec fn may_cancel(g: ConversationGuard, chat: i64, requester: i64) -> bool {
    g.owners().dom().contains(chat) && g.owners()[chat] == requester
}

impl ConversationGuard {
    /// The conversations with an in-flight transfer.
    pub closed spec fn held(self) -> Set<i64> {
        lock_elems(self.locks)
    }

    /// For each held conversation, the participant who started its transfer.
    pub closed spec fn owners(self) -> Map<i64, i64> {
        owner_entries(self.initiators)
    }

    /// The held conversations whose revocation handle has not been claimed.
    pub closed spec fn revocable(self) -> Set<i64> {
        handle_keys(self.handles)
    }

    /// Registry invariant: initiator records exist exactly for held
    /// conversations, and revocation handles only for held ones.
    pub open spec fn wf(self) -> bool {
        self.owners().dom() == self.held() && self.revocable() <= self.held()
    }

    /// An empty registry: nothing held, nobody recorded, no handles.
    pub fn new() -> (g: ConversationGuard)
        ensures
            g.wf(),
            g.held() == Set::<i64>::empty(),
            g.owners() == no_owners(),
            g.revocable() == Set::<i64>::empty(),
    {
        let g = ConversationGuard {
            locks: lock_set_new(),
            initiators: owner_map_new(),
            handles: handle_map_new(),
        };
        proof {
            assert(g.owners().dom() =~= g.held());
            assert(g.revocable() <= g.held());
        }
        g
    }

    /// Tries to take the conversation's transfer lock for `participant`.
    /// Succeeds exactly when no transfer is active there; on failure nothing
    /// is changed, in particular no initiator or handle record.
    pub fn try_acquire(&mut self, chat: i64, participant: i64) -> (acquired: bool)
        requires
            old(self).wf(),
        ensures
            final(self).wf(),
            acquired == !old(self).held().contains(chat),
            acquired ==> final(self).held() == old(self).held().insert(chat),
            acquired ==> final(self).owners() == old(self).owners().insert(chat, participant),
            acquired ==> final(self).revocable() == old(self).revocable(),
            !acquired ==> final(self).held() == old(self).held(),
            !acquired ==> final(self).owners() == old(self).owners(),
            !acquired ==> final(self).revocable() == old(self).revocable(),
    {
        let fresh = lock_set_insert(&mut self.locks, chat);
        if fresh {
            let _prev = owner_map_insert(&mut self.initiators, chat, participant);
            proof {
                assert(self.owners().dom() =~= self.held());
            }
            true
        } else {
            proof {
                assert(self.held() =~= old(self).held());
                assert(self.owners().dom() =~= self.held());
            }
            false
        }
    }

    /// Releases the conversation's lock and discards its initiator record
    /// and (if still present) its revocation handle. Idempotent: releasing a
    /// conversation that holds nothing changes nothing.
    pub fn release(&mut self, chat: i64)
        requires
            old(self).wf(),
        ensures
            final(self).wf(),
            final(self).held() == old(self).held().remove(chat),
            final(self).owners() == old(self).owners().remove(chat),
            final(self).revocable() == old(self).revocable().remove(chat),
            !old(self).held().contains(chat) ==> final(self).held() == old(self).held()
                && final(self).owners() == old(self).owners()
                && final(self).revocable() == old(self).revocable(),
    {
        match handle_map_take(&mut self.handles, chat) {
            Some(t) => fire_trigger(t),
            None => {}
        }
        let _prev = owner_map_remove(&mut self.initiators, chat);
        let _was = lock_set_remove(&mut self.locks, chat);
        proof {
            assert(self.owners().dom() =~= self.held());
            assert forall|c: i64| self.revocable().contains(c) implies self.held().contains(
                c,
            ) by {
                assert(old(self).revocable().contains(c));
            }
            if !old(self).held().contains(chat) {
                assert(self.held() =~= old(self).held());
                assert(self.owners() =~= old(self).owners());
                assert(self.revocable() =~= old(self).revocable());
            }
        }
    }

    /// The participant allowed to cancel the active transfer in `chat`,
    /// if one is active.
    pub fn authorized_canceller(&self, chat: i64) -> (r: Option<i64>)
        ensures
            r == if self.owners().dom().contains(chat) {
                Some(self.owners()[chat])
            } else {
                None::<i64>
            },
    {
        owner_map_get(&self.initiators, chat)
    }

    /// Stores the revocation handle of the transfer just started in `chat`.
    pub fn register_handle(&mut self, chat: i64, handle: stream_cancel::Trigger)
        requires
            old(self).wf(),
            old(self).held().contains(chat),
            !old(self).revocable().contains(chat),
        ensures
            final(self).wf(),
            final(self).held() == old(self).held(),
            final(self).owners() == old(self).owners(),
            final(self).revocable() == old(self).revocable().insert(chat),
    {
        let _prev = handle_map_insert(&mut self.handles, chat, handle);
    }

    /// Atomically claims the conversation's revocation handle, so that only
    /// one cancel request can ever fire it.
    pub fn take_handle(&mut self, chat: i64) -> (t: Option<stream_cancel::Trigger>)
        requires
            old(self).wf(),
        ensures
            final(self).wf(),
            t is Some <==> old(self).revocable().contains(chat),
            final(self).held() == old(self).held(),
            final(self).owners() == old(self).owners(),
            final(self).revocable() == old(self).revocable().remove(chat),
    {
        let t = handle_map_take(&mut self.handles, chat);
        proof {
            assert forall|c: i64| self.revocable().contains(c) implies self.held().contains(
                c,
            ) by {
                assert(old(self).revocable().contains(c));
            }
        }
        t
    }

    /// Handles a cancel request from `requester` for `chat`: refuse anyone
    /// but the transfer's initiator; otherwise claim and fire the handle if
    /// it is still there, and do nothing more if it is already gone. The
    /// lock and the initiator record stay as they are either way.
    pub fn cancel(&mut self, chat: i64, requester: i64) -> (outcome: CancelOutcome)
        requires
            old(self).wf(),
        ensures
            final(self).wf(),
            final(self).held() == old(self).held(),
            final(self).owners() == old(self).owners(),
            outcome == CancelOutcome::Unauthorized <==> !may_cancel(*old(self), chat, requester),
            outcome == CancelOutcome::Unauthorized ==> final(self).revocable() == old(
                self,
            ).revocable(),
            outcome == CancelOutcome::Fired <==> may_cancel(*old(self), chat, requester) && old(
                self,
            ).revocable().contains(chat),
            outcome == CancelOutcome::AlreadyGone <==> may_cancel(*old(self), chat, requester)
                && !old(self).revocable().contains(chat),
            outcome != CancelOutcome::Unauthorized ==> final(self).revocable() == old(
                self,
            ).revocable().remove(chat),
            final(self).revocable().contains(chat) == (outcome
                == CancelOutcome::Unauthorized && old(self).revocable().contains(chat)),
    {
        let owner = self.authorized_canceller(chat);
        let authorized = match owner {
            Some(p) => p == requester,
            None => false,
        };
        if !authorized {
            return CancelOutcome::Unauthorized;
        }
        match self.take_handle(chat) {
            Some(t) => {
                fire_trigger(t);
                CancelOutcome::Fired
            }
            None => {
                proof {
                    assert(self.revocable() =~= old(self).revocable().remove(chat));
                }
                CancelOutcome::AlreadyGone
            }
        }
    }
}

/// Law: locks are exclusive. After one caller acquires a conversation, the
/// conversation is held, so `try_acquire` (whose success is exactly the
/// absence of the lock) must refuse every further caller until release: no
/// two transfers can hold one conversation at once.
pub proof fn lemma_no_double_acquire(held: Set<i64>, chat: i64)
    ensures
        held.insert(chat).contains(chat),
{
}

/// Law: the revocation handle is single-consumer. Once a cancel has claimed
/// it (the registry state moved from `rev` to `rev.remove(chat)`), claiming
/// again finds nothing and changes nothing.
pub proof fn lemma_cancel_idempotent(rev: Set<i64>, chat: i64)
    ensures
        !rev.remove(chat).contains(chat),
        rev.remove(chat).remove(chat) == rev.remove(chat),
{
    assert(rev.remove(chat).remove(chat) =~= rev.remove(chat));
}

} // verus!
