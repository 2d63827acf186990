use vstd::prelude::*;
use dashmap::mapref::entry::Entry;
use dashmap::DashMap;
use stream_cancel::Trigger;

verus! {

#[verifier::external_type_specification]
#[verifier::external_body]
#[verifier::reject_recursive_types(K)]
#[verifier::reject_recursive_types(V)]
#[verifier::reject_recursive_types(S)]
pub struct ExDashMap<K, V, S>(DashMap<K, V, S>);

#[verifier::external_type_specification]
#[verifier::external_body]
pub struct ExTrigger(Trigger);

/// Relies on `stream_cancel::Trigger::cancel`: consuming the trigger makes every stream
/// behind its valve yield end-of-stream.
pub assume_specification[ Trigger::cancel ](t: Trigger);

/// What a lease records: the chat's transfer owner, whether a cancel handle is held,
/// and whether the owner asked for cancellation.
pub struct LeaseView {
    pub owner: i64,
    pub armed: bool,
    pub cancelled: bool,
}

/// The exclusive-ownership record of one chat's active transfer.
pub struct ChatLease {
    owner: i64,
    handle: Option<Trigger>,
    cancelled: bool,
}

impl ChatLease {
    pub closed spec fn view(&self) -> LeaseView {
        LeaseView { owner: self.owner, armed: self.handle.is_some(), cancelled: self.cancelled }
    }
}

/// The concurrent table from chat id to lease.
pub type LeaseMap = DashMap<i64, ChatLease>;

/// What the concurrent lease table holds, chat by chat.
pub uninterp spec fn lease_table(m: LeaseMap) -> Map<i64, LeaseView>;

/// A table without any lease.
pub open spec fn no_leases() -> Map<i64, LeaseView> {
    Map::empty()
}

/// Relies on `DashMap::new`: the new map is empty.
#[verifier::external_body]
fn table_new() -> (r: LeaseMap)
    ensures
        lease_table(r) == no_leases(),
{
    DashMap::new()
}

/// Relies on `DashMap::entry` and `VacantEntry::insert`: under the shard's write lock the
/// value is stored only where the key is absent.
#[verifier::external_body]
fn table_insert_if_absent(m: &mut LeaseMap, k: i64, v: ChatLease) -> (r: bool)
    ensures
        r == !lease_table(*old(m)).contains_key(k),
        r ==> lease_table(*final(m)) == lease_table(*old(m)).insert(k, v.view()),
        !r ==> lease_table(*final(m)) == lease_table(*old(m)),
{
    match m.entry(k) {
        Entry::Occupied(_) => false,
        Entry::Vacant(e) => {
            e.insert(v);
            true
        },
    }
}

/// Relies on `DashMap::insert`: the key maps to the value afterwards.
#[verifier::external_body]
fn table_insert(m: &mut LeaseMap, k: i64, v: ChatLease)
    ensures
        lease_table(*final(m)) == lease_table(*old(m)).insert(k, v.view()),
{
    m.insert(k, v);
}

/// Relies on `DashMap::remove`: the entry leaves the map and its value is handed back.
#[verifier::external_body]
fn table_remove(m: &mut LeaseMap, k: i64) -> (r: Option<ChatLease>)
    ensures
        lease_table(*final(m)) == lease_table(*old(m)).remove(k),
        r.is_some() == lease_table(*old(m)).contains_key(k),
        r.is_some() ==> r.unwrap().view() == lease_table(*old(m))[k],
{
    m.remove(&k).map(|e| e.1)
}

/// Relies on `DashMap::get`: looks the key up without changing the map, and hands back the
/// lease's owner and cancellation mark.
#[verifier::external_body]
fn table_lookup(m: &LeaseMap, k: i64) -> (r: Option<(i64, bool)>)
    ensures
        r.is_some() == lease_table(*m).contains_key(k),
        r.is_some() ==> r.unwrap().0 == lease_table(*m)[k].owner,
        r.is_some() ==> r.unwrap().1 == lease_table(*m)[k].cancelled,
{
    m.get(&k).map(|e| (e.owner, e.cancelled))
}

/// The answer to a request for a chat's exclusivity.
#[derive(Debug, Clone, Copy, PartialEq, Eq, Structural)]
pub enum Acquire {
    Granted,
    Busy,
}

/// The answer to a request to cancel a chat's transfer.
#[derive(Debug, Clone, Copy, PartialEq, Eq, Structural)]
pub enum Cancel {
    Signalled,
    Unauthorized,
    NotFound,
}

/// Acquiring: a new lease, held by `owner` with no handle, only where the chat has none.
pub open spec fn acquire_spec(m: Map<i64, LeaseView>, chat: i64, owner: i64) -> (Map<i64, LeaseView>, Acquire) {
    if m.contains_key(chat) {
        (m, Acquire::Busy)
    } else {
        (m.insert(chat, LeaseView { owner, armed: false, cancelled: false }), Acquire::Granted)
    }
}

/// Releasing: the chat's lease is gone, whether or not it was there.
pub open spec fn release_spec(m: Map<i64, LeaseView>, chat: i64) -> Map<i64, LeaseView> {
    m.remove(chat)
}

/// Cancelling: only the owner may; the handle is fired and the lease marked cancelled.
pub open spec fn cancel_spec(m: Map<i64, LeaseView>, chat: i64, requester: i64) -> (Map<i64, LeaseView>, Cancel) {
    if !m.contains_key(chat) {
        (m, Cancel::NotFound)
    } else if m[chat].owner != requester {
        (m, Cancel::Unauthorized)
    } else {
        (m.insert(chat, LeaseView { owner: m[chat].owner, armed: false, cancelled: true }), Cancel::Signalled)
    }
}

/// Arming: a lease that is not cancelled takes the handle; otherwise nothing changes.
pub open spec fn arm_spec(m: Map<i64, LeaseView>, chat: i64) -> (Map<i64, LeaseView>, bool) {
    if m.contains_key(chat) && !m[chat].cancelled {
        (m.insert(chat, LeaseView { owner: m[chat].owner, armed: true, cancelled: false }), true)
    } else {
        (m, false)
    }
}

/// How many of a run of acquires on one chat, with no release between them, are granted.
pub open spec fn granted_count(m: Map<i64, LeaseView>, chat: i64, owners: Seq<i64>) -> nat
    decreases owners.len(),
{
    if owners.len() == 0 {
        0
    } else {
        let (next, r) = acquire_spec(m, chat, owners[0]);
        (if r == Acquire::Granted { 1nat } else { 0nat }) + granted_count(next, chat, owners.drop_first())
    }
}

/// On a chat that already has a lease every acquire is refused and nothing changes.
pub proof fn lemma_busy_while_leased(m: Map<i64, LeaseView>, chat: i64, owners: Seq<i64>)
    requires
        m.contains_key(chat),
    ensures
        granted_count(m, chat, owners) == 0,
    decreases owners.len(),
{
    if owners.len() > 0 {
        lemma_busy_while_leased(m, chat, owners.drop_first());
    }
}

/// Of any run of acquires on one chat before a release, exactly one is granted where the
/// chat was free, and none where it was not.
pub proof fn lemma_acquire_exclusive(m: Map<i64, LeaseView>, chat: i64, owners: Seq<i64>)
    requires
        owners.len() > 0,
    ensures
        granted_count(m, chat, owners) == (if m.contains_key(chat) { 0nat } else { 1nat }),
{
    let (next, r) = acquire_spec(m, chat, owners[0]);
    assert(next.contains_key(chat));
    lemma_busy_while_leased(next, chat, owners.drop_first());
    if m.contains_key(chat) {
        lemma_busy_while_leased(m, chat, owners);
    }
}

/// Only the recorded owner's cancel is signalled; anyone else's is refused and changes nothing.
pub proof fn lemma_cancel_owner_only(m: Map<i64, LeaseView>, chat: i64, requester: i64)
    ensures
        cancel_spec(m, chat, requester).1 == Cancel::Signalled
            <==> (m.contains_key(chat) && m[chat].owner == requester),
        m.contains_key(chat) && m[chat].owner != requester ==> cancel_spec(m, chat, requester) == (m, Cancel::Unauthorized),
{
}

/// Cancelling twice signals once: the second call changes nothing more.
pub proof fn lemma_cancel_idempotent(m: Map<i64, LeaseView>, chat: i64, owner: i64)
    ensures
        ({
            let (m1, _) = cancel_spec(m, chat, owner);
            cancel_spec(m1, chat, owner).0 == m1
        }),
{
    let (m1, _) = cancel_spec(m, chat, owner);
    if m.contains_key(chat) && m[chat].owner == owner {
        assert(m1.insert(chat, m1[chat]) =~= m1);
    }
}

/// Neither cancelling nor arming removes a lease or changes its owner: only a release does.
pub proof fn lemma_owner_fixed(m: Map<i64, LeaseView>, chat: i64, requester: i64)
    requires
        m.contains_key(chat),
    ensures
        cancel_spec(m, chat, requester).0.contains_key(chat),
        cancel_spec(m, chat, requester).0[chat].owner == m[chat].owner,
        arm_spec(m, chat).0.contains_key(chat),
        arm_spec(m, chat).0[chat].owner == m[chat].owner,
{
}

/// After a release the chat is free: the next acquire is granted.
pub proof fn lemma_release_frees_chat(m: Map<i64, LeaseView>, chat: i64, owner: i64)
    ensures
        !release_spec(m, chat).contains_key(chat),
        acquire_spec(release_spec(m, chat), chat, owner).1 == Acquire::Granted,
{
}

/// Chats are independent: acquiring, cancelling or releasing one leaves every other's lease as it was.
pub proof fn lemma_chats_isolated(m: Map<i64, LeaseView>, chat: i64, other: i64, who: i64)
    requires
        chat != other,
    ensures
        acquire_spec(m, chat, who).0.contains_key(other) == m.contains_key(other),
        cancel_spec(m, chat, who).0.contains_key(other) == m.contains_key(other),
        release_spec(m, chat).contains_key(other) == m.contains_key(other),
        m.contains_key(other) ==> acquire_spec(m, chat, who).0[other] == m[other],
        m.contains_key(other) ==> cancel_spec(m, chat, who).0[other] == m[other],
        m.contains_key(other) ==> release_spec(m, chat)[other] == m[other],
{
}

/// The table of active transfers: at most one lease per chat.
pub struct Coordinator {
    table: LeaseMap,
}

impl Coordinator {
    pub closed spec fn view(&self) -> Map<i64, LeaseView> {
        lease_table(self.table)
    }

    /// A coordinator with no active transfer.
    pub fn new() -> (r: Coordinator)
        ensures
            r@ == no_leases(),
    {
        Coordinator { table: table_new() }
    }

    /// Takes the chat's exclusivity for `owner`, unless a lease already exists.
    pub fn acquire(&mut self, chat: i64, owner: i64) -> (r: Acquire)
        ensures
            (final(self)@, r) == acquire_spec(old(self)@, chat, owner),
    {
        let lease = ChatLease { owner, handle: None, cancelled: false };
        if table_insert_if_absent(&mut self.table, chat, lease) {
            Acquire::Granted
        } else {
            Acquire::Busy
        }
    }

    /// Removes the chat's lease; does nothing where there is none.
    pub fn release(&mut self, chat: i64)
        ensures
            final(self)@ == release_spec(old(self)@, chat),
    {
        let removed = table_remove(&mut self.table, chat);
        match removed {
            Some(lease) => {
                match lease.handle {
                    Some(h) => h.cancel(),
                    None => {},
                }
            },
            None => {},
        }
    }

    /// Hands the chat's lease the handle that stops its source. Where the lease is gone or
    /// its owner already cancelled, the handle fires at once and `false` comes back.
    pub fn arm(&mut self, chat: i64, handle: Trigger) -> (r: bool)
        ensures
            (final(self)@, r) == arm_spec(old(self)@, chat),
    {
        let removed = table_remove(&mut self.table, chat);
        match removed {
            Some(lease) => {
                if lease.cancelled {
                    table_insert(&mut self.table, chat, lease);
                    handle.cancel();
                    proof {
                        assert(lease_table(self.table) =~= old(self)@);
                    }
                    false
                } else {
                    let owner = lease.owner;
                    match lease.handle {
                        Some(h) => h.cancel(),
                        None => {},
                    }
                    table_insert(
                        &mut self.table,
                        chat,
                        ChatLease { owner, handle: Some(handle), cancelled: false },
                    );
                    proof {
                        assert(lease_table(self.table) =~= arm_spec(old(self)@, chat).0);
                    }
                    true
                }
            },
            None => {
                handle.cancel();
                false
            },
        }
    }

    /// Cancels the chat's transfer on behalf of `requester`: only its owner may.
    /// A second cancel by the owner changes nothing more.
    pub fn cancel(&mut self, chat: i64, requester: i64) -> (r: Cancel)
        ensures
            (final(self)@, r) == cancel_spec(old(self)@, chat, requester),
    {
        match table_lookup(&self.table, chat) {
            None => Cancel::NotFound,
            Some((owner, _)) => {
                if owner != requester {
                    Cancel::Unauthorized
                } else {
                    let removed = table_remove(&mut self.table, chat);
                    match removed {
                        Some(lease) => {
                            match lease.handle {
                                Some(h) => h.cancel(),
                                None => {},
                            }
                        },
                        None => {},
                    }
                    table_insert(
                        &mut self.table,
                        chat,
                        ChatLease { owner, handle: None, cancelled: true },
                    );
                    proof {
                        assert(lease_table(self.table) =~= cancel_spec(old(self)@, chat, requester).0);
                    }
                    Cancel::Signalled
                }
            },
        }
    }

    /// The owner of the chat's active transfer, if there is one.
    pub fn owner_of(&self, chat: i64) -> (r: Option<i64>)
        ensures
            r.is_some() == self@.contains_key(chat),
            r.is_some() ==> r.unwrap() == self@[chat].owner,
    {
        match table_lookup(&self.table, chat) {
            Some((owner, _)) => Some(owner),
            None => None,
        }
    }

    /// Whether the owner of the chat's active transfer asked to cancel it.
    pub fn cancel_requested(&self, chat: i64) -> (r: bool)
        ensures
            r == (self@.contains_key(chat) && self@[chat].cancelled),
    {
        match table_lookup(&self.table, chat) {
            Some((_, cancelled)) => cancelled,
            None => false,
        }
    }
}

} // verus!
