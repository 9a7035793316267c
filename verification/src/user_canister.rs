//! The per-client instance registry.
//!
//! Each client identity maps to the ordered list of instances that client
//! has provisioned. A write replaces the entry with the same instance
//! handle if one exists and appends otherwise, and each list is bounded:
//! a write that would grow a list past the bound is refused, never
//! silently dropped.

use vstd::prelude::*;

use crate::principal::PrincipalId;
use crate::results::CreateCanisterError;

verus! {

/// Greatest number of instances one client's list may hold.
pub const MAX_USER_CANISTER_LIST_LENGTH: usize = 1000;

/// The kind of an instance a client provisioned.
#[derive(Debug, Clone, Copy, PartialEq, Eq, Structural)]
pub enum UserCanisterKind {
    IcrcLedger,
    IcrcIndex,
}

/// One provisioned instance: its handle, its kind, and whether code
/// installation has completed on it.
#[derive(Debug)]
pub struct UserCanister {
    pub canister_id: PrincipalId,
    pub kind: UserCanisterKind,
    pub installed: bool,
}

/// Whether two registry records describe the same instance state.
pub open spec fn uc_eq(a: UserCanister, b: UserCanister) -> bool {
    &&& a.canister_id@ == b.canister_id@
    &&& a.kind == b.kind
    &&& a.installed == b.installed
}

impl Clone for UserCanister {
    fn clone(&self) -> (r: Self)
        ensures
            uc_eq(r, *self),
    {
        UserCanister {
            canister_id: self.canister_id.clone(),
            kind: self.kind,
            installed: self.installed,
        }
    }
}

impl PartialEq for UserCanister {
    fn eq(&self, other: &Self) -> (r: bool) {
        self.canister_id == other.canister_id && self.kind == other.kind
            && self.installed == other.installed
    }
}

impl vstd::std_specs::cmp::PartialEqSpecImpl for UserCanister {
    open spec fn obeys_eq_spec() -> bool {
        true
    }

    open spec fn eq_spec(&self, other: &Self) -> bool {
        uc_eq(*self, *other)
    }
}

/// Whether some record in the list carries the given instance handle.
pub open spec fn has_handle(l: Seq<UserCanister>, id: Seq<u8>) -> bool {
    exists|i: int| 0 <= i < l.len() && l[i].canister_id@ == id
}

/// The position of the record carrying the given instance handle.
pub open spec fn handle_index(l: Seq<UserCanister>, id: Seq<u8>) -> int {
    choose|i: int| 0 <= i < l.len() && l[i].canister_id@ == id
}

/// No two records of the list carry the same instance handle.
pub open spec fn unique_handles(l: Seq<UserCanister>) -> bool {
    forall|i: int, j: int|
        0 <= i < j < l.len() ==> l[i].canister_id@ != l[j].canister_id@
}

/// A well-formed per-client list: handles are unique and the bound holds.
pub open spec fn wf_canister_list(l: Seq<UserCanister>) -> bool {
    &&& unique_handles(l)
    &&& l.len() <= MAX_USER_CANISTER_LIST_LENGTH
}

/// The list after a write of `e`: the record with the same handle is
/// replaced in place if one exists, else `e` is appended.
pub open spec fn upserted(l: Seq<UserCanister>, e: UserCanister) -> Seq<UserCanister> {
    if has_handle(l, e.canister_id@) {
        l.update(handle_index(l, e.canister_id@), e)
    } else {
        l.push(e)
    }
}

/// What one registry write by the pipeline did: the client's list took a
/// write of a record with the given handle, kind and installation flag,
/// and every other client's list is untouched.
pub open spec fn recorded(
    old_s: Seq<RegistryEntry>,
    new_s: Seq<RegistryEntry>,
    client: Seq<u8>,
    id: Seq<u8>,
    kind: UserCanisterKind,
    installed: bool,
) -> bool {
    &&& exists|e: UserCanister|
        {
            &&& #[trigger] upserted(canisters_of(old_s, client), e) == canisters_of(new_s, client)
            &&& e.canister_id@ == id
            &&& e.kind == kind
            &&& e.installed == installed
        }
    &&& forall|c: Seq<u8>|
        c != client ==> #[trigger] canisters_of(new_s, c) == canisters_of(old_s, c)
}

/// One client's registry entry: the client identity and its instance list.
#[derive(Debug)]
pub struct RegistryEntry {
    pub client: PrincipalId,
    pub canisters: Vec<UserCanister>,
}

/// Whether the registry holds an entry for the given client.
pub open spec fn has_client(s: Seq<RegistryEntry>, c: Seq<u8>) -> bool {
    exists|i: int| 0 <= i < s.len() && s[i].client@ == c
}

/// The position of the given client's entry.
pub open spec fn client_index(s: Seq<RegistryEntry>, c: Seq<u8>) -> int {
    choose|i: int| 0 <= i < s.len() && s[i].client@ == c
}

/// The instance list recorded for a client; empty when the client has
/// never provisioned anything.
pub open spec fn canisters_of(s: Seq<RegistryEntry>, c: Seq<u8>) -> Seq<UserCanister> {
    if has_client(s, c) {
        s[client_index(s, c)].canisters@
    } else {
        Seq::<UserCanister>::empty()
    }
}

/// No two entries of the registry name the same client.
pub open spec fn unique_clients(s: Seq<RegistryEntry>) -> bool {
    forall|i: int, j: int| 0 <= i < j < s.len() ==> s[i].client@ != s[j].client@
}

/// A well-formed registry: client entries are unique and every list is
/// well formed.
pub open spec fn registry_wf(s: Seq<RegistryEntry>) -> bool {
    &&& unique_clients(s)
    &&& forall|i: int| 0 <= i < s.len() ==> wf_canister_list(#[trigger] s[i].canisters@)
}

/// The persisted client-to-instance-list registry.
#[derive(Debug)]
pub struct UserCanisterMap {
    pub entries: Vec<RegistryEntry>,
}

/// Finds the position of a client's entry by identity.
fn find_client(entries: &Vec<RegistryEntry>, client: &PrincipalId) -> (r: Option<usize>)
    ensures
        match r {
            Some(i) => i < entries@.len() && entries@[i as int].client@ == client@,
            None => forall|k: int| 0 <= k < entries@.len() ==> entries@[k].client@ != client@,
        },
{
    let n = entries.len();
    let mut i: usize = 0;
    while i < n
        invariant
            n == entries.len(),
            i <= n,
            forall|k: int| 0 <= k < i ==> entries@[k].client@ != client@,
        decreases n - i,
    {
        if entries[i].client == *client {
            return Some(i);
        }
        i += 1;
    }
    None
}

/// Finds the position of the record carrying the given instance handle.
fn find_handle(list: &Vec<UserCanister>, id: &PrincipalId) -> (r: Option<usize>)
    ensures
        match r {
            Some(i) => i < list@.len() && list@[i as int].canister_id@ == id@,
            None => forall|k: int| 0 <= k < list@.len() ==> list@[k].canister_id@ != id@,
        },
{
    let n = list.len();
    let mut i: usize = 0;
    while i < n
        invariant
            n == list.len(),
            i <= n,
            forall|k: int| 0 <= k < i ==> list@[k].canister_id@ != id@,
        decreases n - i,
    {
        if list[i].canister_id == *id {
            return Some(i);
        }
        i += 1;
    }
    None
}

impl UserCanisterMap {
    /// An empty registry.
    pub fn new() -> (r: Self)
        ensures
            r.entries@.len() == 0,
            registry_wf(r.entries@),
    {
        UserCanisterMap { entries: Vec::new() }
    }

    /// The instance list recorded for a client, if any.
    pub fn canisters_for(&self, client: &PrincipalId) -> (r: Option<&Vec<UserCanister>>)
        requires
            registry_wf(self.entries@),
        ensures
            match r {
                Some(v) => {
                    &&& has_client(self.entries@, client@)
                    &&& v@ == canisters_of(self.entries@, client@)
                },
                None => !has_client(self.entries@, client@),
            },
    {
        match find_client(&self.entries, client) {
            Some(i) => {
                proof {
                    assert(has_client(self.entries@, client@));
                    let ci = client_index(self.entries@, client@);
                    assert(self.entries@[ci].client@ == client@);
                    assert(ci == i) by {
                        if ci != i as int {
                            assert(self.entries@[ci].client@ != self.entries@[i as int].client@);
                        }
                    }
                }
                Some(&self.entries[i].canisters)
            },
            None => {
                proof {
                    assert(!has_client(self.entries@, client@));
                }
                None
            },
        }
    }
}

/// Records an instance under a client identity: the record with the same
/// instance handle is replaced in place if one exists; otherwise the
/// record is appended, unless the client's list is already at capacity,
/// in which case the write is refused and nothing changes.
pub fn upsert_user_canister(
    stored_principal: &PrincipalId,
    user_canister: &mut UserCanisterMap,
    new_entry: UserCanister,
) -> (r: Result<(), CreateCanisterError>)
    requires
        registry_wf(old(user_canister).entries@),
    ensures
        registry_wf(final(user_canister).entries@),
        match r {
            Ok(()) => {
                &&& canisters_of(final(user_canister).entries@, stored_principal@)
                    == upserted(
                    canisters_of(old(user_canister).entries@, stored_principal@),
                    new_entry,
                )
                &&& has_client(final(user_canister).entries@, stored_principal@)
                &&& has_handle(
                    canisters_of(old(user_canister).entries@, stored_principal@),
                    new_entry.canister_id@,
                ) || canisters_of(old(user_canister).entries@, stored_principal@).len()
                    < MAX_USER_CANISTER_LIST_LENGTH
                &&& forall|c: Seq<u8>|
                    c != stored_principal@ ==> #[trigger] canisters_of(
                        final(user_canister).entries@,
                        c,
                    ) == canisters_of(old(user_canister).entries@, c)
            },
            Err(e) => {
                &&& e is RegistryFull
                &&& *final(user_canister) == *old(user_canister)
                &&& canisters_of(old(user_canister).entries@, stored_principal@).len()
                    == MAX_USER_CANISTER_LIST_LENGTH
                &&& !has_handle(
                    canisters_of(old(user_canister).entries@, stored_principal@),
                    new_entry.canister_id@,
                )
            },
        },
{
    let found = find_client(&user_canister.entries, stored_principal);
    if found.is_none() {
        // A new client: its list grows to a single record, well below the
        // bound.
        proof {
            assert(!has_client(user_canister.entries@, stored_principal@));
        }
        let ghost old_entries = user_canister.entries@;
        let canisters = vec![new_entry];
        user_canister.entries.push(RegistryEntry {
            client: stored_principal.clone(),
            canisters,
        });
        proof {
            let s = user_canister.entries@;
            let last = s.len() - 1;
            assert(s[last].client@ == stored_principal@);
            assert(has_client(s, stored_principal@));
            assert(forall|k: int| 0 <= k < last ==> s[k] == old_entries[k]);
            assert(client_index(s, stored_principal@) == last) by {
                let x = client_index(s, stored_principal@);
                assert(s[x].client@ == stored_principal@);
                if x < last {
                    assert(old_entries[x].client@ == stored_principal@);
                    assert(has_client(old_entries, stored_principal@));
                }
            }
            assert(s[last].canisters@ =~= seq![new_entry]);
            assert(canisters_of(old_entries, stored_principal@) =~= Seq::<
                UserCanister,
            >::empty());
            assert(upserted(Seq::<UserCanister>::empty(), new_entry) =~= seq![new_entry]);
            assert(registry_wf(s)) by {
                assert(forall|i: int, j: int|
                    0 <= i < j < s.len() ==> s[i].client@ != s[j].client@) by {
                    assert(forall|i: int|
                        0 <= i < last ==> #[trigger] s[i].client@ != stored_principal@);
                }
                assert(forall|i: int|
                    0 <= i < s.len() ==> wf_canister_list(#[trigger] s[i].canisters@)) by {
                    assert(wf_canister_list(s[last].canisters@));
                }
            }
            assert(forall|c: Seq<u8>|
                c != stored_principal@ ==> #[trigger] canisters_of(s, c) == canisters_of(
                    old_entries,
                    c,
                )) by {
                assert forall|c: Seq<u8>| c != stored_principal@ implies #[trigger] canisters_of(
                    s,
                    c,
                ) == canisters_of(old_entries, c) by {
                    if has_client(old_entries, c) {
                        let x = client_index(old_entries, c);
                        assert(s[x].client@ == c);
                        assert(has_client(s, c));
                        let y = client_index(s, c);
                        assert(s[y].client@ == c);
                        assert(y != last);
                        assert(old_entries[y].client@ == c);
                        assert(y == x) by {
                            if y != x {
                                assert(old_entries[x].client@ != old_entries[y].client@);
                            }
                        }
                    } else {
                        if has_client(s, c) {
                            let y = client_index(s, c);
                            assert(s[y].client@ == c);
                            assert(y != last);
                            assert(old_entries[y].client@ == c);
                            assert(has_client(old_entries, c));
                        }
                    }
                }
            }
        }
        return Ok(());
    }
    // The client exists: find the record with the same handle.
    let ci = found.unwrap();
    let handle_found = find_handle(&user_canister.entries[ci].canisters, &new_entry.canister_id);
    proof {
        assert(client_index(user_canister.entries@, stored_principal@) == ci as int) by {
            assert(user_canister.entries@[ci as int].client@ == stored_principal@);
            assert(has_client(user_canister.entries@, stored_principal@));
            let x = client_index(user_canister.entries@, stored_principal@);
            assert(user_canister.entries@[x].client@ == stored_principal@);
            if x != ci as int {
                assert(user_canister.entries@[x].client@
                    != user_canister.entries@[ci as int].client@);
            }
        }
    }
    let ghost old_entries = user_canister.entries@;
    let ghost old_list = old_entries[ci as int].canisters@;
    match handle_found {
        Some(hi) => {
            proof {
                assert(has_handle(old_list, new_entry.canister_id@));
                assert(handle_index(old_list, new_entry.canister_id@) == hi as int) by {
                    let x = handle_index(old_list, new_entry.canister_id@);
                    assert(old_list[x].canister_id@ == new_entry.canister_id@);
                    if x != hi as int {
                        assert(old_list[x].canister_id@ != old_list[hi as int].canister_id@);
                    }
                }
            }
            let ghost new_list = old_list.update(hi as int, new_entry);
            user_canister.entries[ci].canisters[hi] = new_entry;
            proof {
                let s = user_canister.entries@;
                lemma_after_list_update(old_entries, s, ci as int, new_list, stored_principal@);
                assert(canisters_of(s, stored_principal@) == upserted(old_list, new_entry));
            }
            Ok(())
        },
        None => {
            proof {
                assert(!has_handle(old_list, new_entry.canister_id@));
            }
            if user_canister.entries[ci].canisters.len() == MAX_USER_CANISTER_LIST_LENGTH {
                return Err(CreateCanisterError::RegistryFull);
            }
            let ghost new_list = old_list.push(new_entry);
            user_canister.entries[ci].canisters.push(new_entry);
            proof {
                let s = user_canister.entries@;
                lemma_after_list_update(old_entries, s, ci as int, new_list, stored_principal@);
                assert(canisters_of(s, stored_principal@) == upserted(old_list, new_entry));
            }
            Ok(())
        },
    }
}

/// Law: after one write, the client's list holds exactly one record
/// carrying the written handle — the written record itself — handle
/// uniqueness is preserved, and the list grew only if the handle was
/// new.
pub proof fn lemma_upsert_exactly_one(l: Seq<UserCanister>, e: UserCanister)
    requires
        unique_handles(l),
    ensures
        has_handle(upserted(l, e), e.canister_id@),
        unique_handles(upserted(l, e)),
        forall|i: int|
            0 <= i < upserted(l, e).len() && #[trigger] upserted(l, e)[i].canister_id@
                == e.canister_id@ ==> upserted(l, e)[i] == e,
        upserted(l, e)[handle_index(upserted(l, e), e.canister_id@)] == e,
        upserted(l, e).len() == if has_handle(l, e.canister_id@) {
            l.len()
        } else {
            l.len() + 1
        },
        forall|i: int|
            0 <= i < upserted(l, e).len() && #[trigger] upserted(l, e)[i].canister_id@
                != e.canister_id@ ==> 0 <= i < l.len() && upserted(l, e)[i] == l[i],
{
    let l2 = upserted(l, e);
    let id = e.canister_id@;
    if has_handle(l, id) {
        let hi = handle_index(l, id);
        assert(0 <= hi < l.len() && l[hi].canister_id@ == id);
        assert(l2 == l.update(hi, e));
        assert(l2[hi] == e);
        assert(forall|i: int| 0 <= i < l2.len() && i != hi ==> l2[i] == l[i]);
        assert(forall|i: int|
            0 <= i < l2.len() && i != hi ==> #[trigger] l2[i].canister_id@ != id);
        assert(has_handle(l2, id));
        let x = handle_index(l2, id);
        assert(0 <= x < l2.len() && l2[x].canister_id@ == id);
        assert(x == hi);
    } else {
        assert(forall|i: int| 0 <= i < l.len() ==> #[trigger] l[i].canister_id@ != id);
        assert(l2 == l.push(e));
        assert(l2[l.len() as int] == e);
        assert(forall|i: int| 0 <= i < l.len() ==> l2[i] == l[i]);
        assert(has_handle(l2, id));
        let x = handle_index(l2, id);
        assert(0 <= x < l2.len() && l2[x].canister_id@ == id);
        assert(x == l.len());
    }
}

/// Law: after a pipeline write under a client — a pending record on
/// allocation, or the installed record on completion — the client's list
/// holds exactly one record with the written handle, carrying the
/// written kind and installation flag, and handles stay unique.
pub proof fn lemma_recorded_exactly_one(
    old_s: Seq<RegistryEntry>,
    new_s: Seq<RegistryEntry>,
    client: Seq<u8>,
    id: Seq<u8>,
    kind: UserCanisterKind,
    installed: bool,
)
    requires
        registry_wf(old_s),
        recorded(old_s, new_s, client, id, kind, installed),
    ensures
        has_handle(canisters_of(new_s, client), id),
        unique_handles(canisters_of(new_s, client)),
        forall|i: int|
            0 <= i < canisters_of(new_s, client).len() && #[trigger] canisters_of(
                new_s,
                client,
            )[i].canister_id@ == id ==> canisters_of(new_s, client)[i].kind == kind
                && canisters_of(new_s, client)[i].installed == installed,
{
    let old_l = canisters_of(old_s, client);
    assert(unique_handles(old_l)) by {
        if has_client(old_s, client) {
            let ci = client_index(old_s, client);
            assert(0 <= ci < old_s.len() && old_s[ci].client@ == client);
            assert(wf_canister_list(old_s[ci].canisters@));
        }
    }
    let e = choose|e: UserCanister|
        {
            &&& #[trigger] upserted(old_l, e) == canisters_of(new_s, client)
            &&& e.canister_id@ == id
            &&& e.kind == kind
            &&& e.installed == installed
        };
    lemma_upsert_exactly_one(old_l, e);
}

/// Law: a second write of the same handle — a retry after a failure
/// later in the pipeline — replaces the record in place: the list does
/// not grow, no duplicate appears, and the handle's one record is the
/// newer one.
pub proof fn lemma_upsert_same_handle_no_duplicate(
    l: Seq<UserCanister>,
    e1: UserCanister,
    e2: UserCanister,
)
    requires
        unique_handles(l),
        e1.canister_id@ == e2.canister_id@,
    ensures
        upserted(upserted(l, e1), e2).len() == upserted(l, e1).len(),
        unique_handles(upserted(upserted(l, e1), e2)),
        forall|i: int|
            0 <= i < upserted(upserted(l, e1), e2).len() && #[trigger] upserted(
                upserted(l, e1),
                e2,
            )[i].canister_id@ == e2.canister_id@ ==> upserted(upserted(l, e1), e2)[i] == e2,
{
    lemma_upsert_exactly_one(l, e1);
    lemma_upsert_exactly_one(upserted(l, e1), e2);
    assert(has_handle(upserted(l, e1), e2.canister_id@));
}

/// After replacing exactly the canister list of the entry at `ci` (the
/// entry of `client`) with a well-formed `new_list`, the registry is well
/// formed, the client's list reads as `new_list`, and every other
/// client's list is untouched.
proof fn lemma_after_list_update(
    old_s: Seq<RegistryEntry>,
    s: Seq<RegistryEntry>,
    ci: int,
    new_list: Seq<UserCanister>,
    client: Seq<u8>,
)
    requires
        registry_wf(old_s),
        0 <= ci < old_s.len(),
        old_s[ci].client@ == client,
        s.len() == old_s.len(),
        forall|k: int| 0 <= k < s.len() && k != ci ==> s[k] == old_s[k],
        s[ci].client@ == client,
        s[ci].canisters@ == new_list,
        wf_canister_list(new_list),
    ensures
        registry_wf(s),
        has_client(s, client),
        canisters_of(s, client) == new_list,
        forall|c: Seq<u8>| c != client ==> #[trigger] canisters_of(s, c) == canisters_of(old_s, c),
{
    assert(forall|k: int| 0 <= k < s.len() ==> s[k].client@ == old_s[k].client@);
    assert(unique_clients(s));
    assert(forall|i: int| 0 <= i < s.len() ==> wf_canister_list(#[trigger] s[i].canisters@)) by {
        assert(forall|i: int|
            0 <= i < s.len() && i != ci ==> #[trigger] s[i].canisters@ == old_s[i].canisters@);
    }
    assert(has_client(s, client));
    assert(client_index(s, client) == ci) by {
        let x = client_index(s, client);
        assert(s[x].client@ == client);
        if x != ci {
            assert(s[x].client@ != s[ci].client@);
        }
    }
    assert forall|c: Seq<u8>| c != client implies #[trigger] canisters_of(s, c) == canisters_of(
        old_s,
        c,
    ) by {
        if has_client(s, c) {
            let y = client_index(s, c);
            assert(s[y].client@ == c);
            assert(y != ci);
            assert(old_s[y].client@ == c);
            assert(has_client(old_s, c));
            assert(client_index(old_s, c) == y) by {
                let x = client_index(old_s, c);
                assert(old_s[x].client@ == c);
                if x != y {
                    assert(old_s[x].client@ != old_s[y].client@);
                }
            }
        } else {
            if has_client(old_s, c) {
                let x = client_index(old_s, c);
                assert(old_s[x].client@ == c);
                assert(x != ci);
                assert(s[x].client@ == c);
                assert(has_client(s, c));
            }
        }
    }
}

} // verus!
