use vstd::prelude::*;

use std::collections::HashMap;

use crate::errors::ErrorCode;
use crate::events::SecurityEvent;
use crate::state::{
    BlacklistAccount, ConfigAccount, Identity, UserClaimAccount, MAX_BLACKLISTED_USERS,
};

verus! {

broadcast use vstd::std_specs::hash::group_hash_axioms;

/// The registry is well formed: each identity is listed at most once, and
/// the list fits the registry's fixed storage capacity.
pub open spec fn blacklist_wf(b: BlacklistAccount) -> bool {
    &&& b.blacklisted_users@.no_duplicates()
    &&& b.blacklisted_users@.len() <= MAX_BLACKLISTED_USERS
}

/// The banned identities after adding `user`: an already-present identity
/// is left alone (membership is idempotent, not an error).
pub open spec fn spec_blacklist_add(users: Seq<Identity>, user: Identity) -> Seq<Identity> {
    if users.contains(user) {
        users
    } else {
        users.push(user)
    }
}

/// The record `r` with its mirrored blacklist flag set to `flag`.
pub open spec fn spec_mark_blacklisted(r: UserClaimAccount, flag: bool) -> UserClaimAccount {
    UserClaimAccount { is_blacklisted: flag, ..r }
}

/// The per-user records after a blacklist change touches `user` with flag
/// `flag`: only an already-existing record is updated. A user banned before
/// their first claim therefore has no record carrying the mark, and since
/// the claim path consults only the record's mirror, that first claim still
/// passes — a known gap in this policy, preserved deliberately rather than
/// silently closed.
pub open spec fn spec_mirror_flag(
    records: Map<Identity, UserClaimAccount>,
    user: Identity,
    flag: bool,
) -> Map<Identity, UserClaimAccount> {
    if records.contains_key(user) {
        records.insert(user, spec_mark_blacklisted(records[user], flag))
    } else {
        records
    }
}

/// The banned identities and the per-user records after one
/// `add_to_blacklist` of `user` by the administrator.
pub open spec fn spec_add_transition(
    users: Seq<Identity>,
    records: Map<Identity, UserClaimAccount>,
    user: Identity,
) -> (Seq<Identity>, Map<Identity, UserClaimAccount>) {
    (
        spec_blacklist_add(users, user),
        if users.contains(user) {
            records
        } else {
            spec_mirror_flag(records, user, true)
        },
    )
}

/// The banned identities and the per-user records after one
/// `remove_from_blacklist` of `user` by the administrator.
pub open spec fn spec_remove_transition(
    users: Seq<Identity>,
    records: Map<Identity, UserClaimAccount>,
    user: Identity,
) -> (Seq<Identity>, Map<Identity, UserClaimAccount>) {
    (
        users.remove_value(user),
        if users.contains(user) {
            spec_mirror_flag(records, user, false)
        } else {
            records
        },
    )
}

/// Adding the same user to the blacklist twice ends in the same state —
/// registry and per-user records alike — as adding them once.
pub proof fn lemma_add_to_blacklist_idempotent(
    users: Seq<Identity>,
    records: Map<Identity, UserClaimAccount>,
    user: Identity,
)
    ensures
        spec_add_transition(
            spec_add_transition(users, records, user).0,
            spec_add_transition(users, records, user).1,
            user,
        ) == spec_add_transition(users, records, user),
{
    let once = spec_add_transition(users, records, user);
    assert(once.0.contains(user)) by {
        if !users.contains(user) {
            assert(users.push(user)[users.len() as int] == user);
        }
    }
}

/// Removing the same user from the blacklist twice ends in the same state —
/// registry and per-user records alike — as removing them once, given that
/// the registry lists each identity at most once (as every well-formed
/// registry does).
pub proof fn lemma_remove_from_blacklist_idempotent(
    users: Seq<Identity>,
    records: Map<Identity, UserClaimAccount>,
    user: Identity,
)
    requires
        users.no_duplicates(),
    ensures
        spec_remove_transition(
            spec_remove_transition(users, records, user).0,
            spec_remove_transition(users, records, user).1,
            user,
        ) == spec_remove_transition(users, records, user),
{
    let once = spec_remove_transition(users, records, user);
    assert(!once.0.contains(user)) by {
        users.index_of_first_ensures(user);
        if users.contains(user) {
            let first = users.index_of_first(user)->Some_0;
            users.remove_ensures(first);
            if once.0.contains(user) {
                let j = choose|j: int| 0 <= j < once.0.len() && once.0[j] == user;
                if j < first {
                    assert(users[j] != user);
                } else {
                    assert(once.0[j] == users[j + 1]);
                    assert(users[first] == user);
                }
            }
        }
    }
    once.0.index_of_first_ensures(user);
}

/// Creates the blacklist registry; only the configured administrator may.
pub fn initialize_blacklist(admin: Identity, config: &ConfigAccount) -> (result: Result<
    BlacklistAccount,
    ErrorCode,
>)
    ensures
        match result {
            Ok(b) => {
                &&& admin == config.admin
                &&& b.admin == admin
                &&& b.blacklisted_users@ == Seq::<Identity>::empty()
                &&& blacklist_wf(b)
            },
            Err(e) => admin != config.admin && e == ErrorCode::Unauthorized,
        },
{
    if admin != config.admin {
        return Err(ErrorCode::Unauthorized);
    }
    Ok(BlacklistAccount { admin, blacklisted_users: Vec::new() })
}

/// Whether `x` is listed in `v`.
fn vec_contains(v: &Vec<Identity>, x: Identity) -> (found: bool)
    ensures
        found == v@.contains(x),
{
    let mut i: usize = 0;
    while i < v.len()
        invariant
            i <= v@.len(),
            forall|j: int| 0 <= j < i ==> v@[j] != x,
        decreases v@.len() - i,
    {
        if v[i] == x {
            return true;
        }
        i += 1;
    }
    false
}

/// The first position of `x` in `v`, if any.
fn vec_position(v: &Vec<Identity>, x: Identity) -> (position: Option<usize>)
    ensures
        match position {
            Some(i) => {
                &&& (i as int) < v@.len()
                &&& v@[i as int] == x
                &&& forall|j: int| 0 <= j < i ==> v@[j] != x
            },
            None => !v@.contains(x),
        },
{
    let mut i: usize = 0;
    while i < v.len()
        invariant
            i <= v@.len(),
            forall|j: int| 0 <= j < i ==> v@[j] != x,
        decreases v@.len() - i,
    {
        if v[i] == x {
            return Some(i);
        }
        i += 1;
    }
    None
}

/// Bans `user` from claiming: administrator-only, idempotent. A newly
/// banned user's existing claim record has its mirrored flag set; when the
/// user was already listed nothing changes and no event is produced. The
/// capacity bound in `requires` mirrors the registry's fixed storage, which
/// refuses growth beyond it.
pub fn add_to_blacklist(
    admin: Identity,
    config: &ConfigAccount,
    blacklist: &mut BlacklistAccount,
    records: &mut HashMap<Identity, UserClaimAccount>,
    user: Identity,
    now: i64,
) -> (result: Result<Option<SecurityEvent>, ErrorCode>)
    requires
        blacklist_wf(*old(blacklist)),
        old(blacklist).blacklisted_users@.contains(user) || old(
            blacklist,
        ).blacklisted_users@.len() < MAX_BLACKLISTED_USERS,
    ensures
        blacklist_wf(*final(blacklist)),
        final(blacklist).admin == old(blacklist).admin,
        match result {
            Ok(ev) => {
                &&& admin == config.admin
                &&& final(blacklist).blacklisted_users@ == spec_blacklist_add(
                    old(blacklist).blacklisted_users@,
                    user,
                )
                &&& final(records)@ == (if old(blacklist).blacklisted_users@.contains(user) {
                    old(records)@
                } else {
                    spec_mirror_flag(old(records)@, user, true)
                })
                &&& (ev is Some <==> !old(blacklist).blacklisted_users@.contains(user))
                &&& (ev matches Some(e) ==> {
                    &&& e.event_type@ == "USER_BLACKLISTED"@
                    &&& e.user == user
                    &&& e.reason@ == "Added to blacklist by admin"@
                    &&& e.timestamp == now
                })
            },
            Err(e) => {
                &&& admin != config.admin
                &&& e == ErrorCode::Unauthorized
                &&& final(blacklist).blacklisted_users@ == old(blacklist).blacklisted_users@
                &&& final(records)@ == old(records)@
            },
        },
{
    if admin != config.admin {
        return Err(ErrorCode::Unauthorized);
    }
    if vec_contains(&blacklist.blacklisted_users, user) {
        return Ok(None);
    }
    let ghost old_users = blacklist.blacklisted_users@;
    blacklist.blacklisted_users.push(user);
    proof {
        assert forall|i: int, j: int|
            0 <= i < blacklist.blacklisted_users@.len() && 0 <= j
                < blacklist.blacklisted_users@.len() && i != j implies blacklist
            .blacklisted_users@[i] != blacklist.blacklisted_users@[j] by {
            if i < old_users.len() && j < old_users.len() {
            } else if i == old_users.len() {
                if old_users[j] == user {
                    assert(old_users.contains(user));
                }
            } else {
                if old_users[i] == user {
                    assert(old_users.contains(user));
                }
            }
        }
    }
    let existing = match records.get(&user) {
        Some(r) => Some(*r),
        None => None,
    };
    match existing {
        Some(mut r) => {
            r.is_blacklisted = true;
            records.insert(user, r);
        },
        None => {},
    }
    Ok(
        Some(
            SecurityEvent {
                event_type: "USER_BLACKLISTED".to_owned(),
                user,
                reason: "Added to blacklist by admin".to_owned(),
                timestamp: now,
            },
        ),
    )
}

/// Lifts the ban on `user`: administrator-only, idempotent. When the user
/// was listed, the first (only) occurrence is removed and an existing claim
/// record has its mirrored flag cleared; otherwise nothing changes.
pub fn remove_from_blacklist(
    admin: Identity,
    config: &ConfigAccount,
    blacklist: &mut BlacklistAccount,
    records: &mut HashMap<Identity, UserClaimAccount>,
    user: Identity,
    now: i64,
) -> (result: Result<Option<SecurityEvent>, ErrorCode>)
    requires
        blacklist_wf(*old(blacklist)),
    ensures
        blacklist_wf(*final(blacklist)),
        final(blacklist).admin == old(blacklist).admin,
        match result {
            Ok(ev) => {
                &&& admin == config.admin
                &&& final(blacklist).blacklisted_users@ == old(
                    blacklist,
                ).blacklisted_users@.remove_value(user)
                &&& final(records)@ == (if old(blacklist).blacklisted_users@.contains(user) {
                    spec_mirror_flag(old(records)@, user, false)
                } else {
                    old(records)@
                })
                &&& (ev is Some <==> old(blacklist).blacklisted_users@.contains(user))
                &&& (ev matches Some(e) ==> {
                    &&& e.event_type@ == "USER_UNBLACKLISTED"@
                    &&& e.user == user
                    &&& e.reason@ == "Removed from blacklist by admin"@
                    &&& e.timestamp == now
                })
            },
            Err(e) => {
                &&& admin != config.admin
                &&& e == ErrorCode::Unauthorized
                &&& final(blacklist).blacklisted_users@ == old(blacklist).blacklisted_users@
                &&& final(records)@ == old(records)@
            },
        },
{
    if admin != config.admin {
        return Err(ErrorCode::Unauthorized);
    }
    let ghost old_users = blacklist.blacklisted_users@;
    match vec_position(&blacklist.blacklisted_users, user) {
        None => {
            proof {
                old_users.index_of_first_ensures(user);
            }
            Ok(None)
        },
        Some(i) => {
            blacklist.blacklisted_users.remove(i);
            proof {
                old_users.index_of_first_ensures(user);
                assert(old_users.contains(user)) by {
                    assert(old_users[i as int] == user);
                }
                let first = old_users.index_of_first(user)->Some_0;
                assert(first == i as int) by {
                    if first < i as int {
                        assert(old_users[first] != user);
                    } else if first > i as int {
                        assert(old_users[i as int] != user);
                    }
                }
                assert forall|a: int, b: int|
                    0 <= a < blacklist.blacklisted_users@.len() && 0 <= b
                        < blacklist.blacklisted_users@.len() && a != b implies blacklist
                    .blacklisted_users@[a] != blacklist.blacklisted_users@[b] by {
                    old_users.remove_ensures(i as int);
                }
            }
            let existing = match records.get(&user) {
                Some(r) => Some(*r),
                None => None,
            };
            match existing {
                Some(mut r) => {
                    r.is_blacklisted = false;
                    records.insert(user, r);
                },
                None => {},
            }
            Ok(
                Some(
                    SecurityEvent {
                        event_type: "USER_UNBLACKLISTED".to_owned(),
                        user,
                        reason: "Removed from blacklist by admin".to_owned(),
                        timestamp: now,
                    },
                ),
            )
        },
    }
}

} // verus!
