//! Who may read or change an entry: the owner of an entry without a group,
//! or a member of the entry's group.

use vstd::prelude::*;

use crate::password::StoreFailure;

verus! {

/// What the store reports of an entry for a given principal: its owner, its
/// group, and whether the principal belongs to that group.
#[derive(Clone, Copy, Debug, PartialEq, Eq, Structural)]
pub struct EntryAccessFacts {
    pub user_id: i64,
    pub group_id: Option<i64>,
    pub is_member: bool,
}

/// The access rule: an entry without a group is open to its owner alone; an
/// entry with a group is open to the group's members alone, its owner included
/// only while a member.
pub open spec fn may_access(principal: i64, facts: EntryAccessFacts) -> bool {
    (facts.group_id is None && facts.user_id == principal) || (facts.group_id is Some
        && facts.is_member)
}

/// Whether `principal` may access the entry that the store described; an
/// entry that does not exist is not accessible.
pub open spec fn entry_access_spec(principal: i64, facts: Option<EntryAccessFacts>) -> bool {
    match facts {
        Some(f) => may_access(principal, f),
        None => false,
    }
}

/// The membership relation, as pairs `(user_id, group_id)`.
pub open spec fn member_of(members: Set<(i64, i64)>, user_id: i64, group_id: i64) -> bool {
    members.contains((user_id, group_id))
}

/// What the store reports of an entry with the given owner and group, for
/// `principal`, under the membership relation `members`.
pub open spec fn facts_in_store(
    principal: i64,
    owner: i64,
    group: Option<i64>,
    members: Set<(i64, i64)>,
) -> EntryAccessFacts {
    EntryAccessFacts {
        user_id: owner,
        group_id: group,
        is_member: match group {
            Some(g) => member_of(members, principal, g),
            None => false,
        },
    }
}

/// Whether `principal` may change the entry that the store described.
/// `facts` is `None` where the entry does not exist; a store failure is passed on.
pub fn can_modify_entry(
    principal: i64,
    facts: Result<Option<EntryAccessFacts>, StoreFailure>,
) -> (r: Result<bool, StoreFailure>)
    ensures
        r == match facts {
            Ok(f) => Ok(entry_access_spec(principal, f)),
            Err(e) => Err::<bool, StoreFailure>(e),
        },
{
    let facts = match facts {
        Err(e) => return Err(e),
        Ok(f) => f,
    };
    let entry = match facts {
        None => return Ok(false),
        Some(value) => value,
    };
    if entry.group_id.is_none() && entry.user_id != principal || entry.group_id.is_some()
        && !entry.is_member {
        return Ok(false);
    }
    Ok(true)
}

/// Whether `principal` may read the entry that the store described. Reading
/// and changing follow one rule for now; the two names let them part later.
pub fn can_read_entry(
    principal: i64,
    facts: Result<Option<EntryAccessFacts>, StoreFailure>,
) -> (r: Result<bool, StoreFailure>)
    ensures
        r == match facts {
            Ok(f) => Ok(entry_access_spec(principal, f)),
            Err(e) => Err::<bool, StoreFailure>(e),
        },
{
    can_modify_entry(principal, facts)
}

/// The access rule over the membership relation: `principal` may access an
/// entry exactly when the entry has no group and `principal` owns it, or the
/// entry has a group and `principal` is a member of it. In particular an owner
/// who has left the entry's group has lost access.
pub proof fn lemma_entry_access_rule(
    principal: i64,
    owner: i64,
    group: Option<i64>,
    members: Set<(i64, i64)>,
)
    ensures
        may_access(principal, facts_in_store(principal, owner, group, members)) <==> (
        group is None && owner == principal) || (group is Some && member_of(
            members,
            principal,
            group->Some_0,
        )),
        group is Some && owner == principal && !member_of(members, principal, group->Some_0)
            ==> !may_access(principal, facts_in_store(principal, owner, group, members)),
{
}

} // verus!
