use vstd::prelude::*;
use std::collections::HashMap;

verus! {

broadcast use vstd::std_specs::hash::group_hash_axioms;

/// A membership record: whether the account is a recognized member, and the
/// highest proposal index it ever voted yes on. The high-water mark is kept
/// as a hook for future flows and is never read by the engine's decisions.
#[derive(Clone, Copy, PartialEq, Eq, Structural, Debug)]
pub struct Member {
    pub exists: bool,
    pub highest_index_yes_vote: u32,
}

/// The record an account without an entry is read as.
pub open spec fn absent_member() -> Member {
    Member { exists: false, highest_index_yes_vote: 0 }
}

/// The record stored for `a`, or the absent record when there is none.
pub open spec fn member_record(m: Map<u64, Member>, a: u64) -> Member {
    if m.contains_key(a) {
        m[a]
    } else {
        absent_member()
    }
}

/// Whether `a` is a recognized member: its record exists and its flag is set.
pub open spec fn spec_is_member(m: Map<u64, Member>, a: u64) -> bool {
    m.contains_key(a) && m[a].exists
}

/// The map after a yes vote by `a` on proposal `index`: the high-water mark
/// rises to `index` if it was below, and the membership flag is kept.
pub open spec fn yes_vote_post(m: Map<u64, Member>, a: u64, index: u32) -> Map<u64, Member> {
    let cur = member_record(m, a);
    let high = if index >= cur.highest_index_yes_vote {
        index
    } else {
        cur.highest_index_yes_vote
    };
    m.insert(a, Member { exists: cur.exists, highest_index_yes_vote: high })
}

/// The membership registry: tracks which accounts are recognized members and
/// each account's highest-indexed yes vote.
pub struct Registry {
    members: HashMap<u64, Member>,
}

impl View for Registry {
    type V = Map<u64, Member>;

    closed spec fn view(&self) -> Map<u64, Member> {
        self.members@
    }
}

impl Registry {
    /// A registry with no records.
    pub fn new() -> (r: Registry)
        ensures
            r@ == Map::<u64, Member>::empty(),
    {
        Registry { members: HashMap::new() }
    }

    /// Whether the account is a recognized member.
    pub fn is_member(&self, a: u64) -> (r: bool)
        ensures
            r == spec_is_member(self@, a),
    {
        match self.members.get(&a) {
            Some(m) => m.exists,
            None => false,
        }
    }

    /// The stored record for the account, or the absent record.
    pub fn member(&self, a: u64) -> (m: Member)
        ensures
            m == member_record(self@, a),
    {
        match self.members.get(&a) {
            Some(m) => *m,
            None => Member { exists: false, highest_index_yes_vote: 0 },
        }
    }

    /// Creates (or replaces) the record for `a` as a recognized member with
    /// the given high-water mark.
    pub fn register(&mut self, a: u64, highest_index: u32)
        ensures
            final(self)@ == old(self)@.insert(
                a,
                Member { exists: true, highest_index_yes_vote: highest_index },
            ),
    {
        self.members.insert(a, Member { exists: true, highest_index_yes_vote: highest_index });
    }

    /// Records a yes vote on proposal `index`: the account's high-water mark
    /// becomes the maximum of its current value and `index`; the membership
    /// flag is unchanged (absent accounts get an entry with the flag unset).
    pub fn record_yes_vote(&mut self, a: u64, index: u32)
        ensures
            final(self)@ == yes_vote_post(old(self)@, a, index),
    {
        let cur: Member = self.member(a);
        let high: u32 = if index >= cur.highest_index_yes_vote {
            index
        } else {
            cur.highest_index_yes_vote
        };
        self.members.insert(a, Member { exists: cur.exists, highest_index_yes_vote: high });
    }
}

} // verus!
