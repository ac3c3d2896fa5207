//! The roster store held in memory: the three tables of records, each keyed
//! by identity, with the operations that the workflow asks of a store. A
//! host that keeps the roster elsewhere answers as this one does.

use crate::fresher::Fresher;
use crate::records::{admitted, ManualRecord, MemberRecord, PendingRecord, PendingView, RecordView};
use crate::text::{lowercase, lowercase_of};
use std::collections::HashMap;
use vstd::prelude::*;

verus! {

broadcast use vstd::std_specs::hash::group_hash_axioms;

/// Why the store refused an operation.
#[derive(Clone, Copy, Debug, PartialEq, Eq, Structural)]
pub enum StoreError {
    /// The table holds no row for the identity.
    NotFound,
    /// The table already holds a row for the identity.
    Conflict,
}

/// The row of a table for an identity, if there is one.
pub open spec fn row<V>(table: Map<u64, V>, identity: u64) -> Option<V> {
    if table.contains_key(identity) {
        Some(table[identity])
    } else {
        None
    }
}

/// A pending record as the store keeps it: the shortcode in lower case.
pub open spec fn kept_pending(record: PendingView) -> PendingView {
    PendingView { shortcode: lowercase_of(record.shortcode), ..record }
}

/// A manual or member record as the store keeps it: the shortcode in lower
/// case.
pub open spec fn kept(record: RecordView) -> RecordView {
    RecordView { shortcode: lowercase_of(record.shortcode), ..record }
}

/// What the store holds, as plain values.
pub struct StoreView {
    pub pending: Map<u64, PendingView>,
    pub manual: Map<u64, RecordView>,
    pub members: Map<u64, RecordView>,
}

impl StoreView {
    /// Every row is filed under the identity that it holds.
    pub open spec fn wf(self) -> bool {
        &&& forall|k: u64| #[trigger] self.pending.contains_key(k) ==> self.pending[k].identity == k
        &&& forall|k: u64| #[trigger] self.manual.contains_key(k) ==> self.manual[k].identity == k
        &&& forall|k: u64| #[trigger] self.members.contains_key(k) ==> self.members[k].identity == k
    }

    /// The store with no rows.
    pub open spec fn empty() -> StoreView {
        StoreView { pending: Map::empty(), manual: Map::empty(), members: Map::empty() }
    }

    /// The store after a pending record is filed as it is; unchanged where
    /// the identity already has one.
    pub open spec fn file_pending(self, record: PendingView) -> StoreView {
        if self.pending.contains_key(record.identity) {
            self
        } else {
            StoreView { pending: self.pending.insert(record.identity, record), ..self }
        }
    }

    /// The store after a manual record is filed as it is; unchanged where
    /// the identity already has one.
    pub open spec fn file_manual(self, record: RecordView) -> StoreView {
        if self.manual.contains_key(record.identity) {
            self
        } else {
            StoreView { manual: self.manual.insert(record.identity, record), ..self }
        }
    }

    /// The store after a member record is filed as it is; unchanged where
    /// the identity already has one.
    pub open spec fn file_member(self, record: RecordView) -> StoreView {
        if self.members.contains_key(record.identity) {
            self
        } else {
            StoreView { members: self.members.insert(record.identity, record), ..self }
        }
    }

    /// The store after a pending record is inserted, its shortcode in lower
    /// case; unchanged on conflict.
    pub open spec fn insert_pending(self, record: PendingView) -> StoreView {
        self.file_pending(kept_pending(record))
    }

    /// The store after a manual record is inserted, its shortcode in lower
    /// case; unchanged on conflict.
    pub open spec fn insert_manual(self, record: RecordView) -> StoreView {
        self.file_manual(kept(record))
    }

    /// The store after a member record is inserted, its shortcode in lower
    /// case; unchanged on conflict.
    pub open spec fn insert_member(self, record: RecordView) -> StoreView {
        self.file_member(kept(record))
    }

    /// The store without the pending record of an identity.
    pub open spec fn delete_pending(self, identity: u64) -> StoreView {
        StoreView { pending: self.pending.remove(identity), ..self }
    }

    /// The store without the manual record of an identity.
    pub open spec fn delete_manual(self, identity: u64) -> StoreView {
        StoreView { manual: self.manual.remove(identity), ..self }
    }

    /// The store without the member record of an identity.
    pub open spec fn delete_member(self, identity: u64) -> StoreView {
        StoreView { members: self.members.remove(identity), ..self }
    }

    /// Whether a record of an identity can move from a table that holds
    /// `source` into the members, and if not, why.
    pub open spec fn move_refusal<V>(self, source: Map<u64, V>, identity: u64) -> Option<
        StoreError,
    > {
        if !source.contains_key(identity) {
            Some(StoreError::NotFound)
        } else if self.members.contains_key(identity) {
            Some(StoreError::Conflict)
        } else {
            None
        }
    }

    /// The store after the pending record of an identity has become a
    /// member; unchanged where the move is refused.
    pub open spec fn move_pending(self, identity: u64, preferred_name: Seq<char>, fresher: Fresher)
        -> StoreView {
        if self.move_refusal(self.pending, identity) is Some {
            self
        } else {
            StoreView {
                pending: self.pending.remove(identity),
                members: self.members.insert(
                    identity,
                    admitted(self.pending[identity], preferred_name, fresher),
                ),
                ..self
            }
        }
    }

    /// The store after the manual record of an identity has become a member;
    /// unchanged where the move is refused.
    pub open spec fn move_manual(self, identity: u64) -> StoreView {
        if self.move_refusal(self.manual, identity) is Some {
            self
        } else {
            StoreView {
                manual: self.manual.remove(identity),
                members: self.members.insert(identity, self.manual[identity]),
                ..self
            }
        }
    }
}

/// The roster store held in memory.
pub struct Store {
    pending: HashMap<u64, PendingRecord>,
    manual: HashMap<u64, ManualRecord>,
    members: HashMap<u64, MemberRecord>,
}

impl View for Store {
    type V = StoreView;

    closed spec fn view(&self) -> StoreView {
        StoreView {
            pending: self.pending@.map_values(|r: PendingRecord| r@),
            manual: self.manual@.map_values(|r: ManualRecord| r@),
            members: self.members@.map_values(|r: MemberRecord| r@),
        }
    }
}

impl Store {
    /// A store with no rows.
    pub fn new() -> (store: Store)
        ensures
            store@ == StoreView::empty(),
    {
        let store = Store { pending: HashMap::new(), manual: HashMap::new(), members: HashMap::new() };
        assert(store@.pending =~= Map::empty());
        assert(store@.manual =~= Map::empty());
        assert(store@.members =~= Map::empty());
        store
    }

    /// The pending record of an identity.
    pub fn get_pending(&self, identity: u64) -> (found: Option<PendingRecord>)
        ensures
            match found {
                Some(record) => row(self@.pending, identity) == Some(record@),
                None => row(self@.pending, identity) is None,
            },
    {
        match self.pending.get(&identity) {
            Some(record) => Some(record.clone()),
            None => None,
        }
    }

    /// The manual record of an identity.
    pub fn get_manual(&self, identity: u64) -> (found: Option<ManualRecord>)
        ensures
            match found {
                Some(record) => row(self@.manual, identity) == Some(record@),
                None => row(self@.manual, identity) is None,
            },
    {
        match self.manual.get(&identity) {
            Some(record) => Some(record.clone()),
            None => None,
        }
    }

    /// The member record of an identity.
    pub fn get_member(&self, identity: u64) -> (found: Option<MemberRecord>)
        ensures
            match found {
                Some(record) => row(self@.members, identity) == Some(record@),
                None => row(self@.members, identity) is None,
            },
    {
        match self.members.get(&identity) {
            Some(record) => Some(record.clone()),
            None => None,
        }
    }

    /// Files a pending record as it is. Refused where the identity already
    /// has one.
    pub fn file_pending(&mut self, record: PendingRecord) -> (done: Result<(), StoreError>)
        ensures
            final(self)@ == old(self)@.file_pending(record@),
            done == if old(self)@.pending.contains_key(record.identity) {
                Err::<(), StoreError>(StoreError::Conflict)
            } else {
                Ok(())
            },
    {
        if self.pending.contains_key(&record.identity) {
            return Err(StoreError::Conflict);
        }
        let ghost filed = record@;
        self.pending.insert(record.identity, record);
        assert(self@.pending =~= old(self)@.pending.insert(filed.identity, filed));
        Ok(())
    }

    /// Files a manual record as it is. Refused where the identity already
    /// has one.
    pub fn file_manual(&mut self, record: ManualRecord) -> (done: Result<(), StoreError>)
        ensures
            final(self)@ == old(self)@.file_manual(record@),
            done == if old(self)@.manual.contains_key(record.identity) {
                Err::<(), StoreError>(StoreError::Conflict)
            } else {
                Ok(())
            },
    {
        if self.manual.contains_key(&record.identity) {
            return Err(StoreError::Conflict);
        }
        let ghost filed = record@;
        self.manual.insert(record.identity, record);
        assert(self@.manual =~= old(self)@.manual.insert(filed.identity, filed));
        Ok(())
    }

    /// Files a member record as it is. Refused where the identity already
    /// has one.
    pub fn file_member(&mut self, record: MemberRecord) -> (done: Result<(), StoreError>)
        ensures
            final(self)@ == old(self)@.file_member(record@),
            done == if old(self)@.members.contains_key(record.identity) {
                Err::<(), StoreError>(StoreError::Conflict)
            } else {
                Ok(())
            },
    {
        if self.members.contains_key(&record.identity) {
            return Err(StoreError::Conflict);
        }
        let ghost filed = record@;
        self.members.insert(record.identity, record);
        assert(self@.members =~= old(self)@.members.insert(filed.identity, filed));
        Ok(())
    }

    /// Inserts a pending record, its shortcode in lower case. Refused where
    /// the identity already has one.
    pub fn insert_pending(&mut self, record: PendingRecord) -> (done: Result<(), StoreError>)
        ensures
            final(self)@ == old(self)@.insert_pending(record@),
            done == if old(self)@.pending.contains_key(record.identity) {
                Err::<(), StoreError>(StoreError::Conflict)
            } else {
                Ok(())
            },
    {
        let shortcode = lowercase(record.shortcode.as_str());
        self.file_pending(
            PendingRecord { identity: record.identity, shortcode, legal_name: record.legal_name },
        )
    }

    /// Inserts a manual record, its shortcode in lower case. Refused where
    /// the identity already has one.
    pub fn insert_manual(&mut self, record: ManualRecord) -> (done: Result<(), StoreError>)
        ensures
            final(self)@ == old(self)@.insert_manual(record@),
            done == if old(self)@.manual.contains_key(record.identity) {
                Err::<(), StoreError>(StoreError::Conflict)
            } else {
                Ok(())
            },
    {
        let shortcode = lowercase(record.shortcode.as_str());
        self.file_manual(
            ManualRecord {
                identity: record.identity,
                shortcode,
                preferred_name: record.preferred_name,
                legal_name: record.legal_name,
                fresher: record.fresher,
            },
        )
    }

    /// Inserts a member record, its shortcode in lower case. Refused where
    /// the identity already has one.
    pub fn insert_member(&mut self, record: MemberRecord) -> (done: Result<(), StoreError>)
        ensures
            final(self)@ == old(self)@.insert_member(record@),
            done == if old(self)@.members.contains_key(record.identity) {
                Err::<(), StoreError>(StoreError::Conflict)
            } else {
                Ok(())
            },
    {
        let shortcode = lowercase(record.shortcode.as_str());
        self.file_member(
            MemberRecord {
                identity: record.identity,
                shortcode,
                preferred_name: record.preferred_name,
                legal_name: record.legal_name,
                fresher: record.fresher,
            },
        )
    }

    /// Deletes the pending record of an identity and says whether there was
    /// one.
    pub fn delete_pending(&mut self, identity: u64) -> (removed: bool)
        ensures
            final(self)@ == old(self)@.delete_pending(identity),
            removed == old(self)@.pending.contains_key(identity),
    {
        let removed = self.pending.remove(&identity).is_some();
        assert(self@.pending =~= old(self)@.pending.remove(identity));
        removed
    }

    /// Deletes the manual record of an identity and says whether there was
    /// one.
    pub fn delete_manual(&mut self, identity: u64) -> (removed: bool)
        ensures
            final(self)@ == old(self)@.delete_manual(identity),
            removed == old(self)@.manual.contains_key(identity),
    {
        let removed = self.manual.remove(&identity).is_some();
        assert(self@.manual =~= old(self)@.manual.remove(identity));
        removed
    }

    /// Deletes the member record of an identity and says whether there was
    /// one.
    pub fn delete_member(&mut self, identity: u64) -> (removed: bool)
        ensures
            final(self)@ == old(self)@.delete_member(identity),
            removed == old(self)@.members.contains_key(identity),
    {
        let removed = self.members.remove(&identity).is_some();
        assert(self@.members =~= old(self)@.members.remove(identity));
        removed
    }

    /// Moves the pending record of an identity into the members in one step,
    /// adding the preferred name and the fresher category, and returns the
    /// new member. Where the identity has no pending record or is a member
    /// already, nothing changes.
    pub fn move_pending_to_member(&mut self, identity: u64, preferred_name: String, fresher: Fresher)
        -> (moved: Result<MemberRecord, StoreError>)
        ensures
            final(self)@ == old(self)@.move_pending(identity, preferred_name@, fresher),
            match moved {
                Ok(member) => {
                    &&& old(self)@.move_refusal(old(self)@.pending, identity) is None
                    &&& member@ == admitted(old(self)@.pending[identity], preferred_name@, fresher)
                },
                Err(e) => old(self)@.move_refusal(old(self)@.pending, identity) == Some(e),
            },
    {
        if !self.pending.contains_key(&identity) {
            return Err(StoreError::NotFound);
        }
        if self.members.contains_key(&identity) {
            return Err(StoreError::Conflict);
        }
        match self.pending.remove(&identity) {
            Some(pending) => {
                let ghost before = pending@;
                let member = pending.into_member(preferred_name, fresher);
                let copy = member.clone();
                self.members.insert(identity, member);
                assert(self@.pending =~= old(self)@.pending.remove(identity));
                assert(self@.members =~= old(self)@.members.insert(
                    identity,
                    admitted(before, preferred_name@, fresher),
                ));
                Ok(copy)
            },
            None => Err(StoreError::NotFound),
        }
    }

    /// Moves the manual record of an identity into the members in one step
    /// and returns the new member. Where the identity has no manual record
    /// or is a member already, nothing changes.
    pub fn move_manual_to_member(&mut self, identity: u64) -> (moved: Result<
        MemberRecord,
        StoreError,
    >)
        ensures
            final(self)@ == old(self)@.move_manual(identity),
            match moved {
                Ok(member) => {
                    &&& old(self)@.move_refusal(old(self)@.manual, identity) is None
                    &&& member@ == old(self)@.manual[identity]
                },
                Err(e) => old(self)@.move_refusal(old(self)@.manual, identity) == Some(e),
            },
    {
        if !self.manual.contains_key(&identity) {
            return Err(StoreError::NotFound);
        }
        if self.members.contains_key(&identity) {
            return Err(StoreError::Conflict);
        }
        match self.manual.remove(&identity) {
            Some(request) => {
                let ghost before = request@;
                let member = request.promote();
                let copy = member.clone();
                self.members.insert(identity, member);
                assert(self@.manual =~= old(self)@.manual.remove(identity));
                assert(self@.members =~= old(self)@.members.insert(identity, before));
                Ok(copy)
            },
            None => Err(StoreError::NotFound),
        }
    }

    /// How many pending records the store holds.
    pub fn count_pending(&self) -> (n: usize)
        ensures
            n == self@.pending.len(),
    {
        proof {
            lemma_same_size(self.pending@, |r: PendingRecord| r@);
        }
        self.pending.len()
    }

    /// How many manual records the store holds.
    pub fn count_manual(&self) -> (n: usize)
        ensures
            n == self@.manual.len(),
    {
        proof {
            lemma_same_size(self.manual@, |r: ManualRecord| r@);
        }
        self.manual.len()
    }

    /// How many member records the store holds.
    pub fn count_members(&self) -> (n: usize)
        ensures
            n == self@.members.len(),
    {
        proof {
            lemma_same_size(self.members@, |r: MemberRecord| r@);
        }
        self.members.len()
    }
}

/// Mapping the values of a table keeps its keys, and so its size.
proof fn lemma_same_size<V, W>(table: Map<u64, V>, f: spec_fn(V) -> W)
    ensures
        table.map_values(f).len() == table.len(),
{
    assert(table.map_values(f).dom() =~= table.dom());
}

} // verus!
