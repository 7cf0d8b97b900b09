use crate::error::ErrorCode;
use crate::state::{key_eq, DepositMetadata, EncryptedNote, EncryptedNoteView};
use vstd::prelude::*;
use vstd::slice::slice_to_vec;

verus! {

/// A deposit record together with its encrypted note, as the store keeps them.
#[derive(Clone, Debug, PartialEq, Eq)]
pub struct DepositEntry {
    pub metadata: DepositMetadata,
    pub note: EncryptedNote,
}

/// What a [`DepositEntry`] holds, as a mathematical value.
pub struct DepositEntryView {
    pub metadata: DepositMetadata,
    pub note: EncryptedNoteView,
}

impl View for DepositEntry {
    type V = DepositEntryView;

    open spec fn view(&self) -> DepositEntryView {
        DepositEntryView { metadata: self.metadata, note: self.note@ }
    }
}

/// The deposit records and their notes, each under its deposit key.
///
/// The store is a map from deposit keys to entries. A key, once taken, stays
/// taken: nothing removes an entry.
#[derive(Debug, PartialEq, Eq)]
pub struct DepositStore {
    entries: Vec<DepositEntry>,
}

impl DepositEntryView {
    /// The same entry with its record marked as redeemed.
    pub open spec fn redeemed(self) -> DepositEntryView {
        DepositEntryView { metadata: DepositMetadata { used: true, ..self.metadata }, ..self }
    }
}

impl DepositStore {
    /// No deposit key occurs twice.
    #[verifier::type_invariant]
    closed spec fn keys_distinct(self) -> bool {
        forall|i: int, j: int|
            0 <= i < j < self.entries@.len() ==> self.entries@[i].metadata.deposit_id
                != self.entries@[j].metadata.deposit_id
    }

    closed spec fn holds_at(self, key: [u8; 32], i: int) -> bool {
        0 <= i < self.entries@.len() && self.entries@[i].metadata.deposit_id == key
    }

    /// The entries by deposit key.
    pub closed spec fn view(&self) -> Map<[u8; 32], DepositEntryView> {
        Map::new(
            |key: [u8; 32]| exists|i: int| self.holds_at(key, i),
            |key: [u8; 32]| self.entries@[choose|i: int| self.holds_at(key, i)]@,
        )
    }

    /// Under distinct keys, the entry at an index is the entry under its key.
    proof fn lemma_holds_at(self, key: [u8; 32], i: int)
        requires
            self.keys_distinct(),
            self.holds_at(key, i),
        ensures
            self@.contains_key(key),
            self@[key] == self.entries@[i]@,
    {
        let chosen = choose|j: int| self.holds_at(key, j);
        assert(chosen == i);
    }

    /// A store without entries.
    pub fn new() -> (store: DepositStore)
        ensures
            store@ == Map::<[u8; 32], DepositEntryView>::empty(),
    {
        let store = DepositStore { entries: Vec::new() };
        assert(store@ =~= Map::<[u8; 32], DepositEntryView>::empty());
        store
    }

    fn position(&self, key: &[u8; 32]) -> (found: Option<usize>)
        ensures
            found matches Some(i) ==> self.holds_at(*key, i as int),
            found is None ==> forall|i: int| !self.holds_at(*key, i),
    {
        let mut i: usize = 0;
        while i < self.entries.len()
            invariant
                i <= self.entries@.len(),
                forall|j: int| 0 <= j < i ==> !self.holds_at(*key, j),
            decreases self.entries@.len() - i,
        {
            if key_eq(&self.entries[i].metadata.deposit_id, key) {
                return Some(i);
            }
            i += 1;
        }
        None
    }

    /// Whether a deposit is recorded under `key`.
    pub fn contains(&self, key: &[u8; 32]) -> (present: bool)
        ensures
            present == self@.contains_key(*key),
    {
        self.position(key).is_some()
    }

    /// The entry under `key`, if there is one.
    pub fn get(&self, key: &[u8; 32]) -> (entry: Option<&DepositEntry>)
        ensures
            entry is Some <==> self@.contains_key(*key),
            entry matches Some(found) ==> found@ == self@[*key] && found.metadata.deposit_id
                == *key,
    {
        proof {
            use_type_invariant(self);
        }
        match self.position(key) {
            Some(i) => Some(&self.entries[i]),
            None => None,
        }
    }

    /// Records `metadata` and `note` under `metadata.deposit_id`, or refuses
    /// with `DuplicateDeposit` when that key is taken.
    pub fn create(&mut self, metadata: DepositMetadata, note: EncryptedNote) -> (outcome: Result<
        (),
        ErrorCode,
    >)
        ensures
            old(self)@.contains_key(metadata.deposit_id) ==> outcome == Err::<(), ErrorCode>(
                ErrorCode::DuplicateDeposit,
            ) && final(self)@ == old(self)@,
            !old(self)@.contains_key(metadata.deposit_id) ==> outcome == Ok::<(), ErrorCode>(())
                && final(self)@ == old(self)@.insert(
                metadata.deposit_id,
                (DepositEntryView { metadata, note: note@ }),
            ),
    {
        proof {
            use_type_invariant(&*self);
        }
        if self.position(&metadata.deposit_id).is_some() {
            return Err(ErrorCode::DuplicateDeposit);
        }
        let ghost before = *self;
        let ghost added = self.entries@.len() as int;
        let ghost expected = self@.insert(
            metadata.deposit_id,
            DepositEntryView { metadata, note: note@ },
        );
        let mut entries: Vec<DepositEntry> = Vec::new();
        std::mem::swap(&mut entries, &mut self.entries);
        entries.push(DepositEntry { metadata, note });
        proof {
            assert forall|i: int, j: int| 0 <= i < j < entries@.len() implies entries@[i].metadata.deposit_id
                != entries@[j].metadata.deposit_id by {
                if j == added {
                    assert(!before.holds_at(metadata.deposit_id, i));
                }
            }
        }
        self.entries = entries;
        proof {
            let after = *self;
            assert forall|key: [u8; 32]| after@.contains_key(key) == expected.contains_key(
                key,
            ) by {
                if after@.contains_key(key) {
                    let i = choose|i: int| after.holds_at(key, i);
                    if i != added {
                        assert(before.holds_at(key, i));
                    }
                }
                if key == metadata.deposit_id {
                    after.lemma_holds_at(key, added);
                } else if before@.contains_key(key) {
                    let i = choose|i: int| before.holds_at(key, i);
                    after.lemma_holds_at(key, i);
                }
            }
            assert forall|key: [u8; 32]| after@.contains_key(key) implies after@[key]
                == expected[key] by {
                if key == metadata.deposit_id {
                    after.lemma_holds_at(key, added);
                } else {
                    assert(before@.contains_key(key)) by {
                        assert(expected.contains_key(key));
                    }
                    let i = choose|i: int| before.holds_at(key, i);
                    before.lemma_holds_at(key, i);
                    after.lemma_holds_at(key, i);
                }
            }
            assert(after@ =~= expected);
        }
        Ok(())
    }

    /// Marks the deposit under `key` as redeemed.
    ///
    /// Refuses with `InvalidDepositKey` when there is no such deposit and with
    /// `DepositAlreadyUsed` when it was redeemed before.
    pub fn mark_used(&mut self, key: &[u8; 32]) -> (outcome: Result<(), ErrorCode>)
        ensures
            !old(self)@.contains_key(*key) ==> outcome == Err::<(), ErrorCode>(
                ErrorCode::InvalidDepositKey,
            ) && final(self)@ == old(self)@,
            old(self)@.contains_key(*key) && old(self)@[*key].metadata.used ==> outcome == Err::<
                (),
                ErrorCode,
            >(ErrorCode::DepositAlreadyUsed) && final(self)@ == old(self)@,
            old(self)@.contains_key(*key) && !old(self)@[*key].metadata.used ==> outcome == Ok::<
                (),
                ErrorCode,
            >(()) && final(self)@ == old(self)@.insert(*key, old(self)@[*key].redeemed()),
    {
        proof {
            use_type_invariant(&*self);
        }
        let i = match self.position(key) {
            Some(i) => i,
            None => {
                return Err(ErrorCode::InvalidDepositKey);
            },
        };
        if self.entries[i].metadata.used {
            return Err(ErrorCode::DepositAlreadyUsed);
        }
        let ghost before = *self;
        let ghost expected = self@.insert(*key, self@[*key].redeemed());
        let mut entries: Vec<DepositEntry> = Vec::new();
        std::mem::swap(&mut entries, &mut self.entries);
        entries[i].metadata.used = true;
        self.entries = entries;
        proof {
            let after = *self;
            assert forall|k: [u8; 32], j: int| after.holds_at(k, j) <==> before.holds_at(k, j) by {
                if 0 <= j < before.entries@.len() {
                    assert(after.entries@[j].metadata.deposit_id
                        == before.entries@[j].metadata.deposit_id);
                }
            }
            assert forall|k: [u8; 32]| expected.contains_key(k) implies after@.contains_key(k)
                && after@[k] == expected[k] by {
                let j = choose|j: int| before.holds_at(k, j);
                before.lemma_holds_at(k, j);
                after.lemma_holds_at(k, j);
            }
            assert(after@ =~= expected);
        }
        Ok(())
    }
}

impl Clone for DepositStore {
    /// A store with the same entries.
    fn clone(&self) -> (copy: DepositStore)
        ensures
            copy@ == self@,
    {
        proof {
            use_type_invariant(self);
        }
        let mut entries: Vec<DepositEntry> = Vec::new();
        let mut i: usize = 0;
        while i < self.entries.len()
            invariant
                i <= self.entries@.len(),
                entries@.len() == i,
                forall|j: int| 0 <= j < i ==> entries@[j]@ == self.entries@[j]@,
            decreases self.entries@.len() - i,
        {
            let entry = &self.entries[i];
            entries.push(
                DepositEntry {
                    metadata: entry.metadata,
                    note: EncryptedNote {
                        encrypted_data: slice_to_vec(entry.note.encrypted_data.as_slice()),
                        bump: entry.note.bump,
                    },
                },
            );
            i += 1;
        }
        let copy = DepositStore { entries };
        proof {
            assert forall|key: [u8; 32], j: int| copy.holds_at(key, j) <==> self.holds_at(
                key,
                j,
            ) by {
                if 0 <= j < self.entries@.len() {
                    assert(copy.entries@[j]@ == self.entries@[j]@);
                }
            }
            assert forall|key: [u8; 32]| self@.contains_key(key) implies copy@.contains_key(key)
                && copy@[key] == self@[key] by {
                let j = choose|j: int| self.holds_at(key, j);
                self.lemma_holds_at(key, j);
                copy.lemma_holds_at(key, j);
            }
            assert(copy@ =~= self@);
        }
        copy
    }
}

} // verus!
