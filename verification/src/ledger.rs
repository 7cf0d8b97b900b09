use crate::state::{VaultConfig, MAX_NOTE_LEN};
use crate::store::{DepositEntryView, DepositStore};
use crate::treasury::Treasury;
use vstd::prelude::*;

verus! {

/// Everything the vault keeps: its configuration, its treasury and the
/// deposits recorded so far.
///
/// A ledger starts out empty. Its transitions are the operations of
/// [`crate::instructions`]: each of them either commits all of its effects or
/// returns an error and leaves the ledger as it was.
#[derive(Clone, Debug, PartialEq, Eq)]
pub struct Ledger {
    /// The configuration, once it has been created.
    pub vault_config: Option<VaultConfig>,
    /// The pooled deposits.
    pub vault: Treasury,
    /// The deposit records with their notes.
    pub deposits: DepositStore,
}

/// What a [`Ledger`] holds, as a mathematical value.
pub struct LedgerView {
    pub vault_config: Option<VaultConfig>,
    pub vault: Treasury,
    pub deposits: Map<[u8; 32], DepositEntryView>,
}

impl View for Ledger {
    type V = LedgerView;

    open spec fn view(&self) -> LedgerView {
        LedgerView { vault_config: self.vault_config, vault: self.vault, deposits: self.deposits@ }
    }
}

impl LedgerView {
    /// The ledger of a fresh deployment: no configuration, an empty treasury,
    /// no deposits.
    pub open spec fn empty() -> LedgerView {
        LedgerView {
            vault_config: None,
            vault: Treasury { balance: 0 },
            deposits: Map::empty(),
        }
    }

    /// Whether the deposit under `key` exists and has been redeemed.
    pub open spec fn redeemed(self, key: [u8; 32]) -> bool {
        self.deposits.contains_key(key) && self.deposits[key].metadata.used
    }

    /// Every record stands under its own key, holds a positive amount and
    /// comes with a note of at most 1024 bytes.
    pub open spec fn records_valid(self) -> bool {
        forall|key: [u8; 32]| #[trigger]
            self.deposits.contains_key(key) ==> {
                &&& self.deposits[key].metadata.deposit_id == key
                &&& self.deposits[key].metadata.amount > 0
                &&& self.deposits[key].note.encrypted_data.len() <= MAX_NOTE_LEN
            }
    }

    /// Whether `later` can have come from `self`: every deposit of `self` is
    /// still there, with its amount, timestamp, nonce and note as they were,
    /// and redeemed if it was redeemed; and the authority of the
    /// configuration, where `self` has one, is the same.
    pub open spec fn leads_to(self, later: LedgerView) -> bool {
        &&& forall|key: [u8; 32]| #[trigger]
            self.deposits.contains_key(key) ==> {
                &&& later.deposits.contains_key(key)
                &&& later.deposits[key].note == self.deposits[key].note
                &&& later.deposits[key].metadata.deposit_id
                    == self.deposits[key].metadata.deposit_id
                &&& later.deposits[key].metadata.amount == self.deposits[key].metadata.amount
                &&& later.deposits[key].metadata.timestamp
                    == self.deposits[key].metadata.timestamp
                &&& later.deposits[key].metadata.note_nonce
                    == self.deposits[key].metadata.note_nonce
                &&& later.deposits[key].metadata.bump == self.deposits[key].metadata.bump
                &&& self.deposits[key].metadata.used ==> later.deposits[key].metadata.used
            }
        &&& self.vault_config matches Some(config) ==> later.vault_config is Some
            && later.vault_config->0.authority == config.authority
    }
}

impl Ledger {
    /// The ledger of a fresh deployment.
    pub fn new() -> (ledger: Ledger)
        ensures
            ledger@ == LedgerView::empty(),
    {
        Ledger { vault_config: None, vault: Treasury::new(), deposits: DepositStore::new() }
    }
}

} // verus!
