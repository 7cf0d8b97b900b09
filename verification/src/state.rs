use vstd::prelude::*;

verus! {

/// Longest ciphertext, in bytes, that an encrypted note may carry.
pub const MAX_NOTE_LEN: usize = 1024;

/// Length, in bytes, of the authentication material that comes with a deposit.
pub const SIGNATURE_LEN: usize = 64;

/// Whether two 32-byte keys hold the same bytes.
pub fn key_eq(a: &[u8; 32], b: &[u8; 32]) -> (same: bool)
    ensures
        same == (*a == *b),
{
    let mut i: usize = 0;
    while i < 32
        invariant
            i <= 32,
            forall|j: int| 0 <= j < i ==> a@[j] == b@[j],
        decreases 32 - i,
    {
        if a[i] != b[i] {
            return false;
        }
        i += 1;
    }
    assert(*a =~= *b);
    true
}

/// The identity of a principal, an asset or a custody location: 32 opaque bytes.
#[derive(Clone, Copy, Debug, PartialEq, Eq)]
pub struct Pubkey {
    pub bytes: [u8; 32],
}

impl Pubkey {
    /// The identity that `bytes` spell.
    pub fn new_from_array(bytes: [u8; 32]) -> (key: Pubkey)
        ensures
            key.bytes == bytes,
    {
        Pubkey { bytes }
    }

    /// The bytes of the identity.
    pub fn to_bytes(&self) -> (bytes: [u8; 32])
        ensures
            bytes == self.bytes,
    {
        self.bytes
    }

    /// Whether `self` and `other` name the same identity.
    pub fn equals(&self, other: &Pubkey) -> (same: bool)
        ensures
            same == (*self == *other),
    {
        key_eq(&self.bytes, &other.bytes)
    }
}

/// The record of one deposit.
///
/// `amount` and `timestamp` never change once the record exists, and `used`
/// only ever goes from `false` to `true`.
#[derive(Clone, Copy, Debug, PartialEq, Eq)]
pub struct DepositMetadata {
    /// The key under which the deposit is recorded.
    pub deposit_id: [u8; 32],
    /// The deposited value.
    pub amount: u64,
    /// When the deposit was made, in seconds.
    pub timestamp: i64,
    /// Whether the deposit has been redeemed.
    pub used: bool,
    /// Binds the record to its encrypted note.
    pub note_nonce: [u8; 32],
    /// Derivation seed of the record's storage location.
    pub bump: u8,
}

impl DepositMetadata {
    /// Bytes that one stored record occupies.
    pub const LEN: usize = 8 + 32 + 8 + 8 + 1 + 32 + 1;
}

/// The ciphertext that belongs to one deposit. The ledger never reads it.
#[derive(Clone, Debug, PartialEq, Eq)]
pub struct EncryptedNote {
    pub encrypted_data: Vec<u8>,
    /// Derivation seed of the note's storage location.
    pub bump: u8,
}

/// What an [`EncryptedNote`] holds, as a mathematical value.
pub struct EncryptedNoteView {
    pub encrypted_data: Seq<u8>,
    pub bump: u8,
}

impl View for EncryptedNote {
    type V = EncryptedNoteView;

    open spec fn view(&self) -> EncryptedNoteView {
        EncryptedNoteView { encrypted_data: self.encrypted_data@, bump: self.bump }
    }
}

impl EncryptedNote {
    /// Bytes that one stored note occupies at most.
    pub const MAX_SIZE: usize = 8 + 4 + MAX_NOTE_LEN + 1;
}

/// The vault's configuration, of which a ledger has at most one.
///
/// It is created once and then changed only by its `authority`; the
/// `authority` itself never changes.
#[derive(Clone, Copy, Debug, PartialEq, Eq)]
pub struct VaultConfig {
    /// The one principal that may change the configuration.
    pub authority: Pubkey,
    /// The asset in which rewards are paid.
    pub reward_mint: Pubkey,
    /// Where the reward liquidity is held.
    pub reward_token_vault: Pubkey,
    /// Reward units that a deposit accrues per second.
    pub reward_rate_per_second: u64,
    /// Derivation seed of the configuration's storage location.
    pub bump: u8,
}

impl VaultConfig {
    /// Bytes that the stored configuration occupies.
    pub const LEN: usize = 8 + 32 + 32 + 32 + 8 + 1;
}

} // verus!
