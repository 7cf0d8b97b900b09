use crate::error::ErrorCode;
use crate::ledger::{Ledger, LedgerView};
use crate::state::{Pubkey, VaultConfig};
use vstd::prelude::*;

verus! {

/// What the surroundings contribute to the creation of the configuration.
#[derive(Clone, Copy, Debug, PartialEq, Eq)]
pub struct InitializeVaultConfig {
    /// Derivation seed of the configuration's storage location.
    pub bump: u8,
}

/// What the creation of the configuration returns: it is refused with
/// `AlreadyInitialized` exactly when a configuration exists.
pub open spec fn initialize_vault_config_outcome(pre: LedgerView) -> Result<(), ErrorCode> {
    if pre.vault_config is Some {
        Err(ErrorCode::AlreadyInitialized)
    } else {
        Ok(())
    }
}

/// The ledger after the creation of the configuration: it holds the
/// configuration as given, or, where the creation is refused, nothing has
/// changed.
pub open spec fn initialize_vault_config_post(
    pre: LedgerView,
    ctx: InitializeVaultConfig,
    authority: Pubkey,
    reward_mint: Pubkey,
    reward_token_vault: Pubkey,
    reward_rate_per_second: u64,
) -> LedgerView {
    if pre.vault_config is Some {
        pre
    } else {
        LedgerView {
            vault_config: Some(
                VaultConfig {
                    authority,
                    reward_mint,
                    reward_token_vault,
                    reward_rate_per_second,
                    bump: ctx.bump,
                },
            ),
            ..pre
        }
    }
}

/// Creates the vault's configuration. A ledger gets its configuration once:
/// a second creation is refused with `AlreadyInitialized` and changes
/// nothing.
pub fn initialize_vault_config(
    ledger: &mut Ledger,
    ctx: &InitializeVaultConfig,
    authority: Pubkey,
    reward_mint: Pubkey,
    reward_token_vault: Pubkey,
    reward_rate_per_second: u64,
) -> (outcome: Result<(), ErrorCode>)
    ensures
        outcome == initialize_vault_config_outcome(old(ledger)@),
        final(ledger)@ == initialize_vault_config_post(
            old(ledger)@,
            *ctx,
            authority,
            reward_mint,
            reward_token_vault,
            reward_rate_per_second,
        ),
{
    if ledger.vault_config.is_some() {
        return Err(ErrorCode::AlreadyInitialized);
    }
    ledger.vault_config = Some(
        VaultConfig {
            authority,
            reward_mint,
            reward_token_vault,
            reward_rate_per_second,
            bump: ctx.bump,
        },
    );
    Ok(())
}

} // verus!
