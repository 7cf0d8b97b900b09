use crate::error::ErrorCode;
use crate::ledger::{Ledger, LedgerView};
use crate::state::{Pubkey, VaultConfig};
use vstd::prelude::*;

verus! {

/// What the surroundings contribute to a change of the configuration.
#[derive(Clone, Copy, Debug, PartialEq, Eq)]
pub struct UpdateVaultConfig {
    /// Who asks for the change.
    pub authority: Pubkey,
}

/// Whether the caller is the authority of the ledger's configuration. Where
/// there is no configuration, nobody is.
pub open spec fn update_vault_config_authorized(pre: LedgerView, ctx: UpdateVaultConfig) -> bool {
    pre.vault_config matches Some(config) && config.authority == ctx.authority
}

/// `config` with each given field overwritten and the others as they were.
/// The authority and the derivation seed cannot be given: they stay.
pub open spec fn updated_config(
    config: VaultConfig,
    reward_mint: Option<Pubkey>,
    reward_token_vault: Option<Pubkey>,
    reward_rate_per_second: Option<u64>,
) -> VaultConfig {
    VaultConfig {
        authority: config.authority,
        reward_mint: match reward_mint {
            Some(mint) => mint,
            None => config.reward_mint,
        },
        reward_token_vault: match reward_token_vault {
            Some(vault) => vault,
            None => config.reward_token_vault,
        },
        reward_rate_per_second: match reward_rate_per_second {
            Some(rate) => rate,
            None => config.reward_rate_per_second,
        },
        bump: config.bump,
    }
}

/// What a change of the configuration returns: it is refused with
/// `Unauthorized` exactly when the caller is not the authority.
pub open spec fn update_vault_config_outcome(pre: LedgerView, ctx: UpdateVaultConfig) -> Result<
    (),
    ErrorCode,
> {
    if update_vault_config_authorized(pre, ctx) {
        Ok(())
    } else {
        Err(ErrorCode::Unauthorized)
    }
}

/// The ledger after a change of the configuration: the given fields are
/// overwritten, or, where the change is refused, nothing has changed.
pub open spec fn update_vault_config_post(
    pre: LedgerView,
    ctx: UpdateVaultConfig,
    reward_mint: Option<Pubkey>,
    reward_token_vault: Option<Pubkey>,
    reward_rate_per_second: Option<u64>,
) -> LedgerView {
    if update_vault_config_authorized(pre, ctx) {
        LedgerView {
            vault_config: Some(
                updated_config(
                    pre.vault_config->0,
                    reward_mint,
                    reward_token_vault,
                    reward_rate_per_second,
                ),
            ),
            ..pre
        }
    } else {
        pre
    }
}

/// Overwrites the fields of the configuration that are given and keeps the
/// others. Only the configuration's authority may do so: anybody else is
/// refused with `Unauthorized`, and nothing changes.
pub fn update_vault_config(
    ledger: &mut Ledger,
    ctx: &UpdateVaultConfig,
    reward_mint: Option<Pubkey>,
    reward_token_vault: Option<Pubkey>,
    reward_rate_per_second: Option<u64>,
) -> (outcome: Result<(), ErrorCode>)
    ensures
        outcome == update_vault_config_outcome(old(ledger)@, *ctx),
        final(ledger)@ == update_vault_config_post(
            old(ledger)@,
            *ctx,
            reward_mint,
            reward_token_vault,
            reward_rate_per_second,
        ),
{
    let mut config = match ledger.vault_config {
        Some(config) => config,
        None => {
            return Err(ErrorCode::Unauthorized);
        },
    };
    if !config.authority.equals(&ctx.authority) {
        return Err(ErrorCode::Unauthorized);
    }
    if let Some(mint) = reward_mint {
        config.reward_mint = mint;
    }
    if let Some(vault) = reward_token_vault {
        config.reward_token_vault = vault;
    }
    if let Some(rate) = reward_rate_per_second {
        config.reward_rate_per_second = rate;
    }
    ledger.vault_config = Some(config);
    Ok(())
}

} // verus!
