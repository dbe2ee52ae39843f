use vstd::prelude::*;
use crate::amount::I80F48;
use crate::error::AcademyError;
use crate::events::ConfigUpdated;
use crate::key::AccountKey;
use crate::state::{Config, ConfigUpdate, MinterRole};

verus! {

/// The label of the minter role that [`initialize`] creates for the authority.
pub open spec fn backend_label() -> Seq<char> {
    seq!['b', 'a', 'c', 'k', 'e', 'n', 'd']
}

/// Sets the ledger up: `authority` is both the authority and the backend
/// signer, and receives a minter role without a per-call limit.
pub fn initialize(authority: AccountKey, xp_mint: AccountKey, daily_xp_cap: u64, now: i64) -> (r: (Config, MinterRole))
    ensures
        r.0 == (Config { authority, backend_signer: authority, xp_mint, daily_xp_cap }),
        r.1.minter == authority,
        r.1.label@ == backend_label(),
        r.1.max_xp_per_call@ == i128::MAX,
        r.1.total_xp_minted@ == 0,
        r.1.is_active,
        r.1.created_at == now,
        r.1.wf(),
{
    let label: String = "backend".to_owned();
    proof {
        reveal_strlit("backend");
    }
    assert(label@ =~= backend_label());
    let config = Config { authority, backend_signer: authority, xp_mint, daily_xp_cap };
    let role = MinterRole {
        minter: authority,
        label,
        max_xp_per_call: I80F48 { value: i128::MAX },
        total_xp_minted: I80F48 { value: 0 },
        is_active: true,
        created_at: now,
    };
    (config, role)
}

/// Applies the present fields of `changes`; only the authority may.
pub fn update_config(config: &mut Config, signer: AccountKey, changes: ConfigUpdate) -> (r: Result<ConfigUpdated, AcademyError>)
    ensures
        signer != old(config).authority ==> r == Err::<ConfigUpdated, AcademyError>(AcademyError::Unauthorized)
            && *final(config) == *old(config),
        signer == old(config).authority ==> {
            &&& r is Ok
            &&& r->Ok_0.authority == old(config).authority
            &&& final(config).authority == old(config).authority
            &&& final(config).xp_mint == old(config).xp_mint
            &&& final(config).backend_signer == match changes.new_backend_signer {
                Some(k) => k,
                None => old(config).backend_signer,
            }
            &&& final(config).daily_xp_cap == match changes.new_daily_xp_cap {
                Some(c) => c,
                None => old(config).daily_xp_cap,
            }
        },
{
    if signer != config.authority {
        return Err(AcademyError::Unauthorized);
    }
    if let Some(k) = changes.new_backend_signer {
        config.backend_signer = k;
    }
    if let Some(c) = changes.new_daily_xp_cap {
        config.daily_xp_cap = c;
    }
    Ok(ConfigUpdated { authority: config.authority })
}

} // verus!
