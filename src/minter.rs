use vstd::prelude::*;
use crate::amount::I80F48;
use crate::error::AcademyError;
use crate::events::{MinterRevoked, XpRewarded};
use crate::key::{AccountKey, TokenAccountRef};
use crate::state::{byte_len, str_byte_len, Config, MinterRole, RegisterMinterParams, MAX_MINTER_LABEL_LEN};

verus! {

/// Why a minter role cannot be registered from `params`, if it cannot.
pub open spec fn register_minter_check(config: Config, signer: AccountKey, params: RegisterMinterParams) -> Option<AcademyError> {
    if byte_len(params.label@) > MAX_MINTER_LABEL_LEN {
        Some(AcademyError::InvalidMetadata)
    } else if signer != config.authority {
        Some(AcademyError::Unauthorized)
    } else {
        None
    }
}

/// Creates an active minter role with the chosen per-call limit and nothing
/// issued yet; only the authority may.
pub fn register_minter(config: &Config, signer: AccountKey, params: RegisterMinterParams, now: i64) -> (r: Result<MinterRole, AcademyError>)
    ensures
        match register_minter_check(*config, signer, params) {
            Some(e) => r == Err::<MinterRole, AcademyError>(e),
            None => r is Ok && {
                let m = r->Ok_0;
                &&& m.minter == params.minter
                &&& m.label@ == params.label@
                &&& m.max_xp_per_call == params.max_xp_per_call
                &&& m.total_xp_minted@ == 0
                &&& m.is_active
                &&& m.created_at == now
                &&& m.wf()
            },
        },
{
    if str_byte_len(&params.label) > MAX_MINTER_LABEL_LEN {
        return Err(AcademyError::InvalidMetadata);
    }
    if signer != config.authority {
        return Err(AcademyError::Unauthorized);
    }
    Ok(MinterRole {
        minter: params.minter,
        label: params.label,
        max_xp_per_call: params.max_xp_per_call,
        total_xp_minted: I80F48 { value: 0 },
        is_active: true,
        created_at: now,
    })
}

/// Allows the authority to revoke a minter role; the host then deletes it.
pub fn revoke_minter(config: &Config, role: &MinterRole, signer: AccountKey) -> (r: Result<MinterRevoked, AcademyError>)
    ensures
        signer != config.authority ==> r == Err::<MinterRevoked, AcademyError>(AcademyError::Unauthorized),
        signer == config.authority ==> r is Ok && r->Ok_0.minter == role.minter,
{
    if signer != config.authority {
        return Err(AcademyError::Unauthorized);
    }
    Ok(MinterRevoked { minter: role.minter })
}

/// Why the role cannot issue `amount` XP to `recipient_token`, if it cannot:
/// the first of these that holds.
pub open spec fn reward_check(
    config: Config,
    role: MinterRole,
    minter: AccountKey,
    xp_mint: AccountKey,
    recipient_token: TokenAccountRef,
    amount: I80F48,
) -> Option<AcademyError> {
    if role.minter != minter {
        Some(AcademyError::MinterRoleMismatch)
    } else if !role.is_active {
        Some(AcademyError::MinterNotActive)
    } else if amount@ <= 0 {
        Some(AcademyError::InvalidAmount)
    } else if amount@ > role.max_xp_per_call@ {
        Some(AcademyError::MinterAmountExceeded)
    } else if amount@ > u64::MAX {
        Some(AcademyError::InvalidAmount)
    } else if xp_mint != config.xp_mint || recipient_token.mint != xp_mint {
        Some(AcademyError::MintMismatch)
    } else if role.total_xp_minted@ + amount@ > i128::MAX {
        Some(AcademyError::Overflow)
    } else {
        None
    }
}

/// The role after it issued `amount`.
pub open spec fn after_reward(role: MinterRole, amount: I80F48) -> MinterRole {
    MinterRole { total_xp_minted: I80F48 { value: (role.total_xp_minted@ + amount@) as i128 }, ..role }
}

/// Issues `amount` XP through the role held by `minter`: the role must be
/// active and the amount positive and within the role's per-call limit. The
/// amount is added, checked, to what the role has issued.
pub fn reward_xp(
    config: &Config,
    role: &mut MinterRole,
    minter: AccountKey,
    xp_mint: AccountKey,
    recipient_token: TokenAccountRef,
    amount: I80F48,
    reason: String,
) -> (r: Result<XpRewarded, AcademyError>)
    ensures
        match reward_check(*config, *old(role), minter, xp_mint, recipient_token, amount) {
            Some(e) => r == Err::<XpRewarded, AcademyError>(e) && *final(role) == *old(role),
            None => {
                &&& r is Ok
                &&& *final(role) == after_reward(*old(role), amount)
                &&& r->Ok_0.recipient == recipient_token.owner
                &&& r->Ok_0.amount == amount@
                &&& r->Ok_0.reason@ == reason@
            },
        },
        old(role).wf() ==> final(role).wf(),
{
    if role.minter != minter {
        return Err(AcademyError::MinterRoleMismatch);
    }
    if !role.is_active {
        return Err(AcademyError::MinterNotActive);
    }
    if amount.value <= 0 {
        return Err(AcademyError::InvalidAmount);
    }
    if amount.value > role.max_xp_per_call.value {
        return Err(AcademyError::MinterAmountExceeded);
    }
    let amount_u64 = amount.as_u64()?;
    if xp_mint != config.xp_mint || recipient_token.mint != xp_mint {
        return Err(AcademyError::MintMismatch);
    }
    let total = role.total_xp_minted.checked_add(amount)?;
    role.total_xp_minted = total;
    Ok(XpRewarded { recipient: recipient_token.owner, amount: amount_u64, reason })
}

} // verus!
