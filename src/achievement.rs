use vstd::prelude::*;
use crate::amount::I80F48;
use crate::error::AcademyError;
use crate::events::{AchievementAwarded, AchievementTypeDeactivated};
use crate::key::{AccountKey, TokenAccountRef};
use crate::state::{
    byte_len, str_byte_len, AchievementReceipt, AchievementType, Config, CreateAchievementTypeParams, MinterRole,
    MAX_ACHIEVEMENT_ID_LEN, MAX_ACHIEVEMENT_NAME_LEN, MAX_METADATA_URI_LEN,
};

verus! {

/// Whether `receipts` holds one for `achievement_id` and `recipient`.
pub open spec fn has_receipt(receipts: Seq<AchievementReceipt>, achievement_id: Seq<char>, recipient: AccountKey) -> bool {
    exists|i: int| 0 <= i < receipts.len() && #[trigger] receipt_matches(receipts[i], achievement_id, recipient)
}

pub open spec fn receipt_matches(r: AchievementReceipt, achievement_id: Seq<char>, recipient: AccountKey) -> bool {
    r.achievement_id@ == achievement_id && r.recipient == recipient
}

/// Whether no two receipts share an achievement and a recipient.
pub open spec fn keys_unique(receipts: Seq<AchievementReceipt>) -> bool {
    forall|i: int, j: int|
        0 <= i < receipts.len() && 0 <= j < receipts.len() && i != j
            && #[trigger] receipt_matches(receipts[i], receipts[j].achievement_id@, receipts[j].recipient)
            ==> false
}

/// Every receipt issued, at most one per achievement and recipient.
pub struct ReceiptBook {
    receipts: Vec<AchievementReceipt>,
}

impl View for ReceiptBook {
    type V = Seq<AchievementReceipt>;

    closed spec fn view(&self) -> Seq<AchievementReceipt> {
        self.receipts@
    }
}

impl ReceiptBook {
    pub open spec fn wf(&self) -> bool {
        keys_unique(self@)
    }

    /// A book with no receipt.
    pub fn new() -> (r: ReceiptBook)
        ensures
            r@ == Seq::<AchievementReceipt>::empty(),
            r.wf(),
    {
        ReceiptBook { receipts: Vec::new() }
    }

    /// How many receipts were issued.
    pub fn len(&self) -> (r: usize)
        ensures
            r == self@.len(),
    {
        self.receipts.len()
    }

    /// Whether a receipt for `achievement_id` and `recipient` exists.
    pub fn contains(&self, achievement_id: &String, recipient: AccountKey) -> (r: bool)
        ensures
            r == has_receipt(self@, achievement_id@, recipient),
    {
        let mut i: usize = 0;
        while i < self.receipts.len()
            invariant
                i <= self.receipts@.len(),
                forall|j: int| 0 <= j < i ==> !#[trigger] receipt_matches(self.receipts@[j], achievement_id@, recipient),
            decreases self.receipts@.len() - i,
        {
            let rec = &self.receipts[i];
            if rec.recipient == recipient && rec.achievement_id == *achievement_id {
                assert(receipt_matches(self.receipts@[i as int], achievement_id@, recipient));
                return true;
            }
            i = i + 1;
        }
        false
    }

    fn insert(&mut self, receipt: AchievementReceipt)
        requires
            old(self).wf(),
            !has_receipt(old(self)@, receipt.achievement_id@, receipt.recipient),
        ensures
            final(self)@ == old(self)@.push(receipt),
            final(self).wf(),
    {
        self.receipts.push(receipt);
        assert forall|i: int, j: int|
            0 <= i < self@.len() && 0 <= j < self@.len() && i != j
                && #[trigger] receipt_matches(self@[i], self@[j].achievement_id@, self@[j].recipient)
            implies false by {
            let n = self@.len() - 1;
            if i == n {
                assert(receipt_matches(old(self)@[j], receipt.achievement_id@, receipt.recipient));
            } else if j == n {
                assert(receipt_matches(old(self)@[i], receipt.achievement_id@, receipt.recipient));
            } else {
                assert(receipt_matches(old(self)@[i], old(self)@[j].achievement_id@, old(self)@[j].recipient));
            }
        }
    }
}

/// Why an achievement type cannot be created from `params`, if it cannot.
pub open spec fn create_achievement_type_check(config: Config, signer: AccountKey, params: CreateAchievementTypeParams) -> Option<AcademyError> {
    if params.achievement_id@.len() == 0 || byte_len(params.achievement_id@) > MAX_ACHIEVEMENT_ID_LEN {
        Some(AcademyError::InvalidAchievementId)
    } else if byte_len(params.name@) > MAX_ACHIEVEMENT_NAME_LEN || byte_len(params.metadata_uri@) > MAX_METADATA_URI_LEN {
        Some(AcademyError::InvalidMetadata)
    } else if params.max_supply == 0 {
        Some(AcademyError::InvalidAmount)
    } else if signer != config.authority {
        Some(AcademyError::Unauthorized)
    } else {
        None
    }
}

/// Creates an active achievement type with nothing awarded yet; only the
/// authority may.
pub fn create_achievement_type(
    config: &Config,
    signer: AccountKey,
    collection: AccountKey,
    params: CreateAchievementTypeParams,
    now: i64,
) -> (r: Result<AchievementType, AcademyError>)
    ensures
        match create_achievement_type_check(*config, signer, params) {
            Some(e) => r == Err::<AchievementType, AcademyError>(e),
            None => r is Ok && {
                let a = r->Ok_0;
                &&& a.achievement_id@ == params.achievement_id@
                &&& a.name@ == params.name@
                &&& a.metadata_uri@ == params.metadata_uri@
                &&& a.collection == collection
                &&& a.current_supply == 0
                &&& a.max_supply == params.max_supply
                &&& a.xp_reward == params.xp_reward
                &&& a.is_active
                &&& a.created_at == now
                &&& a.wf()
            },
        },
{
    if params.achievement_id.as_str().is_empty() || str_byte_len(&params.achievement_id) > MAX_ACHIEVEMENT_ID_LEN {
        return Err(AcademyError::InvalidAchievementId);
    }
    if str_byte_len(&params.name) > MAX_ACHIEVEMENT_NAME_LEN || str_byte_len(&params.metadata_uri) > MAX_METADATA_URI_LEN {
        return Err(AcademyError::InvalidMetadata);
    }
    if params.max_supply == 0 {
        return Err(AcademyError::InvalidAmount);
    }
    if signer != config.authority {
        return Err(AcademyError::Unauthorized);
    }
    Ok(AchievementType {
        achievement_id: params.achievement_id,
        name: params.name,
        metadata_uri: params.metadata_uri,
        collection,
        current_supply: 0,
        max_supply: params.max_supply,
        xp_reward: params.xp_reward,
        is_active: true,
        created_at: now,
    })
}

/// Stops further awards of an achievement type; only the authority may.
pub fn deactivate_achievement_type(config: &Config, achievement_type: &mut AchievementType, signer: AccountKey) -> (r: Result<AchievementTypeDeactivated, AcademyError>)
    ensures
        signer != config.authority ==> r == Err::<AchievementTypeDeactivated, AcademyError>(AcademyError::Unauthorized)
            && *final(achievement_type) == *old(achievement_type),
        signer == config.authority ==> {
            &&& r is Ok
            &&& *final(achievement_type) == (AchievementType { is_active: false, ..*old(achievement_type) })
            &&& r->Ok_0.achievement_id@ == old(achievement_type).achievement_id@
        },
{
    if signer != config.authority {
        return Err(AcademyError::Unauthorized);
    }
    achievement_type.is_active = false;
    Ok(AchievementTypeDeactivated { achievement_id: achievement_type.achievement_id.clone() })
}

/// The accounts an award touches besides the type, the book and the role.
#[derive(Clone, Copy, Debug)]
pub struct AwardAccounts {
    /// The signer that holds the minter role.
    pub minter: AccountKey,
    pub recipient: AccountKey,
    /// The credential asset minted for the award.
    pub asset: AccountKey,
    pub collection: AccountKey,
    pub xp_mint: AccountKey,
    pub recipient_token: TokenAccountRef,
}

/// Why the achievement cannot be awarded, if it cannot: the first of these
/// that holds.
pub open spec fn award_check(
    config: Config,
    achievement_type: AchievementType,
    receipts: Seq<AchievementReceipt>,
    role: MinterRole,
    accounts: AwardAccounts,
) -> Option<AcademyError> {
    if has_receipt(receipts, achievement_type.achievement_id@, accounts.recipient) {
        Some(AcademyError::AlreadyAwarded)
    } else if role.minter != accounts.minter {
        Some(AcademyError::MinterRoleMismatch)
    } else if !achievement_type.is_active {
        Some(AcademyError::AchievementNotActive)
    } else if achievement_type.current_supply >= achievement_type.max_supply {
        Some(AcademyError::AchievementSupplyExhausted)
    } else if !role.is_active {
        Some(AcademyError::MinterNotActive)
    } else if accounts.collection != achievement_type.collection {
        Some(AcademyError::InvalidMetadata)
    } else if accounts.xp_mint != config.xp_mint {
        Some(AcademyError::MintMismatch)
    } else if accounts.recipient_token.owner != accounts.recipient {
        Some(AcademyError::InvalidTokenAccount)
    } else if accounts.recipient_token.mint != accounts.xp_mint {
        Some(AcademyError::MintMismatch)
    } else if role.total_xp_minted@ + achievement_type.xp_reward > i128::MAX {
        Some(AcademyError::Overflow)
    } else {
        None
    }
}

/// Awards the achievement to `accounts.recipient` through a minter role: at
/// most once per recipient, and never beyond the type's maximum supply. The
/// receipt is recorded, the supply grows by one, and the type's XP reward is
/// added to what the role has issued.
pub fn award_achievement(
    config: &Config,
    achievement_type: &mut AchievementType,
    book: &mut ReceiptBook,
    role: &mut MinterRole,
    accounts: AwardAccounts,
    now: i64,
) -> (r: Result<AchievementAwarded, AcademyError>)
    requires
        old(book).wf(),
    ensures
        final(book).wf(),
        match award_check(*config, *old(achievement_type), old(book)@, *old(role), accounts) {
            Some(e) => {
                &&& r == Err::<AchievementAwarded, AcademyError>(e)
                &&& *final(achievement_type) == *old(achievement_type)
                &&& final(book)@ == old(book)@
                &&& *final(role) == *old(role)
            },
            None => {
                &&& r is Ok
                &&& *final(achievement_type) == (AchievementType {
                    current_supply: (old(achievement_type).current_supply + 1) as u32,
                    ..*old(achievement_type)
                })
                &&& final(book)@.len() == old(book)@.len() + 1
                &&& final(book)@.drop_last() == old(book)@
                &&& final(book)@.last().achievement_id@ == old(achievement_type).achievement_id@
                &&& final(book)@.last().recipient == accounts.recipient
                &&& final(book)@.last().asset == accounts.asset
                &&& final(book)@.last().awarded_at == now
                &&& *final(role) == (MinterRole {
                    total_xp_minted: I80F48 {
                        value: (old(role).total_xp_minted@ + old(achievement_type).xp_reward) as i128,
                    },
                    ..*old(role)
                })
                &&& r->Ok_0.achievement_id@ == old(achievement_type).achievement_id@
                &&& r->Ok_0.recipient == accounts.recipient
                &&& r->Ok_0.asset == accounts.asset
                &&& r->Ok_0.xp_reward == old(achievement_type).xp_reward
            },
        },
        old(achievement_type).wf() ==> final(achievement_type).wf(),
        old(role).wf() ==> final(role).wf(),
{
    if book.contains(&achievement_type.achievement_id, accounts.recipient) {
        return Err(AcademyError::AlreadyAwarded);
    }
    if role.minter != accounts.minter {
        return Err(AcademyError::MinterRoleMismatch);
    }
    if !achievement_type.is_active {
        return Err(AcademyError::AchievementNotActive);
    }
    if achievement_type.current_supply >= achievement_type.max_supply {
        return Err(AcademyError::AchievementSupplyExhausted);
    }
    if !role.is_active {
        return Err(AcademyError::MinterNotActive);
    }
    if accounts.collection != achievement_type.collection {
        return Err(AcademyError::InvalidMetadata);
    }
    if accounts.xp_mint != config.xp_mint {
        return Err(AcademyError::MintMismatch);
    }
    if accounts.recipient_token.owner != accounts.recipient {
        return Err(AcademyError::InvalidTokenAccount);
    }
    if accounts.recipient_token.mint != accounts.xp_mint {
        return Err(AcademyError::MintMismatch);
    }
    let reward = I80F48::from_u64(achievement_type.xp_reward as u64);
    let total = role.total_xp_minted.checked_add(reward)?;
    let receipt = AchievementReceipt {
        achievement_id: achievement_type.achievement_id.clone(),
        recipient: accounts.recipient,
        asset: accounts.asset,
        awarded_at: now,
    };
    book.insert(receipt);
    achievement_type.current_supply = achievement_type.current_supply + 1;
    role.total_xp_minted = total;
    Ok(AchievementAwarded {
        achievement_id: achievement_type.achievement_id.clone(),
        recipient: accounts.recipient,
        asset: accounts.asset,
        xp_reward: achievement_type.xp_reward,
    })
}

} // verus!
