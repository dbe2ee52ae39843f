use academy::achievement::{award_achievement, create_achievement_type, deactivate_achievement_type, AwardAccounts, ReceiptBook};
use academy::amount::I80F48;
use academy::error::AcademyError;
use academy::key::{AccountKey, TokenAccountRef};
use academy::minter::{register_minter, revoke_minter, reward_xp};
use academy::state::{AchievementType, Config, CreateAchievementTypeParams, MinterRole, RegisterMinterParams};

fn key(n: u128) -> AccountKey {
    AccountKey { hi: 5, lo: n }
}

fn authority() -> AccountKey {
    key(1)
}

fn mint() -> AccountKey {
    key(3)
}

fn minter_key() -> AccountKey {
    key(4)
}

fn collection() -> AccountKey {
    key(6)
}

fn config() -> Config {
    Config { authority: authority(), backend_signer: key(2), xp_mint: mint(), daily_xp_cap: 1000 }
}

fn token(owner: AccountKey) -> TokenAccountRef {
    TokenAccountRef { owner, mint: mint() }
}

fn role(max: i128) -> MinterRole {
    let params = RegisterMinterParams { minter: minter_key(), label: "quests".to_string(), max_xp_per_call: I80F48 { value: max } };
    register_minter(&config(), authority(), params, 0).unwrap()
}

fn reward(r: &mut MinterRole, amount: i128) -> Result<u64, AcademyError> {
    reward_xp(&config(), r, minter_key(), mint(), token(key(50)), I80F48 { value: amount }, "quest".to_string()).map(|ev| ev.amount)
}

fn achievement(max_supply: u32) -> AchievementType {
    let params = CreateAchievementTypeParams {
        achievement_id: "first-steps".to_string(),
        name: "First steps".to_string(),
        metadata_uri: "https://example.org/a.json".to_string(),
        max_supply,
        xp_reward: 25,
    };
    create_achievement_type(&config(), authority(), collection(), params, 0).unwrap()
}

fn accounts(recipient: AccountKey) -> AwardAccounts {
    AwardAccounts {
        minter: minter_key(),
        recipient,
        asset: key(900),
        collection: collection(),
        xp_mint: mint(),
        recipient_token: token(recipient),
    }
}

#[test]
fn scenario_minter_per_call_cap() {
    let mut r = role(1000);
    assert_eq!(reward(&mut r, 1001), Err(AcademyError::MinterAmountExceeded));
    assert_eq!(r.total_xp_minted.value, 0);
    assert_eq!(reward(&mut r, 1000), Ok(1000));
    assert_eq!(r.total_xp_minted.value, 1000);
}

#[test]
fn minted_total_is_sum_of_successes() {
    let mut r = role(500);
    let requests = [100i128, 0, 600, 250, -3, 500, 1];
    let mut expected = 0i128;
    for a in requests {
        if reward(&mut r, a).is_ok() {
            expected += a;
        }
    }
    assert_eq!(expected, 851);
    assert_eq!(r.total_xp_minted.value, 851);
}

#[test]
fn reward_rejections() {
    let mut r = role(1000);
    assert_eq!(reward(&mut r, 0), Err(AcademyError::InvalidAmount));
    assert_eq!(reward(&mut r, -1), Err(AcademyError::InvalidAmount));
    let other = reward_xp(&config(), &mut r, key(77), mint(), token(key(50)), I80F48 { value: 5 }, String::new());
    assert_eq!(other.unwrap_err(), AcademyError::MinterRoleMismatch);
    let wrong_mint = reward_xp(&config(), &mut r, minter_key(), key(78), token(key(50)), I80F48 { value: 5 }, String::new());
    assert_eq!(wrong_mint.unwrap_err(), AcademyError::MintMismatch);
    r.is_active = false;
    assert_eq!(reward(&mut r, 5), Err(AcademyError::MinterNotActive));
    assert_eq!(r.total_xp_minted.value, 0);
}

#[test]
fn reward_overflow_of_total() {
    let mut r = role(i128::MAX);
    r.total_xp_minted = I80F48 { value: i128::MAX - 10 };
    assert_eq!(reward(&mut r, 11), Err(AcademyError::Overflow));
    assert_eq!(r.total_xp_minted.value, i128::MAX - 10);
    assert_eq!(reward(&mut r, 10), Ok(10));
    assert_eq!(r.total_xp_minted.value, i128::MAX);
}

#[test]
fn reward_beyond_token_range_is_invalid() {
    let mut r = role(i128::MAX);
    assert_eq!(reward(&mut r, u64::MAX as i128 + 1), Err(AcademyError::InvalidAmount));
}

#[test]
fn register_and_revoke_minter() {
    let params = RegisterMinterParams { minter: minter_key(), label: "x".repeat(33), max_xp_per_call: I80F48 { value: 1 } };
    assert_eq!(register_minter(&config(), authority(), params, 0).unwrap_err(), AcademyError::InvalidMetadata);
    let params = RegisterMinterParams { minter: minter_key(), label: "x".repeat(32), max_xp_per_call: I80F48 { value: 1 } };
    assert_eq!(register_minter(&config(), minter_key(), params.clone(), 0).unwrap_err(), AcademyError::Unauthorized);
    let r = register_minter(&config(), authority(), params, 3).unwrap();
    assert!(r.is_active);
    assert_eq!(r.created_at, 3);
    assert_eq!(revoke_minter(&config(), &r, minter_key()).unwrap_err(), AcademyError::Unauthorized);
    assert_eq!(revoke_minter(&config(), &r, authority()).unwrap().minter, minter_key());
}

#[test]
fn scenario_supply_exhausted() {
    let mut at = achievement(1);
    let mut book = ReceiptBook::new();
    let mut r = role(1000);
    let ev = award_achievement(&config(), &mut at, &mut book, &mut r, accounts(key(40)), 1).unwrap();
    assert_eq!(ev.xp_reward, 25);
    assert_eq!(at.current_supply, 1);
    let second = award_achievement(&config(), &mut at, &mut book, &mut r, accounts(key(41)), 2);
    assert_eq!(second.unwrap_err(), AcademyError::AchievementSupplyExhausted);
    assert_eq!(at.current_supply, 1);
    assert_eq!(book.len(), 1);
    assert_eq!(r.total_xp_minted.value, 25);
}

#[test]
fn award_once_per_recipient() {
    let mut at = achievement(10);
    let mut book = ReceiptBook::new();
    let mut r = role(1000);
    award_achievement(&config(), &mut at, &mut book, &mut r, accounts(key(40)), 1).unwrap();
    let again = award_achievement(&config(), &mut at, &mut book, &mut r, accounts(key(40)), 2);
    assert_eq!(again.unwrap_err(), AcademyError::AlreadyAwarded);
    assert_eq!(at.current_supply, 1);
    assert_eq!(book.len(), 1);
    assert!(book.contains(&"first-steps".to_string(), key(40)));
    assert!(!book.contains(&"first-steps".to_string(), key(41)));
    award_achievement(&config(), &mut at, &mut book, &mut r, accounts(key(41)), 3).unwrap();
    assert_eq!(at.current_supply, 2);
    assert_eq!(r.total_xp_minted.value, 50);
    assert!(at.current_supply <= at.max_supply);
}

#[test]
fn award_rejections() {
    let mut at = achievement(5);
    let mut book = ReceiptBook::new();
    let mut r = role(1000);
    let mut bad = accounts(key(40));
    bad.collection = key(66);
    assert_eq!(award_achievement(&config(), &mut at, &mut book, &mut r, bad, 1).unwrap_err(), AcademyError::InvalidMetadata);
    let mut bad = accounts(key(40));
    bad.recipient_token = token(key(41));
    assert_eq!(award_achievement(&config(), &mut at, &mut book, &mut r, bad, 1).unwrap_err(), AcademyError::InvalidTokenAccount);
    let mut bad = accounts(key(40));
    bad.minter = key(42);
    assert_eq!(award_achievement(&config(), &mut at, &mut book, &mut r, bad, 1).unwrap_err(), AcademyError::MinterRoleMismatch);
    assert_eq!(deactivate_achievement_type(&config(), &mut at, key(9)).unwrap_err(), AcademyError::Unauthorized);
    deactivate_achievement_type(&config(), &mut at, authority()).unwrap();
    assert!(!at.is_active);
    assert_eq!(award_achievement(&config(), &mut at, &mut book, &mut r, accounts(key(40)), 1).unwrap_err(), AcademyError::AchievementNotActive);
    assert_eq!(book.len(), 0);
    assert_eq!(at.current_supply, 0);
}

#[test]
fn create_achievement_type_validation() {
    let base = CreateAchievementTypeParams {
        achievement_id: "a".to_string(),
        name: "n".to_string(),
        metadata_uri: "u".to_string(),
        max_supply: 1,
        xp_reward: 0,
    };
    let mut p = base.clone();
    p.achievement_id = String::new();
    assert_eq!(create_achievement_type(&config(), authority(), collection(), p, 0).unwrap_err(), AcademyError::InvalidAchievementId);
    let mut p = base.clone();
    p.name = "n".repeat(65);
    assert_eq!(create_achievement_type(&config(), authority(), collection(), p, 0).unwrap_err(), AcademyError::InvalidMetadata);
    let mut p = base.clone();
    p.metadata_uri = "u".repeat(201);
    assert_eq!(create_achievement_type(&config(), authority(), collection(), p, 0).unwrap_err(), AcademyError::InvalidMetadata);
    let mut p = base.clone();
    p.max_supply = 0;
    assert_eq!(create_achievement_type(&config(), authority(), collection(), p, 0).unwrap_err(), AcademyError::InvalidAmount);
    assert_eq!(create_achievement_type(&config(), key(9), collection(), base.clone(), 0).unwrap_err(), AcademyError::Unauthorized);
    let at = create_achievement_type(&config(), authority(), collection(), base, 5).unwrap();
    assert_eq!(at.current_supply, 0);
    assert!(at.is_active);
    assert_eq!(at.collection, collection());
}
