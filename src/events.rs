use vstd::prelude::*;
use crate::key::AccountKey;

verus! {

/// What a transition reports for outside indexers, and what the host needs
/// to carry out its token transfers.
#[derive(Clone, Debug)]
pub struct Enrolled {
    pub learner: AccountKey,
    pub course_id: String,
}

#[derive(Clone, Debug)]
pub struct EnrollmentClosed {
    pub learner: AccountKey,
    pub course_id: String,
}

/// `xp_amount` is to be issued to the learner's token account.
#[derive(Clone, Debug)]
pub struct LessonCompletedEvent {
    pub learner: AccountKey,
    pub course_id: String,
    pub lesson_index: u8,
    pub xp_amount: u64,
}

/// `bonus_xp` is to be issued to the learner, and `creator_xp`, when it is
/// not zero, to the course's creator.
#[derive(Clone, Debug)]
pub struct CourseFinalized {
    pub learner: AccountKey,
    pub course_id: String,
    pub base_xp: u64,
    pub bonus_xp: u64,
    pub creator: AccountKey,
    pub creator_xp: u64,
}

#[derive(Clone, Debug)]
pub struct CourseUpdated {
    pub course_id: String,
}

#[derive(Clone, Debug)]
pub struct CredentialIssuedEvent {
    pub learner: AccountKey,
    pub course_id: String,
    pub asset: AccountKey,
}

#[derive(Clone, Copy, Debug)]
pub struct CredentialUpgraded {
    pub learner: AccountKey,
    pub asset: AccountKey,
}

#[derive(Clone, Copy, Debug)]
pub struct ConfigUpdated {
    pub authority: AccountKey,
}

#[derive(Clone, Copy, Debug)]
pub struct MinterRevoked {
    pub minter: AccountKey,
}

/// `amount` is to be issued to the recipient's token account.
#[derive(Clone, Debug)]
pub struct XpRewarded {
    pub recipient: AccountKey,
    pub amount: u64,
    pub reason: String,
}

#[derive(Clone, Debug)]
pub struct AchievementTypeDeactivated {
    pub achievement_id: String,
}

/// `xp_reward` is to be issued to the recipient's token account.
#[derive(Clone, Debug)]
pub struct AchievementAwarded {
    pub achievement_id: String,
    pub recipient: AccountKey,
    pub asset: AccountKey,
    pub xp_reward: u32,
}

#[derive(Clone, Copy, Debug)]
pub struct StreakFreezeAwardedEvent {
    pub user: AccountKey,
    pub freezes_remaining: u8,
}

#[derive(Clone, Copy, Debug)]
pub struct ReferralRegisteredEvent {
    pub referrer: AccountKey,
    pub referred: AccountKey,
}

} // verus!
