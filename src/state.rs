use vstd::prelude::*;
use crate::amount::I80F48;
use crate::bitset::BitSet;
use crate::error::AcademyError;
use crate::key::AccountKey;

verus! {

pub const MAX_COURSE_ID_LEN: usize = 64;
pub const MAX_MINTER_LABEL_LEN: usize = 32;
pub const MAX_ACHIEVEMENT_ID_LEN: usize = 64;
pub const MAX_ACHIEVEMENT_NAME_LEN: usize = 64;
pub const MAX_METADATA_URI_LEN: usize = 200;
/// The most lessons a course can have: one slot of the progress set each.
pub const MAX_LESSONS: u32 = 256;
pub const SECONDS_PER_DAY: i64 = 86400;
/// How long an unfinished enrollment must stand before it can be closed.
pub const INCOMPLETE_CLOSE_COOLDOWN_SECS: i64 = 86400;
/// The most streak freezes a learner can hold.
pub const MAX_STREAK_FREEZES: u8 = 3;

/// The length in bytes of the UTF-8 encoding of `s` (a string held in
/// memory is never longer than `usize::MAX` bytes).
pub open spec fn byte_len(s: Seq<char>) -> usize {
    vstd::utf8::encode_utf8(s).len() as usize
}

/// The byte length of a string, as stored on the ledger.
pub fn str_byte_len(s: &String) -> (r: usize)
    ensures
        r == byte_len(s@),
{
    let st: &str = s.as_str();
    st.len()
}

/// The ledger's single global configuration.
#[derive(Clone, Copy, Debug, PartialEq, Eq, Structural)]
pub struct Config {
    /// May create and update courses, minters and achievement types.
    pub authority: AccountKey,
    /// Attests lesson progress and finalizes courses.
    pub backend_signer: AccountKey,
    /// The mint that XP is issued in.
    pub xp_mint: AccountKey,
    /// The most XP a learner can earn on one day.
    pub daily_xp_cap: u64,
}

/// A course of the catalog.
#[derive(Clone, Debug)]
pub struct Course {
    pub course_id: String,
    pub creator: AccountKey,
    pub content_tx_id: [u8; 32],
    pub lesson_count: u8,
    pub difficulty: u8,
    pub xp_per_lesson: u32,
    pub track_id: u32,
    pub track_level: u32,
    /// The address of the course that must be finalized before enrolling.
    pub prerequisite: Option<AccountKey>,
    pub creator_reward_xp: u32,
    pub min_completions_for_reward: u32,
    /// How many learners finalized the course; never decreases.
    pub completion_count: u32,
    pub is_active: bool,
    pub created_at: i64,
}

impl Course {
    /// What creation establishes and no transition breaks.
    pub open spec fn wf(&self) -> bool {
        &&& self.lesson_count > 0
        &&& self.course_id@.len() > 0
        &&& byte_len(self.course_id@) <= MAX_COURSE_ID_LEN
    }
}

/// One learner's progress in one course.
#[derive(Clone, Debug)]
pub struct Enrollment {
    pub course_id: String,
    pub learner: AccountKey,
    /// Slot `i` is set once lesson `i` is completed.
    pub lesson_flags: BitSet,
    pub enrolled_at: i64,
    /// When the course was finalized; set at most once.
    pub completed_at: Option<i64>,
    pub credential_asset: Option<AccountKey>,
}

impl Enrollment {
    /// Whether lesson `lesson_index` is completed.
    pub fn is_lesson_complete(&self, lesson_index: u8) -> (r: bool)
        ensures
            r == self.lesson_flags@.contains(lesson_index as int),
    {
        self.lesson_flags.is_set(lesson_index as u32)
    }

    /// Marks lesson `lesson_index` completed. Every `u8` index is within the
    /// capacity, so this always succeeds.
    pub fn set_lesson_complete(&mut self, lesson_index: u8) -> (r: Result<(), AcademyError>)
        ensures
            r is Ok,
            final(self).lesson_flags@ == old(self).lesson_flags@.insert(lesson_index as int),
            final(self).course_id == old(self).course_id,
            final(self).learner == old(self).learner,
            final(self).enrolled_at == old(self).enrolled_at,
            final(self).completed_at == old(self).completed_at,
            final(self).credential_asset == old(self).credential_asset,
    {
        self.lesson_flags.set(lesson_index as u32)
    }

    /// How many lessons are completed.
    pub fn completed_lesson_count(&self) -> (r: u32)
        ensures
            r == self.lesson_flags.count_below(MAX_LESSONS as nat),
    {
        self.lesson_flags.count_set()
    }

    /// Whether every lesson `0..lesson_count` is completed.
    pub fn all_lessons_complete(&self, lesson_count: u8) -> (r: bool)
        ensures
            r == all_complete(self.lesson_flags, lesson_count),
    {
        self.lesson_flags.is_full(lesson_count as u32)
    }
}

/// Whether every lesson `0..lesson_count` is set in `flags`.
pub open spec fn all_complete(flags: BitSet, lesson_count: u8) -> bool {
    forall|i: int| 0 <= i < lesson_count ==> #[trigger] flags@.contains(i)
}

/// One learner's XP, streak and referral ledger.
#[derive(Clone, Copy, Debug, PartialEq, Eq, Structural)]
pub struct LearnerProfile {
    pub user: AccountKey,
    pub total_xp: u64,
    pub season_xp: u64,
    /// XP earned on the day of `last_activity`.
    pub xp_earned_today: u64,
    pub last_activity: i64,
    pub current_streak: u32,
    pub longest_streak: u32,
    pub streak_freezes: u8,
    pub courses_completed: u32,
    pub has_referrer: bool,
    pub referral_count: u32,
}

impl LearnerProfile {
    /// What creation establishes and no transition breaks.
    pub open spec fn wf(&self) -> bool {
        &&& self.streak_freezes <= MAX_STREAK_FREEZES
        &&& self.current_streak <= self.longest_streak
    }
}

/// A capability to issue XP, at most `max_xp_per_call` at a time.
#[derive(Clone, Debug)]
pub struct MinterRole {
    pub minter: AccountKey,
    pub label: String,
    pub max_xp_per_call: I80F48,
    /// The sum of every amount this role issued; never decreases.
    pub total_xp_minted: I80F48,
    pub is_active: bool,
    pub created_at: i64,
}

impl MinterRole {
    pub open spec fn wf(&self) -> bool {
        self.total_xp_minted@ >= 0
    }
}

/// A kind of achievement, awarded at most `max_supply` times.
#[derive(Clone, Debug)]
pub struct AchievementType {
    pub achievement_id: String,
    pub name: String,
    pub metadata_uri: String,
    pub collection: AccountKey,
    pub current_supply: u32,
    pub max_supply: u32,
    pub xp_reward: u32,
    pub is_active: bool,
    pub created_at: i64,
}

impl AchievementType {
    pub open spec fn wf(&self) -> bool {
        0 < self.max_supply && self.current_supply <= self.max_supply
    }
}

/// The record that an achievement was awarded to a recipient.
#[derive(Clone, Debug)]
pub struct AchievementReceipt {
    pub achievement_id: String,
    pub recipient: AccountKey,
    pub asset: AccountKey,
    pub awarded_at: i64,
}

/// Changes to the configuration; absent fields stay as they are.
#[derive(Clone, Copy, Debug, PartialEq, Eq, Structural)]
pub struct ConfigUpdate {
    pub new_backend_signer: Option<AccountKey>,
    pub new_daily_xp_cap: Option<u64>,
}

#[derive(Clone, Debug)]
pub struct CreateCourseParams {
    pub course_id: String,
    pub creator: AccountKey,
    pub content_tx_id: [u8; 32],
    pub lesson_count: u8,
    pub difficulty: u8,
    pub xp_per_lesson: u32,
    pub track_id: u32,
    pub track_level: u32,
    pub prerequisite: Option<AccountKey>,
    pub creator_reward_xp: u32,
    pub min_completions_for_reward: u32,
}

/// Changes to a course; absent fields stay as they are.
#[derive(Clone, Copy, Debug)]
pub struct CourseUpdate {
    pub new_content_tx_id: Option<[u8; 32]>,
    pub new_is_active: Option<bool>,
    pub new_xp_per_lesson: Option<u32>,
    pub new_creator_reward_xp: Option<u32>,
    pub new_min_completions_for_reward: Option<u32>,
}

#[derive(Clone, Debug)]
pub struct RegisterMinterParams {
    pub minter: AccountKey,
    pub label: String,
    pub max_xp_per_call: I80F48,
}

#[derive(Clone, Debug)]
pub struct CreateAchievementTypeParams {
    pub achievement_id: String,
    pub name: String,
    pub metadata_uri: String,
    pub max_supply: u32,
    pub xp_reward: u32,
}

} // verus!
