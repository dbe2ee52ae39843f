use vstd::prelude::*;
use crate::error::AcademyError;
use crate::events::{ReferralRegisteredEvent, StreakFreezeAwardedEvent};
use crate::key::AccountKey;
use crate::state::{Config, LearnerProfile, MAX_STREAK_FREEZES, SECONDS_PER_DAY};

verus! {

/// The day a timestamp falls on: `floor(t / 86400)`.
pub open spec fn day_index(t: i64) -> int {
    t as int / SECONDS_PER_DAY as int
}

/// The day a timestamp falls on, rounding down for times before the epoch.
pub fn day_of(t: i64) -> (r: i64)
    ensures
        r == day_index(t),
{
    if t >= 0 {
        t / SECONDS_PER_DAY
    } else {
        let back: i64 = -(t + 1);
        let r = -(back / SECONDS_PER_DAY) - 1;
        assert(r == day_index(t)) by (nonlinear_arith)
            requires
                t < 0,
                back == -(t + 1),
                r == -(back / 86400) - 1,
        ;
        r
    }
}

/// What crediting `amount` XP at time `now` makes of a learner's profile.
///
/// When `now` falls on a later day than the last activity, the day's total
/// starts again from zero; it must not then exceed `cap`. When more than one
/// full day was skipped, one streak freeze is spent if there is one, and
/// otherwise the streak starts again from zero; then the streak grows by one
/// and the longest streak follows it. Any overflow is an error.
pub open spec fn credited(l: LearnerProfile, amount: u64, cap: u64, now: i64) -> Result<LearnerProfile, AcademyError> {
    let today = day_index(now);
    let last_day = day_index(l.last_activity);
    let earned: int = if today > last_day { 0 } else { l.xp_earned_today as int };
    let daily = earned + amount;
    let missed = today > last_day + 1;
    let streak_before: int = if missed && l.streak_freezes == 0 { 0 } else { l.current_streak as int };
    let freezes: int = if missed && l.streak_freezes > 0 { l.streak_freezes - 1 } else { l.streak_freezes as int };
    let streak = streak_before + 1;
    if daily > u64::MAX {
        Err(AcademyError::Overflow)
    } else if daily > cap {
        Err(AcademyError::DailyXpLimitExceeded)
    } else if l.total_xp + amount > u64::MAX || l.season_xp + amount > u64::MAX || streak > u32::MAX {
        Err(AcademyError::Overflow)
    } else {
        Ok(LearnerProfile {
            total_xp: (l.total_xp + amount) as u64,
            season_xp: (l.season_xp + amount) as u64,
            xp_earned_today: daily as u64,
            last_activity: now,
            current_streak: streak as u32,
            longest_streak: if streak > l.longest_streak { streak as u32 } else { l.longest_streak },
            streak_freezes: freezes as u8,
            ..l
        })
    }
}

/// A fresh profile for `user`, with nothing earned.
pub fn init_learner(user: AccountKey, now: i64) -> (r: LearnerProfile)
    ensures
        r.user == user,
        r.total_xp == 0,
        r.season_xp == 0,
        r.xp_earned_today == 0,
        r.last_activity == now,
        r.current_streak == 0,
        r.longest_streak == 0,
        r.streak_freezes == 0,
        r.courses_completed == 0,
        !r.has_referrer,
        r.referral_count == 0,
        r.wf(),
{
    LearnerProfile {
        user,
        total_xp: 0,
        season_xp: 0,
        xp_earned_today: 0,
        last_activity: now,
        current_streak: 0,
        longest_streak: 0,
        streak_freezes: 0,
        courses_completed: 0,
        has_referrer: false,
        referral_count: 0,
    }
}

/// Credits `amount` XP to a learner at time `now` under the daily cap `cap`,
/// as [`credited`] says; a failure leaves the profile unchanged.
pub fn credit_xp(learner: &mut LearnerProfile, amount: u64, cap: u64, now: i64) -> (r: Result<(), AcademyError>)
    ensures
        match credited(*old(learner), amount, cap, now) {
            Ok(l) => r is Ok && *final(learner) == l,
            Err(e) => r == Err::<(), AcademyError>(e) && *final(learner) == *old(learner),
        },
        old(learner).wf() ==> final(learner).wf(),
{
    let today = day_of(now);
    let last_day = day_of(learner.last_activity);
    let earned: u64 = if today > last_day { 0 } else { learner.xp_earned_today };
    let daily = match earned.checked_add(amount) {
        Some(d) => d,
        None => return Err(AcademyError::Overflow),
    };
    if daily > cap {
        return Err(AcademyError::DailyXpLimitExceeded);
    }
    let total = match learner.total_xp.checked_add(amount) {
        Some(t) => t,
        None => return Err(AcademyError::Overflow),
    };
    let season = match learner.season_xp.checked_add(amount) {
        Some(s) => s,
        None => return Err(AcademyError::Overflow),
    };
    let missed = (today as i128) > (last_day as i128) + 1;
    let mut freezes = learner.streak_freezes;
    let mut streak = learner.current_streak;
    if missed {
        if freezes > 0 {
            freezes = freezes - 1;
        } else {
            streak = 0;
        }
    }
    let streak = match streak.checked_add(1) {
        Some(s) => s,
        None => return Err(AcademyError::Overflow),
    };
    learner.total_xp = total;
    learner.season_xp = season;
    learner.xp_earned_today = daily;
    learner.last_activity = now;
    learner.current_streak = streak;
    if streak > learner.longest_streak {
        learner.longest_streak = streak;
    }
    learner.streak_freezes = freezes;
    Ok(())
}

/// Grants the learner one more streak freeze, up to the maximum; only the
/// backend signer may.
pub fn award_streak_freeze(config: &Config, learner: &mut LearnerProfile, signer: AccountKey) -> (r: Result<StreakFreezeAwardedEvent, AcademyError>)
    ensures
        signer != config.backend_signer ==> r == Err::<StreakFreezeAwardedEvent, AcademyError>(AcademyError::BackendSignerMismatch)
            && *final(learner) == *old(learner),
        signer == config.backend_signer ==> {
            &&& r is Ok
            &&& *final(learner) == (LearnerProfile {
                streak_freezes: if old(learner).streak_freezes < MAX_STREAK_FREEZES {
                    (old(learner).streak_freezes + 1) as u8
                } else {
                    MAX_STREAK_FREEZES
                },
                ..*old(learner)
            })
            &&& r->Ok_0.user == old(learner).user
            &&& r->Ok_0.freezes_remaining == final(learner).streak_freezes
        },
        old(learner).wf() ==> final(learner).wf(),
{
    if signer != config.backend_signer {
        return Err(AcademyError::BackendSignerMismatch);
    }
    if learner.streak_freezes < MAX_STREAK_FREEZES {
        learner.streak_freezes = learner.streak_freezes + 1;
    } else {
        learner.streak_freezes = MAX_STREAK_FREEZES;
    }
    Ok(StreakFreezeAwardedEvent { user: learner.user, freezes_remaining: learner.streak_freezes })
}

/// Records that `referrer` brought in `referred`; the referred learner signs,
/// and can be referred only once.
pub fn register_referral(referrer: &mut LearnerProfile, referred: &mut LearnerProfile, signer: AccountKey) -> (r: Result<ReferralRegisteredEvent, AcademyError>)
    ensures
        signer != old(referred).user ==> r == Err::<ReferralRegisteredEvent, AcademyError>(AcademyError::Unauthorized),
        signer == old(referred).user && old(referred).has_referrer
            ==> r == Err::<ReferralRegisteredEvent, AcademyError>(AcademyError::AlreadyReferred),
        signer == old(referred).user && !old(referred).has_referrer && old(referrer).referral_count == u32::MAX
            ==> r == Err::<ReferralRegisteredEvent, AcademyError>(AcademyError::Overflow),
        signer == old(referred).user && !old(referred).has_referrer && old(referrer).referral_count < u32::MAX
            ==> r is Ok,
        r is Err ==> *final(referrer) == *old(referrer) && *final(referred) == *old(referred),
        r is Ok ==> {
            &&& *final(referrer) == (LearnerProfile { referral_count: (old(referrer).referral_count + 1) as u32, ..*old(referrer) })
            &&& *final(referred) == (LearnerProfile { has_referrer: true, ..*old(referred) })
            &&& r->Ok_0.referrer == old(referrer).user
            &&& r->Ok_0.referred == old(referred).user
        },
{
    if signer != referred.user {
        return Err(AcademyError::Unauthorized);
    }
    if referred.has_referrer {
        return Err(AcademyError::AlreadyReferred);
    }
    let count = match referrer.referral_count.checked_add(1) {
        Some(c) => c,
        None => return Err(AcademyError::Overflow),
    };
    referrer.referral_count = count;
    referred.has_referrer = true;
    Ok(ReferralRegisteredEvent { referrer: referrer.user, referred: referred.user })
}

} // verus!
