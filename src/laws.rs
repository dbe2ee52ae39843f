//! Properties that hold across several transitions, proved from the
//! contracts of the transitions themselves.

use vstd::prelude::*;
use crate::achievement::{award_check, has_receipt, receipt_matches, AwardAccounts};
use crate::amount::I80F48;
use crate::error::AcademyError;
use crate::key::{AccountKey, TokenAccountRef};
use crate::learner::{credited, day_index};
use crate::minter::{after_reward, reward_check};
use crate::progress::{base_xp, complete_lesson_error, finalize_error, same_but_lessons};
use crate::state::{AchievementReceipt, AchievementType, Config, Course, Enrollment, LearnerProfile, MinterRole};

verus! {

// ---------------------------------------------------------------- lessons

/// The lessons named by the attempts that succeeded.
pub open spec fn completed_indices(indices: Seq<u8>, succeeded: Seq<bool>) -> Set<int> {
    Set::new(|i: int| exists|k: int| 0 <= k < indices.len() && succeeded[k] && #[trigger] indices[k] == i)
}

/// What one call of `complete_lesson` does to the lesson progress: a
/// success adds its lesson, a failure changes nothing.
pub open spec fn lesson_step(before: Enrollment, after: Enrollment, index: u8, succeeded: bool) -> bool {
    if succeeded {
        after.lesson_flags@ == before.lesson_flags@.insert(index as int)
    } else {
        after.lesson_flags@ == before.lesson_flags@
    }
}

/// Starting from a fresh enrollment, after any sequence of completion
/// attempts a lesson is complete exactly when some successful attempt named
/// it, and no completed lesson ever becomes incomplete again.
pub proof fn lemma_lessons_are_the_completed_ones(trace: Seq<Enrollment>, indices: Seq<u8>, succeeded: Seq<bool>)
    requires
        trace.len() == indices.len() + 1,
        succeeded.len() == indices.len(),
        trace[0].lesson_flags@ == Set::<int>::empty(),
        forall|k: int| 0 <= k < indices.len() ==> #[trigger] lesson_step(trace[k], trace[k + 1], indices[k], succeeded[k]),
    ensures
        forall|k: int| 0 <= k < trace.len() ==>
            #[trigger] trace[k].lesson_flags@ == completed_indices(indices.take(k), succeeded.take(k)),
        forall|j: int, k: int| 0 <= j <= k < trace.len() ==>
            #[trigger] trace[j].lesson_flags@.subset_of(#[trigger] trace[k].lesson_flags@),
    decreases indices.len(),
{
    let n = indices.len();
    if n == 0 {
        assert(trace[0].lesson_flags@ =~= completed_indices(indices.take(0), succeeded.take(0)));
    } else {
        let m = (n - 1) as int;
        lemma_lessons_are_the_completed_ones(trace.take(n as int), indices.take(m), succeeded.take(m));
        assert forall|k: int| 0 <= k < trace.len() implies
            #[trigger] trace[k].lesson_flags@ == completed_indices(indices.take(k), succeeded.take(k)) by {
            if k < n {
                assert(trace.take(n as int)[k] == trace[k]);
                assert(indices.take(m).take(k) =~= indices.take(k));
                assert(succeeded.take(m).take(k) =~= succeeded.take(k));
            } else {
                assert(trace.take(n as int)[m] == trace[m]);
                assert(indices.take(m).take(m) =~= indices.take(m));
                assert(succeeded.take(m).take(m) =~= succeeded.take(m));
                assert(lesson_step(trace[m], trace[m + 1], indices[m], succeeded[m]));
                let before = completed_indices(indices.take(m), succeeded.take(m));
                let after = completed_indices(indices.take(k), succeeded.take(k));
                assert forall|i: int| #[trigger] after.contains(i) == (before.contains(i) || (succeeded[m] && i == indices[m])) by {
                    if after.contains(i) {
                        let w = choose|w: int| 0 <= w < indices.take(k).len() && succeeded.take(k)[w] && #[trigger] indices.take(k)[w] == i;
                        if w < m {
                            assert(indices.take(m)[w] == i);
                            assert(succeeded.take(m)[w]);
                        }
                    }
                    if before.contains(i) {
                        let w = choose|w: int| 0 <= w < indices.take(m).len() && succeeded.take(m)[w] && #[trigger] indices.take(m)[w] == i;
                        assert(indices.take(k)[w] == i);
                        assert(succeeded.take(k)[w]);
                    }
                    if succeeded[m] && i == indices[m] {
                        assert(indices.take(k)[m] == i);
                        assert(succeeded.take(k)[m]);
                    }
                }
                if succeeded[m] {
                    assert(after =~= before.insert(indices[m] as int));
                } else {
                    assert(after =~= before);
                }
            }
        }
        assert forall|j: int, k: int| 0 <= j <= k < trace.len() implies
            #[trigger] trace[j].lesson_flags@.subset_of(#[trigger] trace[k].lesson_flags@) by {
            if k < n {
                assert(trace.take(n as int)[j] == trace[j]);
                assert(trace.take(n as int)[k] == trace[k]);
            } else if j < k {
                assert(trace.take(n as int)[j] == trace[j]);
                assert(trace.take(n as int)[m] == trace[m]);
                assert(lesson_step(trace[m], trace[m + 1], indices[m], succeeded[m]));
            }
        }
    }
}

/// Once a lesson was completed, completing it again fails with
/// `LessonAlreadyCompleted` (and a failed call changes nothing).
pub proof fn lemma_completion_not_repeatable(
    config: Config,
    course: Course,
    enrollment: Enrollment,
    learner: LearnerProfile,
    signer: AccountKey,
    learner_token: TokenAccountRef,
    lesson_index: u8,
    now: i64,
    enrollment_after: Enrollment,
    later: i64,
)
    requires
        complete_lesson_error(config, course, enrollment, learner, signer, learner_token, lesson_index, now) is None,
        enrollment_after.lesson_flags@ == enrollment.lesson_flags@.insert(lesson_index as int),
        same_but_lessons(enrollment_after, enrollment),
    ensures
        ({
            let learner_after = credited(learner, course.xp_per_lesson as u64, config.daily_xp_cap, now)->Ok_0;
            complete_lesson_error(config, course, enrollment_after, learner_after, signer, learner_token, lesson_index, later)
                == Some(AcademyError::LessonAlreadyCompleted)
        }),
{
    assert(enrollment_after.lesson_flags@.contains(lesson_index as int));
}

/// Once an enrollment was finalized, finalizing it again fails with
/// `CourseAlreadyFinalized`: its completion time is set at most once.
pub proof fn lemma_finalize_not_repeatable(
    config: Config,
    course: Course,
    enrollment: Enrollment,
    learner: LearnerProfile,
    signer: AccountKey,
    xp_mint: AccountKey,
    learner_token: TokenAccountRef,
    creator: AccountKey,
    creator_token: TokenAccountRef,
    now: i64,
    later: i64,
)
    requires
        finalize_error(config, course, enrollment, learner, signer, xp_mint, learner_token, creator, creator_token, now)
            is None,
    ensures
        ({
            let bonus = (base_xp(course) / 2) as u64;
            let l = credited(learner, bonus, config.daily_xp_cap, now)->Ok_0;
            let course_after = Course { completion_count: (course.completion_count + 1) as u32, ..course };
            let enrollment_after = Enrollment { completed_at: Some(now), ..enrollment };
            let learner_after = LearnerProfile { courses_completed: (l.courses_completed + 1) as u32, ..l };
            finalize_error(
                config, course_after, enrollment_after, learner_after, signer, xp_mint,
                learner_token, creator, creator_token, later,
            ) == Some(AcademyError::CourseAlreadyFinalized)
        }),
{
}

// ---------------------------------------------------------------- daily cap

/// The XP a learner earned on day `d`, as the profile records it.
pub open spec fn earned_on(l: LearnerProfile, d: int) -> int {
    if day_index(l.last_activity) == d {
        l.xp_earned_today as int
    } else {
        0
    }
}

/// The profile after crediting each `(amount, time)` in turn; a credit that
/// fails leaves the profile as it was.
pub open spec fn credit_run(l: LearnerProfile, credits: Seq<(u64, i64)>, cap: u64) -> LearnerProfile
    decreases credits.len(),
{
    if credits.len() == 0 {
        l
    } else {
        let prev = credit_run(l, credits.drop_last(), cap);
        match credited(prev, credits.last().0, cap, credits.last().1) {
            Ok(next) => next,
            Err(_) => prev,
        }
    }
}

/// The sum of the amounts whose credit succeeded in [`credit_run`].
pub open spec fn credited_sum(l: LearnerProfile, credits: Seq<(u64, i64)>, cap: u64) -> int
    decreases credits.len(),
{
    if credits.len() == 0 {
        0
    } else {
        let prev = credit_run(l, credits.drop_last(), cap);
        credited_sum(l, credits.drop_last(), cap) + match credited(prev, credits.last().0, cap, credits.last().1) {
            Ok(_) => credits.last().0 as int,
            Err(_) => 0,
        }
    }
}

/// A successful credit never leaves the day's total above the cap.
pub proof fn lemma_credit_within_cap(l: LearnerProfile, amount: u64, cap: u64, now: i64)
    ensures
        credited(l, amount, cap, now) is Ok ==> credited(l, amount, cap, now)->Ok_0.xp_earned_today <= cap,
{
}

/// Over any sequence of credits on one day `d`, the XP recorded for that day
/// is what was recorded before plus exactly the amounts that were accepted,
/// and it never exceeds the daily cap.
pub proof fn lemma_same_day_credits_capped(l: LearnerProfile, credits: Seq<(u64, i64)>, cap: u64, d: int)
    requires
        day_index(l.last_activity) <= d,
        earned_on(l, d) <= cap,
        forall|k: int| 0 <= k < credits.len() ==> day_index(#[trigger] credits[k].1) == d,
    ensures
        earned_on(credit_run(l, credits, cap), d) == earned_on(l, d) + credited_sum(l, credits, cap),
        earned_on(credit_run(l, credits, cap), d) <= cap,
        day_index(credit_run(l, credits, cap).last_activity) <= d,
    decreases credits.len(),
{
    if credits.len() > 0 {
        let rest = credits.drop_last();
        assert forall|k: int| 0 <= k < rest.len() implies day_index(#[trigger] rest[k].1) == d by {
            assert(rest[k] == credits[k]);
        }
        lemma_same_day_credits_capped(l, rest, cap, d);
        assert(day_index(credits[credits.len() - 1].1) == d);
    }
}

// ---------------------------------------------------------------- supply

/// An award that passes its checks leaves the supply within the maximum.
pub proof fn lemma_award_within_supply(
    config: Config,
    achievement_type: AchievementType,
    receipts: Seq<AchievementReceipt>,
    role: MinterRole,
    accounts: AwardAccounts,
)
    ensures
        award_check(config, achievement_type, receipts, role, accounts) is None
            ==> achievement_type.current_supply + 1 <= achievement_type.max_supply,
{
}

/// Once an achievement was awarded to a recipient, any further award of it
/// to the same recipient fails with `AlreadyAwarded`, whatever else changed.
pub proof fn lemma_award_at_most_once(
    config: Config,
    achievement_type: AchievementType,
    receipts: Seq<AchievementReceipt>,
    role: MinterRole,
    accounts: AwardAccounts,
    receipt: AchievementReceipt,
)
    requires
        receipt.achievement_id@ == achievement_type.achievement_id@,
        receipt.recipient == accounts.recipient,
    ensures
        award_check(config, achievement_type, receipts.push(receipt), role, accounts)
            == Some(AcademyError::AlreadyAwarded),
{
    let s = receipts.push(receipt);
    assert(receipt_matches(s[receipts.len() as int], achievement_type.achievement_id@, accounts.recipient));
    assert(has_receipt(s, achievement_type.achievement_id@, accounts.recipient));
}

// ---------------------------------------------------------------- minting

/// A reward that passes its checks is positive and within the role's
/// per-call limit.
pub proof fn lemma_reward_within_limit(
    config: Config,
    role: MinterRole,
    minter: AccountKey,
    xp_mint: AccountKey,
    recipient_token: TokenAccountRef,
    amount: I80F48,
)
    ensures
        reward_check(config, role, minter, xp_mint, recipient_token, amount) is None
            ==> 0 < amount@ <= role.max_xp_per_call@,
{
}

/// The role after each amount of `amounts` was requested in turn.
pub open spec fn reward_run(
    config: Config,
    role: MinterRole,
    minter: AccountKey,
    xp_mint: AccountKey,
    recipient_token: TokenAccountRef,
    amounts: Seq<I80F48>,
) -> MinterRole
    decreases amounts.len(),
{
    if amounts.len() == 0 {
        role
    } else {
        let prev = reward_run(config, role, minter, xp_mint, recipient_token, amounts.drop_last());
        if reward_check(config, prev, minter, xp_mint, recipient_token, amounts.last()) is None {
            after_reward(prev, amounts.last())
        } else {
            prev
        }
    }
}

/// The sum of the amounts that were accepted in [`reward_run`].
pub open spec fn rewarded_sum(
    config: Config,
    role: MinterRole,
    minter: AccountKey,
    xp_mint: AccountKey,
    recipient_token: TokenAccountRef,
    amounts: Seq<I80F48>,
) -> int
    decreases amounts.len(),
{
    if amounts.len() == 0 {
        0
    } else {
        let prev = reward_run(config, role, minter, xp_mint, recipient_token, amounts.drop_last());
        rewarded_sum(config, role, minter, xp_mint, recipient_token, amounts.drop_last())
            + if reward_check(config, prev, minter, xp_mint, recipient_token, amounts.last()) is None {
            amounts.last()@
        } else {
            0
        }
    }
}

/// After any sequence of reward requests, what the role has issued is what
/// it had issued before plus exactly the sum of the accepted amounts; its
/// limit is unchanged.
pub proof fn lemma_minted_total_is_sum(
    config: Config,
    role: MinterRole,
    minter: AccountKey,
    xp_mint: AccountKey,
    recipient_token: TokenAccountRef,
    amounts: Seq<I80F48>,
)
    ensures
        reward_run(config, role, minter, xp_mint, recipient_token, amounts).total_xp_minted@
            == role.total_xp_minted@ + rewarded_sum(config, role, minter, xp_mint, recipient_token, amounts),
        reward_run(config, role, minter, xp_mint, recipient_token, amounts).max_xp_per_call
            == role.max_xp_per_call,
    decreases amounts.len(),
{
    if amounts.len() > 0 {
        lemma_minted_total_is_sum(config, role, minter, xp_mint, recipient_token, amounts.drop_last());
    }
}

} // verus!
