use vstd::prelude::*;
use crate::bitset::BitSet;
use crate::error::AcademyError;
use crate::events::{CourseFinalized, CredentialIssuedEvent, CredentialUpgraded, Enrolled, EnrollmentClosed, LessonCompletedEvent};
use crate::key::{AccountKey, TokenAccountRef};
use crate::learner::{credit_xp, credited};
use crate::state::{all_complete, Config, Course, Enrollment, LearnerProfile, INCOMPLETE_CLOSE_COOLDOWN_SECS};

verus! {

/// The prerequisite course and the learner's enrollment in it, supplied to
/// [`enroll`] when the course has a prerequisite.
#[derive(Clone, Debug)]
pub struct PrerequisiteAccounts {
    /// The address the prerequisite course was supplied under.
    pub course_key: AccountKey,
    pub course: Course,
    pub enrollment: Enrollment,
}

/// Whether two enrollments agree on everything but the lesson progress.
pub open spec fn same_but_lessons(a: Enrollment, b: Enrollment) -> bool {
    &&& a.course_id == b.course_id
    &&& a.learner == b.learner
    &&& a.enrolled_at == b.enrolled_at
    &&& a.completed_at == b.completed_at
    &&& a.credential_asset == b.credential_asset
}

/// Why `learner` cannot enroll in `course` under the id `course_id`, if they
/// cannot: the first of these that holds.
pub open spec fn enroll_check(
    course: Course,
    course_id: Seq<char>,
    learner: AccountKey,
    prerequisite: Option<PrerequisiteAccounts>,
) -> Option<AcademyError> {
    if !course.is_active {
        Some(AcademyError::CourseNotActive)
    } else if course.course_id@ != course_id {
        Some(AcademyError::CourseMismatch)
    } else {
        match course.prerequisite {
            None => None,
            Some(required) => match prerequisite {
                None => Some(AcademyError::MissingPrerequisiteEnrollment),
                Some(p) => if p.course_key != required
                    || p.enrollment.course_id@ != p.course.course_id@
                    || p.enrollment.learner != learner
                    || p.enrollment.completed_at is None {
                    Some(AcademyError::PrerequisiteNotMet)
                } else {
                    None
                },
            },
        }
    }
}

/// Enrolls `learner` in an active course. When the course names a
/// prerequisite, the learner's finalized enrollment in exactly that course
/// must be supplied.
pub fn enroll(
    course: &Course,
    course_id: String,
    learner: AccountKey,
    now: i64,
    prerequisite: Option<&PrerequisiteAccounts>,
) -> (r: Result<(Enrollment, Enrolled), AcademyError>)
    ensures
        match enroll_check(*course, course_id@, learner, match prerequisite { Some(p) => Some(*p), None => None }) {
            Some(e) => r == Err::<(Enrollment, Enrolled), AcademyError>(e),
            None => r is Ok && {
                let (en, ev) = r->Ok_0;
                &&& en.course_id@ == course_id@
                &&& en.learner == learner
                &&& en.lesson_flags@ == Set::<int>::empty()
                &&& en.enrolled_at == now
                &&& en.completed_at is None
                &&& en.credential_asset is None
                &&& ev.learner == learner
                &&& ev.course_id@ == course_id@
            },
        },
{
    if !course.is_active {
        return Err(AcademyError::CourseNotActive);
    }
    if course.course_id != course_id {
        return Err(AcademyError::CourseMismatch);
    }
    if let Some(required) = course.prerequisite {
        match prerequisite {
            None => {
                return Err(AcademyError::MissingPrerequisiteEnrollment);
            },
            Some(p) => {
                if p.course_key != required || p.enrollment.course_id != p.course.course_id
                    || p.enrollment.learner != learner || p.enrollment.completed_at.is_none() {
                    return Err(AcademyError::PrerequisiteNotMet);
                }
            },
        }
    }
    let event = Enrolled { learner, course_id: course_id.clone() };
    let enrollment = Enrollment {
        course_id,
        learner,
        lesson_flags: BitSet::new(),
        enrolled_at: now,
        completed_at: None,
        credential_asset: None,
    };
    Ok((enrollment, event))
}

/// Why lesson `lesson_index` cannot be recorded, before any XP is credited:
/// the first of these that holds.
pub open spec fn complete_lesson_check(
    config: Config,
    course: Course,
    enrollment: Enrollment,
    learner: LearnerProfile,
    signer: AccountKey,
    learner_token: TokenAccountRef,
    lesson_index: u8,
) -> Option<AcademyError> {
    if signer != config.backend_signer {
        Some(AcademyError::BackendSignerMismatch)
    } else if enrollment.course_id@ != course.course_id@ {
        Some(AcademyError::CourseMismatch)
    } else if enrollment.learner != learner.user {
        Some(AcademyError::Unauthorized)
    } else if learner_token.owner != learner.user {
        Some(AcademyError::InvalidTokenAccount)
    } else if learner_token.mint != config.xp_mint {
        Some(AcademyError::MintMismatch)
    } else if lesson_index >= course.lesson_count {
        Some(AcademyError::LessonOutOfBounds)
    } else if enrollment.lesson_flags@.contains(lesson_index as int) {
        Some(AcademyError::LessonAlreadyCompleted)
    } else {
        None
    }
}

/// Why completing lesson `lesson_index` at time `now` fails, if it does.
pub open spec fn complete_lesson_error(
    config: Config,
    course: Course,
    enrollment: Enrollment,
    learner: LearnerProfile,
    signer: AccountKey,
    learner_token: TokenAccountRef,
    lesson_index: u8,
    now: i64,
) -> Option<AcademyError> {
    match complete_lesson_check(config, course, enrollment, learner, signer, learner_token, lesson_index) {
        Some(e) => Some(e),
        None => match credited(learner, course.xp_per_lesson as u64, config.daily_xp_cap, now) {
            Err(e) => Some(e),
            Ok(_) => None,
        },
    }
}

/// Records that the learner completed lesson `lesson_index`, as attested by
/// the backend signer, and credits the course's XP per lesson to them.
pub fn complete_lesson(
    config: &Config,
    course: &Course,
    enrollment: &mut Enrollment,
    learner: &mut LearnerProfile,
    signer: AccountKey,
    learner_token: TokenAccountRef,
    lesson_index: u8,
    now: i64,
) -> (r: Result<LessonCompletedEvent, AcademyError>)
    ensures
        match complete_lesson_error(*config, *course, *old(enrollment), *old(learner), signer, learner_token, lesson_index, now) {
            Some(e) => {
                &&& r == Err::<LessonCompletedEvent, AcademyError>(e)
                &&& *final(enrollment) == *old(enrollment)
                &&& *final(learner) == *old(learner)
            },
            None => {
                &&& r is Ok
                &&& final(enrollment).lesson_flags@ == old(enrollment).lesson_flags@.insert(lesson_index as int)
                &&& same_but_lessons(*final(enrollment), *old(enrollment))
                &&& Ok::<LearnerProfile, AcademyError>(*final(learner))
                    == credited(*old(learner), course.xp_per_lesson as u64, config.daily_xp_cap, now)
                &&& r->Ok_0.learner == old(learner).user
                &&& r->Ok_0.course_id@ == course.course_id@
                &&& r->Ok_0.lesson_index == lesson_index
                &&& r->Ok_0.xp_amount == course.xp_per_lesson
            },
        },
        old(learner).wf() ==> final(learner).wf(),
{
    if signer != config.backend_signer {
        return Err(AcademyError::BackendSignerMismatch);
    }
    if enrollment.course_id != course.course_id {
        return Err(AcademyError::CourseMismatch);
    }
    if enrollment.learner != learner.user {
        return Err(AcademyError::Unauthorized);
    }
    if learner_token.owner != learner.user {
        return Err(AcademyError::InvalidTokenAccount);
    }
    if learner_token.mint != config.xp_mint {
        return Err(AcademyError::MintMismatch);
    }
    if lesson_index >= course.lesson_count {
        return Err(AcademyError::LessonOutOfBounds);
    }
    if enrollment.is_lesson_complete(lesson_index) {
        return Err(AcademyError::LessonAlreadyCompleted);
    }
    let xp_amount = course.xp_per_lesson as u64;
    credit_xp(learner, xp_amount, config.daily_xp_cap, now)?;
    let _ = enrollment.set_lesson_complete(lesson_index);
    Ok(LessonCompletedEvent {
        learner: learner.user,
        course_id: course.course_id.clone(),
        lesson_index,
        xp_amount,
    })
}

/// The XP a finished course is worth: its XP per lesson times its lessons.
pub open spec fn base_xp(course: Course) -> int {
    course.xp_per_lesson * course.lesson_count
}

/// The XP the creator receives for the next finalization: the creator
/// reward once the completion count reaches the threshold, else nothing.
pub open spec fn creator_xp_due(course: Course) -> int {
    if course.completion_count + 1 >= course.min_completions_for_reward {
        course.creator_reward_xp as int
    } else {
        0
    }
}

/// Why the enrollment cannot be finalized, before any XP is credited: the
/// first of these that holds.
pub open spec fn finalize_check(
    config: Config,
    course: Course,
    enrollment: Enrollment,
    learner: LearnerProfile,
    signer: AccountKey,
    xp_mint: AccountKey,
    learner_token: TokenAccountRef,
    creator: AccountKey,
    creator_token: TokenAccountRef,
) -> Option<AcademyError> {
    if signer != config.backend_signer {
        Some(AcademyError::BackendSignerMismatch)
    } else if xp_mint != config.xp_mint {
        Some(AcademyError::MintMismatch)
    } else if !course.is_active {
        Some(AcademyError::CourseNotActive)
    } else if enrollment.course_id@ != course.course_id@ {
        Some(AcademyError::CourseMismatch)
    } else if enrollment.learner != learner.user {
        Some(AcademyError::Unauthorized)
    } else if enrollment.completed_at is Some {
        Some(AcademyError::CourseAlreadyFinalized)
    } else if !all_complete(enrollment.lesson_flags, course.lesson_count) {
        Some(AcademyError::CourseNotCompleted)
    } else if learner_token.owner != learner.user {
        Some(AcademyError::InvalidTokenAccount)
    } else if learner_token.mint != xp_mint {
        Some(AcademyError::MintMismatch)
    } else if course.completion_count == u32::MAX {
        Some(AcademyError::Overflow)
    } else if creator_xp_due(course) > 0 && creator != course.creator {
        Some(AcademyError::Unauthorized)
    } else if creator_xp_due(course) > 0 && creator_token.owner != creator {
        Some(AcademyError::InvalidTokenAccount)
    } else if creator_xp_due(course) > 0 && creator_token.mint != xp_mint {
        Some(AcademyError::MintMismatch)
    } else {
        None
    }
}

/// Why finalizing at time `now` fails, if it does.
pub open spec fn finalize_error(
    config: Config,
    course: Course,
    enrollment: Enrollment,
    learner: LearnerProfile,
    signer: AccountKey,
    xp_mint: AccountKey,
    learner_token: TokenAccountRef,
    creator: AccountKey,
    creator_token: TokenAccountRef,
    now: i64,
) -> Option<AcademyError> {
    match finalize_check(config, course, enrollment, learner, signer, xp_mint, learner_token, creator, creator_token) {
        Some(e) => Some(e),
        None => match credited(learner, (base_xp(course) / 2) as u64, config.daily_xp_cap, now) {
            Err(e) => Some(e),
            Ok(l) => if l.courses_completed == u32::MAX {
                Some(AcademyError::Overflow)
            } else {
                None
            },
        },
    }
}

/// Finalizes a fully completed enrollment: credits half the course's base
/// XP to the learner as a bonus, counts the completion, and, once the count
/// reaches the course's threshold, grants the creator reward.
pub fn finalize_course(
    config: &Config,
    course: &mut Course,
    enrollment: &mut Enrollment,
    learner: &mut LearnerProfile,
    signer: AccountKey,
    xp_mint: AccountKey,
    learner_token: TokenAccountRef,
    creator: AccountKey,
    creator_token: TokenAccountRef,
    now: i64,
) -> (r: Result<CourseFinalized, AcademyError>)
    ensures
        match finalize_error(
            *config, *old(course), *old(enrollment), *old(learner), signer, xp_mint,
            learner_token, creator, creator_token, now,
        ) {
            Some(e) => {
                &&& r == Err::<CourseFinalized, AcademyError>(e)
                &&& *final(course) == *old(course)
                &&& *final(enrollment) == *old(enrollment)
                &&& *final(learner) == *old(learner)
            },
            None => {
                let bonus = (base_xp(*old(course)) / 2) as u64;
                let l = credited(*old(learner), bonus, config.daily_xp_cap, now)->Ok_0;
                &&& r is Ok
                &&& *final(course) == (Course { completion_count: (old(course).completion_count + 1) as u32, ..*old(course) })
                &&& *final(enrollment) == (Enrollment { completed_at: Some(now), ..*old(enrollment) })
                &&& *final(learner) == (LearnerProfile { courses_completed: (l.courses_completed + 1) as u32, ..l })
                &&& r->Ok_0.learner == old(learner).user
                &&& r->Ok_0.course_id@ == old(course).course_id@
                &&& r->Ok_0.base_xp == base_xp(*old(course))
                &&& r->Ok_0.bonus_xp == bonus
                &&& r->Ok_0.creator == old(course).creator
                &&& r->Ok_0.creator_xp == creator_xp_due(*old(course))
            },
        },
        old(course).wf() ==> final(course).wf(),
        old(learner).wf() ==> final(learner).wf(),
{
    if signer != config.backend_signer {
        return Err(AcademyError::BackendSignerMismatch);
    }
    if xp_mint != config.xp_mint {
        return Err(AcademyError::MintMismatch);
    }
    if !course.is_active {
        return Err(AcademyError::CourseNotActive);
    }
    if enrollment.course_id != course.course_id {
        return Err(AcademyError::CourseMismatch);
    }
    if enrollment.learner != learner.user {
        return Err(AcademyError::Unauthorized);
    }
    if enrollment.completed_at.is_some() {
        return Err(AcademyError::CourseAlreadyFinalized);
    }
    if !enrollment.all_lessons_complete(course.lesson_count) {
        return Err(AcademyError::CourseNotCompleted);
    }
    if learner_token.owner != learner.user {
        return Err(AcademyError::InvalidTokenAccount);
    }
    if learner_token.mint != xp_mint {
        return Err(AcademyError::MintMismatch);
    }
    let per_lesson = course.xp_per_lesson as u64;
    let lessons = course.lesson_count as u64;
    assert(per_lesson * lessons <= 0xffff_ffffu64 * 0xffu64) by (nonlinear_arith)
        requires
            per_lesson <= 0xffff_ffffu64,
            lessons <= 0xffu64,
    ;
    let base = per_lesson * lessons;
    let bonus = base / 2;
    let new_count = match course.completion_count.checked_add(1) {
        Some(c) => c,
        None => return Err(AcademyError::Overflow),
    };
    let creator_xp: u32 = if new_count >= course.min_completions_for_reward {
        course.creator_reward_xp
    } else {
        0
    };
    if creator_xp > 0 {
        if creator != course.creator {
            return Err(AcademyError::Unauthorized);
        }
        if creator_token.owner != creator {
            return Err(AcademyError::InvalidTokenAccount);
        }
        if creator_token.mint != xp_mint {
            return Err(AcademyError::MintMismatch);
        }
    }
    let mut updated = *learner;
    credit_xp(&mut updated, bonus, config.daily_xp_cap, now)?;
    let completed = match updated.courses_completed.checked_add(1) {
        Some(c) => c,
        None => return Err(AcademyError::Overflow),
    };
    updated.courses_completed = completed;
    *learner = updated;
    course.completion_count = new_count;
    enrollment.completed_at = Some(now);
    Ok(CourseFinalized {
        learner: learner.user,
        course_id: course.course_id.clone(),
        base_xp: base,
        bonus_xp: bonus,
        creator: course.creator,
        creator_xp: creator_xp as u64,
    })
}

/// Why `learner` cannot close the enrollment at time `now`, if they cannot.
pub open spec fn close_check(course: Course, enrollment: Enrollment, learner: AccountKey, now: i64) -> Option<AcademyError> {
    if enrollment.course_id@ != course.course_id@ {
        Some(AcademyError::CourseMismatch)
    } else if enrollment.learner != learner {
        Some(AcademyError::Unauthorized)
    } else if enrollment.completed_at is None && now - enrollment.enrolled_at < INCOMPLETE_CLOSE_COOLDOWN_SECS {
        Some(AcademyError::UnenrollCooldown)
    } else {
        None
    }
}

/// Allows the learner to close their enrollment: at any time once it is
/// finalized, else only after the cooldown since enrolling.
pub fn close_enrollment(course: &Course, enrollment: &Enrollment, learner: AccountKey, now: i64) -> (r: Result<EnrollmentClosed, AcademyError>)
    ensures
        match close_check(*course, *enrollment, learner, now) {
            Some(e) => r == Err::<EnrollmentClosed, AcademyError>(e),
            None => r is Ok && r->Ok_0.learner == learner && r->Ok_0.course_id@ == enrollment.course_id@,
        },
{
    if enrollment.course_id != course.course_id {
        return Err(AcademyError::CourseMismatch);
    }
    if enrollment.learner != learner {
        return Err(AcademyError::Unauthorized);
    }
    if enrollment.completed_at.is_none() {
        let elapsed = (now as i128) - (enrollment.enrolled_at as i128);
        if elapsed < INCOMPLETE_CLOSE_COOLDOWN_SECS as i128 {
            return Err(AcademyError::UnenrollCooldown);
        }
    }
    Ok(EnrollmentClosed { learner, course_id: enrollment.course_id.clone() })
}

/// Why a credential cannot be issued for the enrollment, if it cannot.
pub open spec fn issue_check(config: Config, course: Course, enrollment: Enrollment, signer: AccountKey, learner: AccountKey) -> Option<AcademyError> {
    if signer != config.backend_signer {
        Some(AcademyError::BackendSignerMismatch)
    } else if enrollment.course_id@ != course.course_id@ {
        Some(AcademyError::CourseMismatch)
    } else if enrollment.learner != learner {
        Some(AcademyError::Unauthorized)
    } else if enrollment.completed_at is None {
        Some(AcademyError::CourseNotFinalized)
    } else if enrollment.credential_asset is Some {
        Some(AcademyError::CredentialAlreadyIssued)
    } else {
        None
    }
}

/// Records `asset` as the credential of a finalized enrollment; the backend
/// signer issues it, once.
pub fn issue_credential(
    config: &Config,
    course: &Course,
    enrollment: &mut Enrollment,
    signer: AccountKey,
    learner: AccountKey,
    asset: AccountKey,
) -> (r: Result<CredentialIssuedEvent, AcademyError>)
    ensures
        match issue_check(*config, *course, *old(enrollment), signer, learner) {
            Some(e) => r == Err::<CredentialIssuedEvent, AcademyError>(e) && *final(enrollment) == *old(enrollment),
            None => {
                &&& r is Ok
                &&& *final(enrollment) == (Enrollment { credential_asset: Some(asset), ..*old(enrollment) })
                &&& r->Ok_0.learner == learner
                &&& r->Ok_0.course_id@ == course.course_id@
                &&& r->Ok_0.asset == asset
            },
        },
{
    if signer != config.backend_signer {
        return Err(AcademyError::BackendSignerMismatch);
    }
    if enrollment.course_id != course.course_id {
        return Err(AcademyError::CourseMismatch);
    }
    if enrollment.learner != learner {
        return Err(AcademyError::Unauthorized);
    }
    if enrollment.completed_at.is_none() {
        return Err(AcademyError::CourseNotFinalized);
    }
    if enrollment.credential_asset.is_some() {
        return Err(AcademyError::CredentialAlreadyIssued);
    }
    enrollment.credential_asset = Some(asset);
    Ok(CredentialIssuedEvent { learner, course_id: course.course_id.clone(), asset })
}

/// Why the credential `asset` cannot be upgraded, if it cannot.
pub open spec fn upgrade_check(
    config: Config,
    course: Course,
    enrollment: Enrollment,
    signer: AccountKey,
    learner: AccountKey,
    asset: AccountKey,
) -> Option<AcademyError> {
    if signer != config.backend_signer {
        Some(AcademyError::BackendSignerMismatch)
    } else if enrollment.course_id@ != course.course_id@ {
        Some(AcademyError::CourseMismatch)
    } else if enrollment.learner != learner {
        Some(AcademyError::Unauthorized)
    } else if enrollment.completed_at is None {
        Some(AcademyError::CourseNotFinalized)
    } else if enrollment.credential_asset != Some(asset) {
        Some(AcademyError::InvalidCredentialAsset)
    } else {
        None
    }
}

/// Validates an upgrade of the credential issued for a finalized
/// enrollment; the backend signer requests it for exactly that asset.
pub fn upgrade_credential(
    config: &Config,
    course: &Course,
    enrollment: &Enrollment,
    signer: AccountKey,
    learner: AccountKey,
    asset: AccountKey,
) -> (r: Result<CredentialUpgraded, AcademyError>)
    ensures
        match upgrade_check(*config, *course, *enrollment, signer, learner, asset) {
            Some(e) => r == Err::<CredentialUpgraded, AcademyError>(e),
            None => r is Ok && r->Ok_0.learner == learner && r->Ok_0.asset == asset,
        },
{
    if signer != config.backend_signer {
        return Err(AcademyError::BackendSignerMismatch);
    }
    if enrollment.course_id != course.course_id {
        return Err(AcademyError::CourseMismatch);
    }
    if enrollment.learner != learner {
        return Err(AcademyError::Unauthorized);
    }
    if enrollment.completed_at.is_none() {
        return Err(AcademyError::CourseNotFinalized);
    }
    match enrollment.credential_asset {
        None => Err(AcademyError::InvalidCredentialAsset),
        Some(issued) => if issued != asset {
            Err(AcademyError::InvalidCredentialAsset)
        } else {
            Ok(CredentialUpgraded { learner, asset })
        },
    }
}

} // verus!
