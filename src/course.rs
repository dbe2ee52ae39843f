use vstd::prelude::*;
use crate::error::AcademyError;
use crate::events::CourseUpdated;
use crate::key::AccountKey;
use crate::state::{byte_len, str_byte_len, Config, Course, CourseUpdate, CreateCourseParams, MAX_COURSE_ID_LEN};

verus! {

/// Why a course cannot be created from `params`, if it cannot: the first of
/// these that holds.
pub open spec fn create_course_check(config: Config, signer: AccountKey, params: CreateCourseParams) -> Option<AcademyError> {
    if params.course_id@.len() == 0 || byte_len(params.course_id@) > MAX_COURSE_ID_LEN {
        Some(AcademyError::InvalidCourseId)
    } else if params.lesson_count == 0 {
        Some(AcademyError::InvalidLessonCount)
    } else if signer != config.authority {
        Some(AcademyError::Unauthorized)
    } else {
        None
    }
}

/// Creates an active course with no completions; only the authority may.
pub fn create_course(config: &Config, signer: AccountKey, params: CreateCourseParams, now: i64) -> (r: Result<Course, AcademyError>)
    ensures
        match create_course_check(*config, signer, params) {
            Some(e) => r == Err::<Course, AcademyError>(e),
            None => r is Ok && {
                let c = r->Ok_0;
                &&& c.course_id@ == params.course_id@
                &&& c.creator == params.creator
                &&& c.content_tx_id == params.content_tx_id
                &&& c.lesson_count == params.lesson_count
                &&& c.difficulty == params.difficulty
                &&& c.xp_per_lesson == params.xp_per_lesson
                &&& c.track_id == params.track_id
                &&& c.track_level == params.track_level
                &&& c.prerequisite == params.prerequisite
                &&& c.creator_reward_xp == params.creator_reward_xp
                &&& c.min_completions_for_reward == params.min_completions_for_reward
                &&& c.completion_count == 0
                &&& c.is_active
                &&& c.created_at == now
                &&& c.wf()
            },
        },
{
    if params.course_id.as_str().is_empty() || str_byte_len(&params.course_id) > MAX_COURSE_ID_LEN {
        return Err(AcademyError::InvalidCourseId);
    }
    if params.lesson_count == 0 {
        return Err(AcademyError::InvalidLessonCount);
    }
    if signer != config.authority {
        return Err(AcademyError::Unauthorized);
    }
    Ok(Course {
        course_id: params.course_id,
        creator: params.creator,
        content_tx_id: params.content_tx_id,
        lesson_count: params.lesson_count,
        difficulty: params.difficulty,
        xp_per_lesson: params.xp_per_lesson,
        track_id: params.track_id,
        track_level: params.track_level,
        prerequisite: params.prerequisite,
        creator_reward_xp: params.creator_reward_xp,
        min_completions_for_reward: params.min_completions_for_reward,
        completion_count: 0,
        is_active: true,
        created_at: now,
    })
}

/// The value of an optional override: the new value when present.
pub open spec fn patched<T>(current: T, change: Option<T>) -> T {
    match change {
        Some(v) => v,
        None => current,
    }
}

/// Applies the present fields of `changes` to the course; only the
/// authority may. The identity, the lessons and the completion count are
/// never touched.
pub fn update_course(config: &Config, course: &mut Course, signer: AccountKey, changes: CourseUpdate) -> (r: Result<CourseUpdated, AcademyError>)
    ensures
        signer != config.authority ==> r == Err::<CourseUpdated, AcademyError>(AcademyError::Unauthorized)
            && *final(course) == *old(course),
        signer == config.authority ==> {
            &&& r is Ok
            &&& r->Ok_0.course_id@ == old(course).course_id@
            &&& *final(course) == (Course {
                content_tx_id: patched(old(course).content_tx_id, changes.new_content_tx_id),
                is_active: patched(old(course).is_active, changes.new_is_active),
                xp_per_lesson: patched(old(course).xp_per_lesson, changes.new_xp_per_lesson),
                creator_reward_xp: patched(old(course).creator_reward_xp, changes.new_creator_reward_xp),
                min_completions_for_reward: patched(
                    old(course).min_completions_for_reward,
                    changes.new_min_completions_for_reward,
                ),
                ..*old(course)
            })
        },
        old(course).wf() ==> final(course).wf(),
{
    if signer != config.authority {
        return Err(AcademyError::Unauthorized);
    }
    if let Some(v) = changes.new_content_tx_id {
        course.content_tx_id = v;
    }
    if let Some(v) = changes.new_is_active {
        course.is_active = v;
    }
    if let Some(v) = changes.new_xp_per_lesson {
        course.xp_per_lesson = v;
    }
    if let Some(v) = changes.new_creator_reward_xp {
        course.creator_reward_xp = v;
    }
    if let Some(v) = changes.new_min_completions_for_reward {
        course.min_completions_for_reward = v;
    }
    Ok(CourseUpdated { course_id: course.course_id.clone() })
}

} // verus!
