use vstd::prelude::*;

verus! {

/// Every way a transition can fail. A failed transition leaves every entity
/// it was handed exactly as it was.
#[derive(Clone, Copy, Debug, PartialEq, Eq, Structural)]
pub enum AcademyError {
    CourseNotActive,
    LessonOutOfBounds,
    LessonAlreadyCompleted,
    CourseNotCompleted,
    CourseAlreadyFinalized,
    CourseNotFinalized,
    PrerequisiteNotMet,
    UnenrollCooldown,
    MinterNotActive,
    MinterAmountExceeded,
    AchievementNotActive,
    AchievementSupplyExhausted,
    InvalidAmount,
    Unauthorized,
    AlreadyAwarded,
    InvalidTokenAccount,
    MintMismatch,
    Overflow,
    InvalidCourseId,
    InvalidAchievementId,
    BackendSignerMismatch,
    MissingPrerequisiteEnrollment,
    InvalidCredentialAsset,
    MinterRoleMismatch,
    InvalidMetadata,
    InvalidLessonCount,
    CourseMismatch,
    DailyXpLimitExceeded,
    CredentialAlreadyIssued,
    AlreadyReferred,
}

/// The six families that every failure belongs to.
#[derive(Clone, Copy, Debug, PartialEq, Eq, Structural)]
pub enum ErrorCategory {
    /// The caller is not the authority, backend signer or minter required.
    Authorization,
    /// An input is malformed or out of range.
    Validation,
    /// The entity is in the wrong lifecycle state.
    StateConflict,
    /// A checked operation overflowed.
    Arithmetic,
    /// A daily cap or a per-call mint cap was exceeded.
    RateLimit,
    /// A supplied account does not match the entity it must be linked to.
    CrossReference,
}

pub open spec fn category_of(e: AcademyError) -> ErrorCategory {
    match e {
        AcademyError::Unauthorized
        | AcademyError::BackendSignerMismatch
        | AcademyError::MinterRoleMismatch => ErrorCategory::Authorization,
        AcademyError::LessonOutOfBounds
        | AcademyError::InvalidAmount
        | AcademyError::InvalidCourseId
        | AcademyError::InvalidAchievementId
        | AcademyError::InvalidMetadata
        | AcademyError::InvalidLessonCount => ErrorCategory::Validation,
        AcademyError::Overflow => ErrorCategory::Arithmetic,
        AcademyError::MinterAmountExceeded
        | AcademyError::DailyXpLimitExceeded => ErrorCategory::RateLimit,
        AcademyError::PrerequisiteNotMet
        | AcademyError::MissingPrerequisiteEnrollment
        | AcademyError::InvalidTokenAccount
        | AcademyError::MintMismatch
        | AcademyError::InvalidCredentialAsset
        | AcademyError::CourseMismatch => ErrorCategory::CrossReference,
        _ => ErrorCategory::StateConflict,
    }
}

impl AcademyError {
    /// The family this failure belongs to.
    pub fn category(&self) -> (r: ErrorCategory)
        ensures
            r == category_of(*self),
    {
        match self {
            AcademyError::Unauthorized
            | AcademyError::BackendSignerMismatch
            | AcademyError::MinterRoleMismatch => ErrorCategory::Authorization,
            AcademyError::LessonOutOfBounds
            | AcademyError::InvalidAmount
            | AcademyError::InvalidCourseId
            | AcademyError::InvalidAchievementId
            | AcademyError::InvalidMetadata
            | AcademyError::InvalidLessonCount => ErrorCategory::Validation,
            AcademyError::Overflow => ErrorCategory::Arithmetic,
            AcademyError::MinterAmountExceeded
            | AcademyError::DailyXpLimitExceeded => ErrorCategory::RateLimit,
            AcademyError::PrerequisiteNotMet
            | AcademyError::MissingPrerequisiteEnrollment
            | AcademyError::InvalidTokenAccount
            | AcademyError::MintMismatch
            | AcademyError::InvalidCredentialAsset
            | AcademyError::CourseMismatch => ErrorCategory::CrossReference,
            _ => ErrorCategory::StateConflict,
        }
    }
}

} // verus!
