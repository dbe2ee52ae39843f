use academy::amount::{checked_add_i80, i80_to_u32, I80F48};
use academy::bitset::BitSet;
use academy::error::{AcademyError, ErrorCategory};
use academy::key::AccountKey;
use academy::learner::day_of;
use academy::state::{str_byte_len, Enrollment};

#[test]
fn amount_from_and_back() {
    let a = I80F48::from_u64(1234);
    assert_eq!(a.value, 1234);
    assert_eq!(a.as_u64(), Ok(1234));
    assert_eq!(I80F48::from_u64(u64::MAX).as_u64(), Ok(u64::MAX));
}

#[test]
fn amount_negative_or_too_large_is_invalid() {
    assert_eq!(I80F48 { value: -1 }.as_u64(), Err(AcademyError::InvalidAmount));
    assert_eq!(I80F48 { value: u64::MAX as i128 + 1 }.as_u64(), Err(AcademyError::InvalidAmount));
}

#[test]
fn amount_checked_add() {
    let s = I80F48 { value: 40 }.checked_add(I80F48 { value: -2 }).unwrap();
    assert_eq!(s.value, 38);
    assert_eq!(I80F48 { value: i128::MAX }.checked_add(I80F48 { value: 1 }), Err(AcademyError::Overflow));
    assert_eq!(I80F48 { value: i128::MIN }.checked_add(I80F48 { value: -1 }), Err(AcademyError::Overflow));
    assert_eq!(checked_add_i80(I80F48 { value: 5 }, I80F48 { value: 7 }).unwrap().value, 12);
}

#[test]
fn amount_to_u32() {
    assert_eq!(i80_to_u32(I80F48 { value: 70000 }), Ok(70000));
    assert_eq!(i80_to_u32(I80F48 { value: u32::MAX as i128 + 1 }), Err(AcademyError::InvalidAmount));
    assert_eq!(i80_to_u32(I80F48 { value: -5 }), Err(AcademyError::InvalidAmount));
}

#[test]
fn bitset_set_and_read() {
    let mut b = BitSet::new();
    assert!(!b.is_set(0));
    assert_eq!(b.set(0), Ok(()));
    assert_eq!(b.set(63), Ok(()));
    assert_eq!(b.set(64), Ok(()));
    assert_eq!(b.set(255), Ok(()));
    assert!(b.is_set(0) && b.is_set(63) && b.is_set(64) && b.is_set(255));
    assert!(!b.is_set(1) && !b.is_set(128));
    assert_eq!(b.count_set(), 4);
    assert_eq!(b.words, [1u64 | (1u64 << 63), 1, 0, 1u64 << 63]);
}

#[test]
fn bitset_out_of_range() {
    let mut b = BitSet::new();
    assert_eq!(b.set(256), Err(AcademyError::LessonOutOfBounds));
    assert_eq!(b.words, [0u64; 4]);
    assert!(!b.is_set(256));
    assert!(!b.is_set(10_000));
}

#[test]
fn bitset_is_full() {
    let mut b = BitSet::new();
    assert!(b.is_full(0));
    assert!(!b.is_full(1));
    for i in 0..3u32 {
        b.set(i).unwrap();
    }
    assert!(b.is_full(3));
    assert!(!b.is_full(4));
    assert!(!b.is_full(257));
    for i in 0..256u32 {
        b.set(i).unwrap();
    }
    assert!(b.is_full(256));
    assert_eq!(b.count_set(), 256);
}

#[test]
fn enrollment_lesson_flags() {
    let mut e = Enrollment {
        course_id: "rust-101".to_string(),
        learner: AccountKey { hi: 1, lo: 2 },
        lesson_flags: BitSet::new(),
        enrolled_at: 0,
        completed_at: None,
        credential_asset: None,
    };
    assert!(!e.is_lesson_complete(7));
    assert_eq!(e.set_lesson_complete(7), Ok(()));
    assert_eq!(e.set_lesson_complete(255), Ok(()));
    assert!(e.is_lesson_complete(7));
    assert_eq!(e.completed_lesson_count(), 2);
    assert!(!e.all_lessons_complete(8));
    assert!(e.all_lessons_complete(0));
}

#[test]
fn day_index_rounds_down() {
    assert_eq!(day_of(0), 0);
    assert_eq!(day_of(86399), 0);
    assert_eq!(day_of(86400), 1);
    assert_eq!(day_of(-1), -1);
    assert_eq!(day_of(-86400), -1);
    assert_eq!(day_of(-86401), -2);
}

#[test]
fn byte_length_counts_utf8_bytes() {
    assert_eq!(str_byte_len(&"abc".to_string()), 3);
    assert_eq!(str_byte_len(&"é".to_string()), 2);
}

#[test]
fn error_categories() {
    assert_eq!(AcademyError::Unauthorized.category(), ErrorCategory::Authorization);
    assert_eq!(AcademyError::LessonOutOfBounds.category(), ErrorCategory::Validation);
    assert_eq!(AcademyError::CourseAlreadyFinalized.category(), ErrorCategory::StateConflict);
    assert_eq!(AcademyError::Overflow.category(), ErrorCategory::Arithmetic);
    assert_eq!(AcademyError::DailyXpLimitExceeded.category(), ErrorCategory::RateLimit);
    assert_eq!(AcademyError::MintMismatch.category(), ErrorCategory::CrossReference);
}
