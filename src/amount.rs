use vstd::prelude::*;
use crate::error::AcademyError;

verus! {

/// A signed fixed-point amount held as its raw scaled integer. All ledger
/// additions on it are checked: an overflow is an error, never a wrap or a
/// saturation.
#[derive(Clone, Copy, Debug, PartialEq, Eq, Structural)]
pub struct I80F48 {
    pub value: i128,
}

impl View for I80F48 {
    type V = int;

    open spec fn view(&self) -> int {
        self.value as int
    }
}

impl I80F48 {
    /// The amount equal to the integer `v`.
    pub fn from_u64(v: u64) -> (r: Self)
        ensures
            r@ == v,
    {
        I80F48 { value: v as i128 }
    }

    /// The amount as a `u64`; fails when it is negative or beyond `u64::MAX`.
    pub fn as_u64(self) -> (r: Result<u64, AcademyError>)
        ensures
            0 <= self@ <= u64::MAX ==> r == Ok::<u64, AcademyError>(self@ as u64),
            !(0 <= self@ <= u64::MAX) ==> r == Err::<u64, AcademyError>(AcademyError::InvalidAmount),
    {
        if self.value < 0 || self.value > u64::MAX as i128 {
            Err(AcademyError::InvalidAmount)
        } else {
            Ok(self.value as u64)
        }
    }

    /// The sum of two amounts; fails when it leaves the range of `i128`.
    pub fn checked_add(self, rhs: Self) -> (r: Result<Self, AcademyError>)
        ensures
            i128::MIN <= self@ + rhs@ <= i128::MAX ==> r is Ok && r->Ok_0@ == self@ + rhs@,
            !(i128::MIN <= self@ + rhs@ <= i128::MAX) ==> r == Err::<Self, AcademyError>(AcademyError::Overflow),
    {
        match self.value.checked_add(rhs.value) {
            Some(value) => Ok(I80F48 { value }),
            None => Err(AcademyError::Overflow),
        }
    }
}

/// The checked sum of two amounts, as [`I80F48::checked_add`].
pub fn checked_add_i80(lhs: I80F48, rhs: I80F48) -> (r: Result<I80F48, AcademyError>)
    ensures
        i128::MIN <= lhs@ + rhs@ <= i128::MAX ==> r is Ok && r->Ok_0@ == lhs@ + rhs@,
        !(i128::MIN <= lhs@ + rhs@ <= i128::MAX) ==> r == Err::<I80F48, AcademyError>(AcademyError::Overflow),
{
    lhs.checked_add(rhs)
}

/// The amount as a `u32`; fails when it is negative or beyond `u32::MAX`.
pub fn i80_to_u32(amount: I80F48) -> (r: Result<u32, AcademyError>)
    ensures
        0 <= amount@ <= u32::MAX ==> r == Ok::<u32, AcademyError>(amount@ as u32),
        !(0 <= amount@ <= u32::MAX) ==> r == Err::<u32, AcademyError>(AcademyError::InvalidAmount),
{
    let raw = amount.as_u64()?;
    if raw > u32::MAX as u64 {
        Err(AcademyError::InvalidAmount)
    } else {
        Ok(raw as u32)
    }
}

} // verus!
