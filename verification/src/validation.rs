//! Checks on the content of a record, chained like the checks on an account.

use crate::error::ProgramError;
use crate::records::{Counter, Profile};
use vstd::prelude::*;

verus! {

/// Checks that a caller states as a condition on the record. Each returns
/// the record it was given where the condition holds, and a failure where it
/// does not.
pub trait AccountValidation: Sized {
    /// The record, or `InvalidAccountData` where `condition` does not hold.
    fn assert_that<F: Fn(&Self) -> bool>(&self, condition: F) -> (r: Result<&Self, ProgramError>)
        requires
            condition.requires((self,)),
        ensures
            match r {
                Ok(record) => record == self && condition.ensures((self,), true),
                Err(e) => e == ProgramError::InvalidAccountData && condition.ensures(
                    (self,),
                    false,
                ),
            },
    {
        if !condition(self) {
            return Err(ProgramError::InvalidAccountData);
        }
        Ok(self)
    }

    /// The record, or `err` where `condition` does not hold.
    fn assert_err<F: Fn(&Self) -> bool>(&self, condition: F, err: ProgramError) -> (r: Result<
        &Self,
        ProgramError,
    >)
        requires
            condition.requires((self,)),
        ensures
            match r {
                Ok(record) => record == self && condition.ensures((self,), true),
                Err(e) => e == err && condition.ensures((self,), false),
            },
    {
        if !condition(self) {
            return Err(err);
        }
        Ok(self)
    }

    /// The record, or `InvalidAccountData` where `condition` does not hold.
    /// `msg` is what the caller reports of the failure.
    fn assert_msg<F: Fn(&Self) -> bool>(&self, condition: F, msg: &str) -> (r: Result<
        &Self,
        ProgramError,
    >)
        requires
            condition.requires((self,)),
        ensures
            match r {
                Ok(record) => record == self && condition.ensures((self,), true),
                Err(e) => e == ProgramError::InvalidAccountData && condition.ensures(
                    (self,),
                    false,
                ),
            },
    {
        if !condition(self) {
            return Err(ProgramError::InvalidAccountData);
        }
        Ok(self)
    }

    /// As `assert_that`, on a record that the caller goes on to change.
    fn assert_mut<F: Fn(&Self) -> bool>(&mut self, condition: F) -> (r: Result<
        &mut Self,
        ProgramError,
    >)
        requires
            condition.requires((old(self),)),
        ensures
            match r {
                Ok(record) => {
                    &&& *record == *old(self)
                    &&& *final(self) == *final(record)
                    &&& condition.ensures((old(self),), true)
                },
                Err(e) => {
                    &&& e == ProgramError::InvalidAccountData
                    &&& *final(self) == *old(self)
                    &&& condition.ensures((old(self),), false)
                },
            },
    {
        if !condition(self) {
            return Err(ProgramError::InvalidAccountData);
        }
        Ok(self)
    }

    /// As `assert_err`, on a record that the caller goes on to change.
    fn assert_mut_err<F: Fn(&Self) -> bool>(
        &mut self,
        condition: F,
        err: ProgramError,
    ) -> (r: Result<&mut Self, ProgramError>)
        requires
            condition.requires((old(self),)),
        ensures
            match r {
                Ok(record) => {
                    &&& *record == *old(self)
                    &&& *final(self) == *final(record)
                    &&& condition.ensures((old(self),), true)
                },
                Err(e) => {
                    &&& e == err
                    &&& *final(self) == *old(self)
                    &&& condition.ensures((old(self),), false)
                },
            },
    {
        if !condition(self) {
            return Err(err);
        }
        Ok(self)
    }

    /// As `assert_msg`, on a record that the caller goes on to change.
    fn assert_mut_msg<F: Fn(&Self) -> bool>(&mut self, condition: F, msg: &str) -> (r: Result<
        &mut Self,
        ProgramError,
    >)
        requires
            condition.requires((old(self),)),
        ensures
            match r {
                Ok(record) => {
                    &&& *record == *old(self)
                    &&& *final(self) == *final(record)
                    &&& condition.ensures((old(self),), true)
                },
                Err(e) => {
                    &&& e == ProgramError::InvalidAccountData
                    &&& *final(self) == *old(self)
                    &&& condition.ensures((old(self),), false)
                },
            },
    {
        if !condition(self) {
            return Err(ProgramError::InvalidAccountData);
        }
        Ok(self)
    }
}

impl AccountValidation for Counter {
}

impl AccountValidation for Profile {
}

} // verus!
