//! Moving balances between accounts, and closing an account.

use crate::account::AccountView;
use crate::error::ProgramError;
use crate::pubkey::Pubkey;
use vstd::prelude::*;

verus! {

/// Whether two accounts differ in their balance at most.
pub open spec fn same_but_lamports(before: &AccountView, after: &AccountView) -> bool {
    &&& after.key == before.key
    &&& after.owner == before.owner
    &&& after.data == before.data
    &&& after.is_signer == before.is_signer
    &&& after.is_writable == before.is_writable
    &&& after.executable == before.executable
}

/// Whether `lamports` can move from an account with the balance `from` to one
/// with the balance `to`: the first holds that much, and the second stays in
/// the range of `u64`.
pub open spec fn can_move(from: u64, to: u64, lamports: u64) -> bool {
    lamports <= from && to + lamports <= u64::MAX
}

/// A transfer that the runtime is asked to make on the program's behalf.
#[derive(Clone, Copy, Debug)]
pub struct Transfer {
    /// The address of the account that pays.
    pub from: Pubkey,
    /// The address of the account that receives.
    pub to: Pubkey,
    /// The amount.
    pub lamports: u64,
}

/// Moving balances from one account to another.
pub trait LamportTransfer {
    /// Takes `lamports` from this account and gives them to `to`. Where this
    /// account holds less, or `to` would hold more than a `u64` can, nothing
    /// moves.
    fn send(&mut self, lamports: u64, to: &mut AccountView) -> Result<(), ProgramError>;

    /// The transfer of `lamports` from `from` to this account that the runtime
    /// is to be asked for. It is the way to take from an account that the
    /// program does not own.
    fn collect(&self, lamports: u64, from: &AccountView) -> Transfer;
}

/// Closing an account.
pub trait CloseAccount {
    /// Empties the account: its data is cut to no bytes and its whole balance
    /// goes to `to`. Where `to` would hold more than a `u64` can, nothing
    /// happens.
    fn close(&mut self, to: &mut AccountView) -> Result<(), ProgramError>;
}

impl LamportTransfer for AccountView {
    fn send(&mut self, lamports: u64, to: &mut AccountView) -> (r: Result<(), ProgramError>)
        ensures
            same_but_lamports(old(self), final(self)),
            same_but_lamports(old(to), final(to)),
            final(self).lamports + final(to).lamports == old(self).lamports + old(to).lamports,
            match r {
                Ok(()) => {
                    &&& can_move(old(self).lamports, old(to).lamports, lamports)
                    &&& final(self).lamports == old(self).lamports - lamports
                    &&& final(to).lamports == old(to).lamports + lamports
                },
                Err(e) => {
                    &&& !can_move(old(self).lamports, old(to).lamports, lamports)
                    &&& e == ProgramError::ArithmeticOverflow
                    &&& final(self).lamports == old(self).lamports
                    &&& final(to).lamports == old(to).lamports
                },
            },
    {
        if self.lamports < lamports {
            return Err(ProgramError::ArithmeticOverflow);
        }
        if lamports > u64::MAX - to.lamports {
            return Err(ProgramError::ArithmeticOverflow);
        }
        self.lamports = self.lamports - lamports;
        to.lamports = to.lamports + lamports;
        Ok(())
    }

    fn collect(&self, lamports: u64, from: &AccountView) -> (transfer: Transfer)
        ensures
            transfer.from == from.key,
            transfer.to == self.key,
            transfer.lamports == lamports,
    {
        Transfer { from: from.key, to: self.key, lamports }
    }
}

impl CloseAccount for AccountView {
    fn close(&mut self, to: &mut AccountView) -> (r: Result<(), ProgramError>)
        ensures
            same_but_lamports(old(to), final(to)),
            final(self).key == old(self).key,
            final(self).owner == old(self).owner,
            final(self).is_signer == old(self).is_signer,
            final(self).is_writable == old(self).is_writable,
            final(self).executable == old(self).executable,
            final(self).lamports + final(to).lamports == old(self).lamports + old(to).lamports,
            match r {
                Ok(()) => {
                    &&& old(to).lamports + old(self).lamports <= u64::MAX
                    &&& final(self).data@.len() == 0
                    &&& final(self).lamports == 0
                    &&& final(to).lamports == old(to).lamports + old(self).lamports
                },
                Err(e) => {
                    &&& old(to).lamports + old(self).lamports > u64::MAX
                    &&& e == ProgramError::ArithmeticOverflow
                    &&& *final(self) == *old(self)
                    &&& *final(to) == *old(to)
                },
            },
    {
        if self.lamports > u64::MAX - to.lamports {
            return Err(ProgramError::ArithmeticOverflow);
        }
        self.data.clear();
        let balance = self.lamports;
        self.send(balance, to)
    }
}

} // verus!
