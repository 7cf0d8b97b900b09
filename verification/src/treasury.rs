use crate::error::ErrorCode;
use vstd::prelude::*;

verus! {

/// The pooled value that the vault holds for its depositors.
///
/// A credit never wraps and a debit never leaves the balance negative: each
/// is refused instead, and then changes nothing.
#[derive(Clone, Copy, Debug, PartialEq, Eq)]
pub struct Treasury {
    pub balance: u64,
}

impl Treasury {
    /// A treasury that holds nothing.
    pub fn new() -> (treasury: Treasury)
        ensures
            treasury.balance == 0,
    {
        Treasury { balance: 0 }
    }

    /// `self` after `amount` has come in, if the sum fits.
    pub open spec fn credited(self, amount: u64) -> Option<Treasury> {
        if self.balance + amount <= u64::MAX {
            Some(Treasury { balance: (self.balance + amount) as u64 })
        } else {
            None
        }
    }

    /// `self` after `amount` has gone out, if that much is there.
    pub open spec fn debited(self, amount: u64) -> Option<Treasury> {
        if amount <= self.balance {
            Some(Treasury { balance: (self.balance - amount) as u64 })
        } else {
            None
        }
    }

    /// Adds `amount` to the balance, or refuses with `ArithmeticOverflow`
    /// when the sum does not fit.
    pub fn credit(&mut self, amount: u64) -> (outcome: Result<(), ErrorCode>)
        ensures
            old(self).credited(amount) matches Some(after) ==> outcome == Ok::<(), ErrorCode>(())
                && *final(self) == after,
            old(self).credited(amount) is None ==> outcome == Err::<(), ErrorCode>(
                ErrorCode::ArithmeticOverflow,
            ) && *final(self) == *old(self),
    {
        match self.balance.checked_add(amount) {
            Some(sum) => {
                self.balance = sum;
                Ok(())
            },
            None => Err(ErrorCode::ArithmeticOverflow),
        }
    }

    /// Takes `amount` from the balance, or refuses with `ArithmeticOverflow`
    /// when the balance is smaller.
    pub fn debit(&mut self, amount: u64) -> (outcome: Result<(), ErrorCode>)
        ensures
            old(self).debited(amount) matches Some(after) ==> outcome == Ok::<(), ErrorCode>(())
                && *final(self) == after,
            old(self).debited(amount) is None ==> outcome == Err::<(), ErrorCode>(
                ErrorCode::ArithmeticOverflow,
            ) && *final(self) == *old(self),
    {
        match self.balance.checked_sub(amount) {
            Some(rest) => {
                self.balance = rest;
                Ok(())
            },
            None => Err(ErrorCode::ArithmeticOverflow),
        }
    }
}

} // verus!
