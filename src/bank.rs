//! A savings account holding a signed balance.
use vstd::prelude::*;

verus! {

/// A savings account.
pub struct SavingsAccount {
    balance: i32,
}

impl View for SavingsAccount {
    type V = i32;

    /// The balance.
    closed spec fn view(&self) -> i32 {
        self.balance
    }
}

impl SavingsAccount {
    /// An account with a balance of 0.
    pub fn new() -> (r: SavingsAccount)
        ensures
            r@ == 0,
    {
        SavingsAccount { balance: 0 }
    }

    pub fn get_balance(&self) -> (r: i32)
        ensures
            r == self@,
    {
        self.balance
    }

    /// Adds `amount`, which may not be negative, to the balance.
    pub fn deposit(&mut self, amount: i32)
        requires
            amount >= 0,
            old(self)@ + amount <= i32::MAX,
        ensures
            final(self)@ == old(self)@ + amount,
    {
        self.balance = self.balance + amount;
    }

    /// Takes `amount` out of the account when it is less than the balance,
    /// and returns the new balance; otherwise refuses and leaves the balance.
    pub fn withdraw(&mut self, amount: i32) -> (r: Result<i32, String>)
        requires
            amount < old(self)@ ==> old(self)@ - amount <= i32::MAX,
        ensures
            amount < old(self)@ ==> r == Ok::<i32, String>(final(self)@) && final(self)@ == old(
                self,
            )@ - amount,
            amount >= old(self)@ ==> (r matches Err(m) && m@ == "Insufficient Funding."@)
                && final(self)@ == old(self)@,
    {
        if amount < self.balance {
            self.balance = self.balance - amount;
            Ok(self.balance)
        } else {
            Err("Insufficient Funding.".to_owned())
        }
    }
}

} // verus!
