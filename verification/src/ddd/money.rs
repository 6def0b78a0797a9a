//! An amount of money in a currency.

use vstd::prelude::*;
use vstd::string::StringExecFns;

verus! {

/// An amount of money, as plain values.
pub struct MoneyView {
    pub amount: nat,
    pub currency: Seq<char>,
}

#[derive(Debug, PartialEq, Eq, Hash)]
pub struct Money {
    amount: u64,
    currency: String,
}

impl View for Money {
    type V = MoneyView;

    closed spec fn view(&self) -> MoneyView {
        MoneyView { amount: self.amount as nat, currency: self.currency@ }
    }
}

impl Clone for Money {
    fn clone(&self) -> (copy: Self)
        ensures
            copy@ == self@,
    {
        Money { amount: self.amount, currency: self.currency.clone() }
    }
}

impl Money {
    pub fn new(amount: u64, currency: &str) -> (money: Self)
        ensures
            money@ == (MoneyView { amount: amount as nat, currency: currency@ }),
    {
        Money { amount, currency: String::from_str(currency) }
    }

    pub fn amount(&self) -> (amount: u64)
        ensures
            amount == self@.amount,
    {
        self.amount
    }

    pub fn currency(&self) -> (currency: &str)
        ensures
            currency@ == self@.currency,
    {
        self.currency.as_str()
    }

    /// Whether `other` is in the currency of `self`.
    pub fn same_currency(&self, other: &Money) -> (same: bool)
        ensures
            same == (self@.currency == other@.currency),
    {
        self.currency == other.currency
    }

    /// The sum, in the common currency; amounts in two currencies do not add.
    pub fn add(&self, other: &Money) -> (sum: Result<Money, String>)
        requires
            self@.currency == other@.currency ==> self@.amount + other@.amount <= u64::MAX,
        ensures
            match sum {
                Ok(money) => {
                    &&& self@.currency == other@.currency
                    &&& money@ == (MoneyView {
                        amount: self@.amount + other@.amount,
                        currency: self@.currency,
                    })
                },
                Err(e) => self@.currency != other@.currency && e@ == "Currency mismatch"@,
            },
    {
        if !self.same_currency(other) {
            return Err(String::from_str("Currency mismatch"));
        }
        Ok(Money { amount: self.amount + other.amount, currency: self.currency.clone() })
    }

    /// Tells whether `add` may be called with `other`.
    pub fn can_add(&self, other: &Money) -> (ok: bool)
        ensures
            ok == (self@.currency == other@.currency ==> self@.amount + other@.amount <= u64::MAX),
    {
        !self.same_currency(other) || other.amount <= u64::MAX - self.amount
    }

    /// The difference, in the common currency. The currencies are compared
    /// first, then the amounts.
    pub fn subtract(&self, other: &Money) -> (difference: Result<Money, String>)
        ensures
            match difference {
                Ok(money) => {
                    &&& self@.currency == other@.currency
                    &&& self@.amount >= other@.amount
                    &&& money@ == (MoneyView {
                        amount: (self@.amount - other@.amount) as nat,
                        currency: self@.currency,
                    })
                },
                Err(e) => if self@.currency != other@.currency {
                    e@ == "Currency mismatch"@
                } else {
                    self@.amount < other@.amount && e@ == "Insufficient funds"@
                },
            },
    {
        if !self.same_currency(other) {
            return Err(String::from_str("Currency mismatch"));
        }
        if self.amount < other.amount {
            return Err(String::from_str("Insufficient funds"));
        }
        Ok(Money { amount: self.amount - other.amount, currency: self.currency.clone() })
    }
}

} // verus!
