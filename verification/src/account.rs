use vstd::prelude::*;

verus! {

/// A 20-byte account address, held as plain integers: the four high-order
/// bytes in `hi`, the sixteen low-order bytes in `lo`.
///
/// The all-zero address is the sentinel for "no account": an unowned token,
/// a cleared approval, an unregistered site.
#[derive(Clone, Copy, Debug, PartialEq, Eq, Structural, Hash)]
pub struct Account {
    pub hi: u32,
    pub lo: u128,
}

impl Account {
    /// The zero account as a specification value.
    pub open spec fn zero_spec() -> Account {
        Account { hi: 0, lo: 0 }
    }

    /// The zero account.
    pub fn zero() -> (a: Account)
        ensures
            a == Account::zero_spec(),
    {
        Account { hi: 0, lo: 0 }
    }

    /// Whether this is the zero account.
    pub fn is_zero(&self) -> (r: bool)
        ensures
            r == (*self == Account::zero_spec()),
    {
        self.hi == 0 && self.lo == 0
    }
}

} // verus!
