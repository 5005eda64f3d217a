//! Account identities as the access-control logic compares them.

use vstd::prelude::*;

verus! {

/// An account, identified by its strkey text (`G...` for accounts, `C...` for contracts).
/// Two accounts are the same exactly when their strkeys are equal.
pub struct AccountId {
    strkey: String,
}

impl View for AccountId {
    type V = Seq<char>;

    closed spec fn view(&self) -> Seq<char> {
        self.strkey@
    }
}

impl AccountId {
    /// The account whose strkey is `strkey`.
    pub fn new(strkey: String) -> (id: AccountId)
        ensures
            id@ == strkey@,
    {
        AccountId { strkey }
    }

    /// The strkey of the account.
    pub fn strkey(&self) -> (s: &str)
        ensures
            s@ == self@,
    {
        self.strkey.as_str()
    }

    /// Whether `self` and `other` name the same account.
    pub fn same_as(&self, other: &AccountId) -> (b: bool)
        ensures
            b == (self@ == other@),
    {
        self.strkey == other.strkey
    }

    /// A copy of the identity.
    pub fn duplicate(&self) -> (id: AccountId)
        ensures
            id@ == self@,
    {
        AccountId { strkey: self.strkey.clone() }
    }
}

} // verus!
