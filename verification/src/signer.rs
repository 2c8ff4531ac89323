//! The account that signed a message. The core never interprets it; it is
//! carried through so the host can attribute the transaction.

use vstd::prelude::*;

verus! {

/// An opaque bech32-style account address.
#[derive(Clone, Debug, PartialEq, Eq)]
pub struct Signer {
    pub account: String,
}

impl Signer {
    pub fn from_string(account: String) -> (r: Signer)
        ensures
            r.account@ == account@,
    {
        Signer { account }
    }

    pub fn as_str(&self) -> (r: &str)
        ensures
            r@ == self.account@,
    {
        self.account.as_str()
    }
}

} // verus!
