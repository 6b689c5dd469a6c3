//! Addresses as plain values.
use vstd::prelude::*;

verus! {

/// A Stellar account or contract, by its strkey (`G...` or `C...`).
#[derive(Debug, PartialEq, Eq)]
pub struct Strkey {
    pub text: String,
}

impl View for Strkey {
    type V = Seq<char>;

    open spec fn view(&self) -> Seq<char> {
        self.text@
    }
}

impl Clone for Strkey {
    fn clone(&self) -> (copy: Self)
        ensures
            copy@ == self@,
    {
        Strkey { text: self.text.clone() }
    }
}

impl Strkey {
    pub fn new(text: String) -> (address: Strkey)
        ensures
            address@ == text@,
    {
        Strkey { text }
    }

    /// Whether both name the same account or contract.
    pub fn same(&self, other: &Strkey) -> (same: bool)
        ensures
            same == (self@ == other@),
    {
        self.text == other.text
    }
}

} // verus!
