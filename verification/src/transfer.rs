use vstd::prelude::*;
use crate::address::Address;

verus! {

/// What a derived authority stands for: the address it controls and the
/// seeds that prove it.
pub struct DerivedAuthorityView {
    pub address: Address,
    pub seeds: Seq<Seq<u8>>,
}

/// The capability to move funds out of a card's escrow account. No private
/// key stands behind it: it is the card's derived address together with the
/// seeds that derive it. Only the ledger's own operations make one.
#[derive(Clone, Debug, PartialEq, Eq)]
pub struct DerivedAuthority {
    address: Address,
    seeds: Vec<Vec<u8>>,
}

impl View for DerivedAuthority {
    type V = DerivedAuthorityView;

    closed spec fn view(&self) -> DerivedAuthorityView {
        DerivedAuthorityView { address: self.address, seeds: self.seeds.deep_view() }
    }
}

impl DerivedAuthority {
    /// The authority over `address` that `seeds` prove.
    pub(crate) fn new(address: Address, seeds: Vec<Vec<u8>>) -> (authority: DerivedAuthority)
        ensures
            authority@ == (DerivedAuthorityView { address, seeds: seeds.deep_view() }),
    {
        DerivedAuthority { address, seeds }
    }

    /// The address that the authority controls.
    pub fn address(&self) -> (address: Address)
        ensures
            address == self@.address,
    {
        self.address
    }

    /// The seeds to present to the transfer service in place of a signature.
    pub fn signer_seeds(&self) -> (seeds: &Vec<Vec<u8>>)
        ensures
            seeds.deep_view() == self@.seeds,
    {
        &self.seeds
    }
}

/// What authorizes a transfer.
#[derive(Clone, Debug, PartialEq, Eq)]
pub enum Capability {
    /// The signature of the owner of the source account.
    Owner(Address),
    /// The derived authority of a card over its escrow account.
    Derived(DerivedAuthority),
}

/// A request to the transfer service: move `amount` from one holding account
/// to another, under a capability.
#[derive(Clone, Debug, PartialEq, Eq)]
pub struct Transfer {
    pub from: Address,
    pub to: Address,
    pub amount: u64,
    pub authority: Capability,
}

impl Transfer {
    /// The request is authorized by the signature of `owner`.
    pub open spec fn signed_by(self, owner: Address) -> bool {
        self.authority == Capability::Owner(owner)
    }

    /// The request is authorized by the derived authority over `address`
    /// that `seeds` prove.
    pub open spec fn derived_from(self, address: Address, seeds: Seq<Seq<u8>>) -> bool {
        match self.authority {
            Capability::Derived(authority) => authority@ == (DerivedAuthorityView { address, seeds }),
            Capability::Owner(_) => false,
        }
    }
}

} // verus!
