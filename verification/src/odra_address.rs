//! Odra's view of an address: the encoding of a Casper address, carried as bytes.
use vstd::prelude::*;

use crate::address::{
    address_bytes, address_decodes, lemma_address_bytes_injective, AccountHash, CasperAddress,
    ContractPackageHash,
};
use vstd::slice::slice_to_vec;

verus! {

/// An address as Odra carries it: the bytes that encode it.
#[derive(Clone, Debug, PartialEq, Eq)]
pub struct OdraAddress {
    pub bytes: Vec<u8>,
}

impl View for OdraAddress {
    type V = Seq<u8>;

    open spec fn view(&self) -> Seq<u8> {
        self.bytes@
    }
}

impl OdraAddress {
    /// The address with the given bytes.
    pub fn new(bytes: &[u8]) -> (address: OdraAddress)
        ensures
            address@ == bytes@,
    {
        OdraAddress { bytes: slice_to_vec(bytes) }
    }

    /// The bytes of the address.
    pub fn bytes(&self) -> (bytes: &[u8])
        ensures
            bytes@ == self@,
    {
        self.bytes.as_slice()
    }
}

impl CasperAddress {
    /// The Odra address that carries this address's encoding.
    pub fn into_odra_address(self) -> (address: OdraAddress)
        ensures
            address@ == address_bytes(self),
    {
        match self.to_bytes() {
            Ok(bytes) => OdraAddress::new(bytes.as_slice()),
            Err(_) => OdraAddress::new(&[]),
        }
    }

    /// The address encoded at the front of `address`'s bytes, where they start with the
    /// encoding of an account or contract key; `None` otherwise.
    pub fn try_from_odra_address(address: &OdraAddress) -> (casper_address: Option<CasperAddress>)
        ensures
            casper_address is Some <==> address_decodes(address@),
            casper_address matches Some(a) ==> address_bytes(a) == address@.take(33),
    {
        let bytes = address.bytes();
        if bytes.len() >= 33 && bytes[0] <= 1 {
            Some(CasperAddress::from_odra_address(address))
        } else {
            None
        }
    }

    /// The address encoded at the front of `address`'s bytes.
    pub fn from_odra_address(address: &OdraAddress) -> (casper_address: CasperAddress)
        requires
            address_decodes(address@),
        ensures
            address_bytes(casper_address) == address@.take(33),
    {
        match CasperAddress::from_bytes(address.bytes()) {
            Ok((casper_address, _)) => casper_address,
            Err(_) => CasperAddress::Account(AccountHash([0u8; 32])),
        }
    }
}

/// The first `n` bytes of `bytes`, padded with zeros where it is shorter.
pub open spec fn padded_prefix(bytes: Seq<u8>, n: nat) -> Seq<u8> {
    Seq::new(n, |i: int| if i < bytes.len() { bytes[i] } else { 0u8 })
}

/// An Odra address on the test environment's side.
#[derive(Clone, Debug, PartialEq, Eq)]
pub struct OdraAddressWrapper(pub OdraAddress);

impl OdraAddressWrapper {
    /// Wraps `address`.
    pub fn new(address: OdraAddress) -> (wrapper: Self)
        ensures
            wrapper.0 == address,
    {
        OdraAddressWrapper(address)
    }

    /// The wrapped address.
    pub fn deref(&self) -> (address: &OdraAddress)
        ensures
            *address == self.0,
    {
        &self.0
    }

    /// The Odra address of the account with hash `hash`.
    pub fn from_account_hash(hash: AccountHash) -> (wrapper: Self)
        ensures
            wrapper.0@ == address_bytes(CasperAddress::Account(hash)),
    {
        let casper_address: CasperAddress = CasperAddress::from(hash);
        OdraAddressWrapper(casper_address.into_odra_address())
    }

    /// The Odra address of the contract package with hash `hash`.
    pub fn from_contract_package_hash(hash: ContractPackageHash) -> (wrapper: Self)
        ensures
            wrapper.0@ == address_bytes(CasperAddress::Contract(hash)),
    {
        let casper_address: CasperAddress = CasperAddress::from(hash);
        OdraAddressWrapper(casper_address.into_odra_address())
    }

    /// The Odra address of `address`.
    pub fn from_casper_address(address: CasperAddress) -> (wrapper: Self)
        ensures
            wrapper.0@ == address_bytes(address),
    {
        match address.to_bytes() {
            Ok(bytes) => OdraAddressWrapper(OdraAddress::new(bytes.as_slice())),
            Err(_) => OdraAddressWrapper(OdraAddress::new(&[])),
        }
    }

    /// The Casper address encoded at the front of the wrapped address's bytes.
    pub fn into_casper_address(self) -> (address: CasperAddress)
        requires
            address_decodes(self.0@),
        ensures
            address_bytes(address) == self.0@.take(33),
    {
        CasperAddress::from_odra_address(&self.0)
    }

    /// The contract package hash made of the first 32 bytes of the wrapped address, padded
    /// with zeros where it is shorter. For an address made from a contract package hash these
    /// are the kind byte and the first 31 bytes of the hash.
    pub fn into_contract_package_hash(self) -> (hash: ContractPackageHash)
        ensures
            hash.0@ == padded_prefix(self.0@, 32),
    {
        let bytes = self.0.bytes();
        let mut out = [0u8; 32];
        let n: usize = if bytes.len() < 32 {
            bytes.len()
        } else {
            32
        };
        let mut i: usize = 0;
        while i < n
            invariant
                n <= 32,
                n <= bytes@.len(),
                n == 32 || n == bytes@.len(),
                bytes@ == self.0@,
                i <= n,
                forall|j: int| 0 <= j < i ==> out@[j] == bytes@[j],
                forall|j: int| i <= j < 32 ==> out@[j] == 0u8,
            decreases n - i,
        {
            out[i] = bytes[i];
            i = i + 1;
        }
        proof {
            assert(out@ =~= padded_prefix(self.0@, 32));
        }
        ContractPackageHash::new(out)
    }
}

/// An address converted to an Odra address and back is the same address.
pub proof fn lemma_odra_round_trip(address: CasperAddress, back: CasperAddress)
    requires
        address_bytes(back) == address_bytes(address).take(33),
    ensures
        address_decodes(address_bytes(address)),
        back == address,
{
    assert(address_bytes(address).take(33) =~= address_bytes(address));
    lemma_address_bytes_injective(back, address);
}

/// A contract package hash turned into an Odra address and back keeps only the kind byte of a
/// contract key (1) and the first 31 bytes of the hash.
pub proof fn lemma_contract_package_hash_through_odra(hash: ContractPackageHash)
    ensures
        padded_prefix(address_bytes(CasperAddress::Contract(hash)), 32) == seq![1u8]
            + hash.0@.take(31),
{
    assert(padded_prefix(address_bytes(CasperAddress::Contract(hash)), 32) =~= seq![1u8]
        + hash.0@.take(31));
}

} // verus!

