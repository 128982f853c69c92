//! Casper addresses: an account hash or a contract package hash, their storage keys and
//! their byte encoding.
use vstd::prelude::*;

use casper_types::bytesrepr::{Error as EncodingError, FromBytes, ToBytes};
use casper_types::Key as CasperKey;
use vstd::slice::slice_subrange;

verus! {

#[verifier::external_type_specification]
#[verifier::external_body]
pub struct ExCasperKey(casper_types::Key);

/// The hash that identifies an account.
#[derive(Clone, Copy, Debug, PartialEq, Eq, PartialOrd, Ord, Hash)]
pub struct AccountHash(pub [u8; 32]);

/// The hash that identifies a contract package.
#[derive(Clone, Copy, Debug, PartialEq, Eq, PartialOrd, Ord, Hash)]
pub struct ContractPackageHash(pub [u8; 32]);

impl AccountHash {
    /// The account hash with the given bytes.
    pub fn new(value: [u8; 32]) -> (hash: AccountHash)
        ensures
            hash.0 == value,
    {
        AccountHash(value)
    }

    /// The bytes of the hash.
    pub fn value(&self) -> (value: [u8; 32])
        ensures
            value == self.0,
    {
        self.0
    }
}

impl ContractPackageHash {
    /// The contract package hash with the given bytes.
    pub fn new(value: [u8; 32]) -> (hash: ContractPackageHash)
        ensures
            hash.0 == value,
    {
        ContractPackageHash(value)
    }

    /// The bytes of the hash.
    pub fn value(&self) -> (value: [u8; 32])
        ensures
            value == self.0,
    {
        self.0
    }
}

/// An account hash or a contract package hash.
#[derive(Clone, Copy, Debug, PartialEq, Eq, PartialOrd, Ord, Hash)]
pub enum CasperAddress {
    /// Represents an account hash.
    Account(AccountHash),
    /// Represents a contract package hash.
    Contract(ContractPackageHash),
}

/// A storage key: the two kinds an address turns into, and every other kind as the
/// runtime's own key.
#[derive(Clone, Copy, Debug, PartialEq, Eq)]
pub enum StorageKey {
    /// The key of an account.
    Account(AccountHash),
    /// The key of a contract, by the raw bytes of its hash.
    Hash([u8; 32]),
    /// Any other kind of key.
    Other(casper_types::Key),
}

/// Errors of the byte encoding.
#[derive(Clone, Copy, Debug, PartialEq, Eq)]
pub enum BytesreprError {
    EarlyEndOfStream,
    Formatting,
    LeftOverBytes,
    OutOfMemory,
    ExceededRecursionDepth,
}

/// The first byte of an encoded key: its kind.
pub open spec fn key_tag_of(bytes: Seq<u8>) -> u8 {
    bytes[0]
}

/// Length of the encoded body that follows the kind byte of a key of kind `tag`: a key with
/// an unforgeable reference carries its access rights after the 32 address bytes, an era key
/// a `u64`, every other kind 32 bytes.
pub open spec fn key_body_len(tag: u8) -> int {
    if tag == 2 {
        33
    } else if tag == 5 {
        8
    } else {
        32
    }
}

/// The encoding of an account key (kind 0) or a contract key (kind 1).
pub open spec fn key_bytes(key: StorageKey) -> Seq<u8> {
    match key {
        StorageKey::Account(hash) => seq![0u8] + hash.0@,
        StorageKey::Hash(bytes) => seq![1u8] + bytes@,
        StorageKey::Other(_) => Seq::empty(),
    }
}

/// Whether `bytes` starts with a known kind byte followed by at least the body that kind needs.
pub open spec fn key_decodes(bytes: Seq<u8>) -> bool {
    bytes.len() > 0 && key_tag_of(bytes) <= 10 && bytes.len() >= 1 + key_body_len(key_tag_of(bytes))
}

/// A failed decoding of a key.
pub open spec fn key_decode_error(e: BytesreprError) -> Result<(StorageKey, usize), BytesreprError> {
    Err(e)
}

/// Encodes `key` with `casper_types::Key::to_bytes`. Claimed, as its source shows: the encoding
/// never fails, and an account or contract key is its kind byte (0 or 1) followed by the 32
/// hash bytes. Of any other kind of key nothing but success is claimed.
#[verifier::external_body]
fn key_to_bytes(key: &StorageKey) -> (res: Option<Vec<u8>>)
    ensures
        res is Some,
        !(key is Other) ==> res->Some_0@ == key_bytes(*key),
{
    let key = match key {
        StorageKey::Account(h) => casper_types::Key::Account(casper_types::account::AccountHash::new(h.0)),
        StorageKey::Hash(b) => casper_types::Key::Hash(*b),
        StorageKey::Other(k) => *k,
    };
    key.to_bytes().ok()
}

/// Length of the encoding of `key`, from `casper_types::Key::serialized_length`. Claimed: 33
/// for an account or contract key, as its source shows; nothing for other kinds.
#[verifier::external_body]
fn key_serialized_length(key: &StorageKey) -> (len: usize)
    ensures
        !(key is Other) ==> len == 33,
{
    let key = match key {
        StorageKey::Account(h) => casper_types::Key::Account(casper_types::account::AccountHash::new(h.0)),
        StorageKey::Hash(b) => casper_types::Key::Hash(*b),
        StorageKey::Other(k) => *k,
    };
    key.serialized_length()
}

/// Decodes a key from the front of `bytes` with `casper_types::Key::from_bytes`, returning it
/// with the number of bytes left after it. Claimed, as its source shows: an empty input, or one
/// shorter than the kind byte and the body its kind needs (`key_body_len`), ends early; a kind
/// above 10 is a formatting error; an access-rights byte above 7 after a reference's address
/// is a formatting error; otherwise the key is decoded, the bytes after it are left, and a
/// key of kind 0 or 1 is the account or contract key whose hash is the next 32 bytes. Of
/// kinds 2 to 10 it is claimed only that they decode to some other key.
#[verifier::external_body]
fn key_from_bytes(bytes: &[u8]) -> (res: Result<(StorageKey, usize), BytesreprError>)
    ensures
        bytes@.len() == 0 ==> res == key_decode_error(BytesreprError::EarlyEndOfStream),
        bytes@.len() > 0 && key_tag_of(bytes@) > 10 ==> res == key_decode_error(BytesreprError::Formatting),
        bytes@.len() > 0 && key_tag_of(bytes@) <= 10 && bytes@.len() < 1 + key_body_len(key_tag_of(bytes@))
            ==> res == key_decode_error(BytesreprError::EarlyEndOfStream),
        key_decodes(bytes@) && key_tag_of(bytes@) == 2 && bytes@[33] > 7
            ==> res == key_decode_error(BytesreprError::Formatting),
        key_decodes(bytes@) && !(key_tag_of(bytes@) == 2 && bytes@[33] > 7) ==> res is Ok,
        res is Ok ==> res->Ok_0.1 == bytes@.len() - 1 - key_body_len(key_tag_of(bytes@)),
        res is Ok && key_tag_of(bytes@) == 0 ==> res->Ok_0.0 is Account && key_bytes(res->Ok_0.0)
            == bytes@.take(33),
        res is Ok && key_tag_of(bytes@) == 1 ==> res->Ok_0.0 is Hash && key_bytes(res->Ok_0.0)
            == bytes@.take(33),
        res is Ok && key_tag_of(bytes@) > 1 ==> res->Ok_0.0 is Other,
{
    match casper_types::Key::from_bytes(bytes) {
        Ok((CasperKey::Account(h), rem)) => Ok((StorageKey::Account(AccountHash(h.value())), rem.len())),
        Ok((CasperKey::Hash(b), rem)) => Ok((StorageKey::Hash(b), rem.len())),
        Ok((other, rem)) => Ok((StorageKey::Other(other), rem.len())),
        Err(EncodingError::EarlyEndOfStream) => Err(BytesreprError::EarlyEndOfStream),
        Err(EncodingError::Formatting) => Err(BytesreprError::Formatting),
        Err(EncodingError::LeftOverBytes) => Err(BytesreprError::LeftOverBytes),
        Err(EncodingError::OutOfMemory) => Err(BytesreprError::OutOfMemory),
        Err(EncodingError::ExceededRecursionDepth) => Err(BytesreprError::ExceededRecursionDepth),
    }
}


/// The storage key of an address: an account key or a contract key with the package hash.
pub open spec fn key_of(address: CasperAddress) -> StorageKey {
    match address {
        CasperAddress::Account(hash) => StorageKey::Account(hash),
        CasperAddress::Contract(hash) => StorageKey::Hash(hash.0),
    }
}

/// The address a storage key stands for, if it is an account or contract key.
pub open spec fn address_of_key(key: StorageKey) -> Option<CasperAddress> {
    match key {
        StorageKey::Account(hash) => Some(CasperAddress::Account(hash)),
        StorageKey::Hash(bytes) => Some(CasperAddress::Contract(ContractPackageHash(bytes))),
        StorageKey::Other(_) => None,
    }
}

/// The encoding of an address: that of its storage key.
pub open spec fn address_bytes(address: CasperAddress) -> Seq<u8> {
    key_bytes(key_of(address))
}

/// Whether `bytes` starts with the encoding of an account or contract key.
pub open spec fn address_decodes(bytes: Seq<u8>) -> bool {
    key_decodes(bytes) && key_tag_of(bytes) <= 1
}

/// What decoding an address from the front of `bytes` gives: the address and the bytes after
/// it, or the error.
pub open spec fn decode_address(bytes: Seq<u8>) -> Result<(CasperAddress, Seq<u8>), BytesreprError> {
    if bytes.len() == 0 {
        Err(BytesreprError::EarlyEndOfStream)
    } else if key_tag_of(bytes) > 10 {
        Err(BytesreprError::Formatting)
    } else if bytes.len() < 1 + key_body_len(key_tag_of(bytes)) {
        Err(BytesreprError::EarlyEndOfStream)
    } else if key_tag_of(bytes) > 1 {
        Err(BytesreprError::Formatting)
    } else {
        Ok((choose|a: CasperAddress| address_bytes(a) == bytes.take(33), bytes.skip(33)))
    }
}

impl CasperAddress {
    /// Returns the inner account hash if `self` is the `Account` variant.
    pub fn as_account_hash(&self) -> (hash: Option<&AccountHash>)
        ensures
            match *self {
                CasperAddress::Account(h) => hash matches Some(x) && *x == h,
                CasperAddress::Contract(_) => hash is None,
            },
    {
        if let CasperAddress::Account(v) = self {
            Some(v)
        } else {
            None
        }
    }

    /// Returns the inner contract hash if `self` is the `Contract` variant.
    pub fn as_contract_package_hash(&self) -> (hash: Option<&ContractPackageHash>)
        ensures
            match *self {
                CasperAddress::Contract(h) => hash matches Some(x) && *x == h,
                CasperAddress::Account(_) => hash is None,
            },
    {
        if let CasperAddress::Contract(v) = self {
            Some(v)
        } else {
            None
        }
    }

    /// Whether the address is that of a contract.
    pub fn is_contract(&self) -> (contract: bool)
        ensures
            contract == (*self is Contract),
    {
        self.as_contract_package_hash().is_some()
    }

    /// The address of the account or contract that `key` stands for; any other kind of key
    /// is refused.
    pub fn try_from(key: StorageKey) -> (res: Result<CasperAddress, String>)
        ensures
            res is Ok <==> address_of_key(key) is Some,
            res matches Ok(a) ==> address_of_key(key) == Some(a),
            res matches Err(msg) ==> msg@ == "Unsupport Key type."@,
    {
        match key {
            StorageKey::Account(account_hash) => Ok(CasperAddress::Account(account_hash)),
            StorageKey::Hash(contract_package_hash) => Ok(
                CasperAddress::Contract(ContractPackageHash::new(contract_package_hash)),
            ),
            StorageKey::Other(_) => Err(String::from_str("Unsupport Key type.")),
        }
    }

    /// The value type of an address: a key.
    pub fn cl_type() -> (ty: crate::codegen::ty::ClType)
        ensures
            ty is Key,
    {
        crate::codegen::ty::ClType::Key
    }

    /// Encodes the address as its storage key.
    pub fn to_bytes(&self) -> (res: Result<Vec<u8>, BytesreprError>)
        ensures
            res matches Ok(bytes) && bytes@ == address_bytes(*self),
    {
        let key = StorageKey::from(*self);
        match key_to_bytes(&key) {
            Some(bytes) => Ok(bytes),
            // The runtime's encoding of a key does not fail; an allocation failure is the
            // only error it could report.
            None => Err(BytesreprError::OutOfMemory),
        }
    }

    /// Length of the encoding of the address.
    pub fn serialized_length(&self) -> (len: usize)
        ensures
            len == 33,
            len == address_bytes(*self).len(),
    {
        let key = StorageKey::from(*self);
        key_serialized_length(&key)
    }

    /// Decodes an address from the front of `bytes`, returning it with the bytes after it.
    pub fn from_bytes(bytes: &[u8]) -> (res: Result<(CasperAddress, &[u8]), BytesreprError>)
        ensures
            res is Ok <==> decode_address(bytes@) is Ok,
            res matches Ok((a, rest)) ==> address_bytes(a) == bytes@.take(33) && rest@ == bytes@.skip(33),
            res matches Ok((a, rest)) ==> decode_address(bytes@) == Ok::<(CasperAddress, Seq<u8>), BytesreprError>((a, rest@)),
            res matches Err(e) ==> decode_address(bytes@) == Err::<(CasperAddress, Seq<u8>), BytesreprError>(e),
    {
        match key_from_bytes(bytes) {
            Ok((StorageKey::Account(account_hash), rem)) => {
                let address = CasperAddress::Account(account_hash);
                proof {
                    lemma_decoded_address_is_chosen(address, bytes@);
                }
                Ok((address, slice_subrange(bytes, bytes.len() - rem, bytes.len())))
            },
            Ok((StorageKey::Hash(raw_contract_package_hash), rem)) => {
                let address = CasperAddress::Contract(
                    ContractPackageHash::new(raw_contract_package_hash),
                );
                proof {
                    lemma_decoded_address_is_chosen(address, bytes@);
                }
                Ok((address, slice_subrange(bytes, bytes.len() - rem, bytes.len())))
            },
            Ok((StorageKey::Other(_), _)) => Err(BytesreprError::Formatting),
            Err(e) => Err(e),
        }
    }
}

impl From<ContractPackageHash> for CasperAddress {
    fn from(contract_package_hash: ContractPackageHash) -> (address: Self) {
        CasperAddress::Contract(contract_package_hash)
    }
}

impl vstd::std_specs::convert::FromSpecImpl<ContractPackageHash> for CasperAddress {
    open spec fn obeys_from_spec() -> bool {
        true
    }

    open spec fn from_spec(contract_package_hash: ContractPackageHash) -> Self {
        CasperAddress::Contract(contract_package_hash)
    }
}

impl From<AccountHash> for CasperAddress {
    fn from(account_hash: AccountHash) -> (address: Self) {
        CasperAddress::Account(account_hash)
    }
}

impl vstd::std_specs::convert::FromSpecImpl<AccountHash> for CasperAddress {
    open spec fn obeys_from_spec() -> bool {
        true
    }

    open spec fn from_spec(account_hash: AccountHash) -> Self {
        CasperAddress::Account(account_hash)
    }
}

impl From<CasperAddress> for StorageKey {
    fn from(address: CasperAddress) -> (key: Self) {
        match address {
            CasperAddress::Account(account_hash) => StorageKey::Account(account_hash),
            CasperAddress::Contract(contract_package_hash) => StorageKey::Hash(
                contract_package_hash.value(),
            ),
        }
    }
}

impl vstd::std_specs::convert::FromSpecImpl<CasperAddress> for StorageKey {
    open spec fn obeys_from_spec() -> bool {
        true
    }

    open spec fn from_spec(address: CasperAddress) -> Self {
        key_of(address)
    }
}

/// Two addresses with the same encoding are the same address.
pub proof fn lemma_address_bytes_injective(a: CasperAddress, b: CasperAddress)
    requires
        address_bytes(a) == address_bytes(b),
    ensures
        a == b,
{
    broadcast use vstd::array::group_array_axioms;

    let ba = address_bytes(a);
    let bb = address_bytes(b);
    assert(ba[0] == bb[0]);
    match (a, b) {
        (CasperAddress::Account(x), CasperAddress::Account(y)) => {
            assert forall|i: int| 0 <= i < 32 implies x.0[i] == y.0[i] by {
                assert(ba[i + 1] == x.0@[i]);
                assert(bb[i + 1] == y.0@[i]);
            }
            assert(x.0 =~= y.0);
        },
        (CasperAddress::Contract(x), CasperAddress::Contract(y)) => {
            assert forall|i: int| 0 <= i < 32 implies x.0[i] == y.0[i] by {
                assert(ba[i + 1] == x.0@[i]);
                assert(bb[i + 1] == y.0@[i]);
            }
            assert(x.0 =~= y.0);
        },
        _ => {},
    }
}

proof fn lemma_decoded_address_is_chosen(a: CasperAddress, bytes: Seq<u8>)
    requires
        address_bytes(a) == bytes.take(33),
    ensures
        (choose|c: CasperAddress| address_bytes(c) == bytes.take(33)) == a,
{
    let c = choose|c: CasperAddress| address_bytes(c) == bytes.take(33);
    lemma_address_bytes_injective(c, a);
}

/// An address turned into its storage key and back is the same address, and the only key
/// that turns into a given address is that address's key.
pub proof fn lemma_key_round_trip(address: CasperAddress, key: StorageKey)
    ensures
        address_of_key(key_of(address)) == Some(address),
        address_of_key(key) == Some(address) ==> key == key_of(address),
{
}

/// Decoding the encoding of an address, followed by any bytes, gives back the address and
/// those bytes.
pub proof fn lemma_bytes_round_trip(address: CasperAddress, extra: Seq<u8>)
    ensures
        address_bytes(address).len() == 33,
        decode_address(address_bytes(address) + extra) == Ok::<(CasperAddress, Seq<u8>), BytesreprError>((address, extra)),
{
    let bytes = address_bytes(address) + extra;
    assert(bytes.take(33) =~= address_bytes(address));
    assert(bytes.skip(33) =~= extra);
    lemma_decoded_address_is_chosen(address, bytes);
}

} // verus!

