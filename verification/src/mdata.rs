//! The record that locates a mutable-data container and carries up to two
//! generations of its symmetric encryption material.
//!
//! The record is flat: each generation is a flag beside a key and a nonce
//! that are always present in memory. Native code reads a generation as an
//! `Option`, through [`MDataInfo::enc_info`] and [`MDataInfo::new_enc_info`],
//! and so never takes the bytes of an absent generation for key material.

use crate::handle::{reconstruction, ConversionError, Handle, ReprC};
use crate::keys::{
    same_bytes, SymNonce, SymSecretKey, XorNameArray, SYM_NONCE_LEN, SYM_SECRET_KEY_LEN,
};
use vstd::prelude::*;

verus! {

/// FFI wrapper for `MDataInfo`
#[derive(Clone)]
pub struct MDataInfo {
    /// Name of the mutable data.
    pub name: XorNameArray,
    /// Type tag of the mutable data.
    pub type_tag: u64,
    /// Flag indicating whether the encryption info (`enc_key` and `enc_nonce`)
    /// is set.
    pub has_enc_info: bool,
    /// Encryption key. Meaningful only if `has_enc_info` is `true`.
    pub enc_key: SymSecretKey,
    /// Encryption nonce. Meaningful only if `has_enc_info` is `true`.
    pub enc_nonce: SymNonce,
    /// Flag indicating whether the new encryption info is set.
    pub has_new_enc_info: bool,
    /// New encryption key (used for two-phase reencryption). Meaningful only if
    /// `has_new_enc_info` is `true`.
    pub new_enc_key: SymSecretKey,
    /// New encryption nonce (used for two-phase reencryption). Meaningful only if
    /// `has_new_enc_info` is `true`.
    pub new_enc_nonce: SymNonce,
}

/// One generation of encryption material as native code sees it: the bytes
/// of the key and of the nonce if the generation is present.
pub open spec fn epoch(present: bool, key: SymSecretKey, nonce: SymNonce) -> Option<
    (Seq<u8>, Seq<u8>),
> {
    if present {
        Some((key@, nonce@))
    } else {
        None
    }
}

/// The view of a generation handed over as an `Option` of arrays.
pub open spec fn epoch_of(info: Option<(SymSecretKey, SymNonce)>) -> Option<(Seq<u8>, Seq<u8>)> {
    match info {
        Some((key, nonce)) => Some((key@, nonce@)),
        None => None,
    }
}

/// Whether every byte of `bytes` is zero.
pub open spec fn is_blank(bytes: Seq<u8>) -> bool {
    forall|i: int| 0 <= i < bytes.len() ==> bytes[i] == 0
}

impl MDataInfo {
    /// The current generation, `None` while `has_enc_info` is false.
    pub open spec fn enc_epoch(self) -> Option<(Seq<u8>, Seq<u8>)> {
        epoch(self.has_enc_info, self.enc_key, self.enc_nonce)
    }

    /// The generation being rotated in, `None` while `has_new_enc_info` is
    /// false.
    pub open spec fn new_enc_epoch(self) -> Option<(Seq<u8>, Seq<u8>)> {
        epoch(self.has_new_enc_info, self.new_enc_key, self.new_enc_nonce)
    }

    /// Two records mean the same to native code: same container, same type,
    /// and the same material in each generation that is present. The bytes
    /// of an absent generation do not count.
    pub open spec fn equivalent_to(self, other: MDataInfo) -> bool {
        &&& self.name@ == other.name@
        &&& self.type_tag == other.type_tag
        &&& self.enc_epoch() == other.enc_epoch()
        &&& self.new_enc_epoch() == other.new_enc_epoch()
    }

    /// Flattens a location and its generations into a record. The key and
    /// nonce of an absent generation are filled with zero bytes.
    pub fn new(
        name: XorNameArray,
        type_tag: u64,
        enc_info: Option<(SymSecretKey, SymNonce)>,
        new_enc_info: Option<(SymSecretKey, SymNonce)>,
    ) -> (info: MDataInfo)
        ensures
            info.name == name,
            info.type_tag == type_tag,
            info.enc_epoch() == epoch_of(enc_info),
            info.new_enc_epoch() == epoch_of(new_enc_info),
            enc_info is None ==> is_blank(info.enc_key@) && is_blank(info.enc_nonce@),
            new_enc_info is None ==> is_blank(info.new_enc_key@) && is_blank(
                info.new_enc_nonce@,
            ),
    {
        let (has_enc_info, enc_key, enc_nonce) = match enc_info {
            Some((key, nonce)) => (true, key, nonce),
            None => (false, [0u8; SYM_SECRET_KEY_LEN], [0u8; SYM_NONCE_LEN]),
        };
        let (has_new_enc_info, new_enc_key, new_enc_nonce) = match new_enc_info {
            Some((key, nonce)) => (true, key, nonce),
            None => (false, [0u8; SYM_SECRET_KEY_LEN], [0u8; SYM_NONCE_LEN]),
        };
        MDataInfo {
            name,
            type_tag,
            has_enc_info,
            enc_key,
            enc_nonce,
            has_new_enc_info,
            new_enc_key,
            new_enc_nonce,
        }
    }

    /// The key and nonce of the current generation, if there is one.
    pub fn enc_info(&self) -> (info: Option<(SymSecretKey, SymNonce)>)
        ensures
            epoch_of(info) == self.enc_epoch(),
            info matches Some((key, nonce)) ==> key == self.enc_key && nonce == self.enc_nonce,
    {
        if self.has_enc_info {
            Some((self.enc_key, self.enc_nonce))
        } else {
            None
        }
    }

    /// The key and nonce of the generation being rotated in, if there is one.
    pub fn new_enc_info(&self) -> (info: Option<(SymSecretKey, SymNonce)>)
        ensures
            epoch_of(info) == self.new_enc_epoch(),
            info matches Some((key, nonce)) ==> key == self.new_enc_key && nonce
                == self.new_enc_nonce,
    {
        if self.has_new_enc_info {
            Some((self.new_enc_key, self.new_enc_nonce))
        } else {
            None
        }
    }

    /// Whether `self` and `other` mean the same to native code.
    pub fn equivalent(&self, other: &MDataInfo) -> (same: bool)
        ensures
            same == self.equivalent_to(*other),
    {
        same_bytes(&self.name, &other.name) && self.type_tag == other.type_tag && same_epoch(
            self.has_enc_info,
            &self.enc_key,
            &self.enc_nonce,
            other.has_enc_info,
            &other.enc_key,
            &other.enc_nonce,
        ) && same_epoch(
            self.has_new_enc_info,
            &self.new_enc_key,
            &self.new_enc_nonce,
            other.has_new_enc_info,
            &other.new_enc_key,
            &other.new_enc_nonce,
        )
    }
}

/// Whether two flat generations are the same generation: both absent, or
/// both present with the same key and nonce.
fn same_epoch(
    present: bool,
    key: &SymSecretKey,
    nonce: &SymNonce,
    other_present: bool,
    other_key: &SymSecretKey,
    other_nonce: &SymNonce,
) -> (same: bool)
    ensures
        same == (epoch(present, *key, *nonce) == epoch(other_present, *other_key, *other_nonce)),
{
    if present != other_present {
        false
    } else if !present {
        true
    } else {
        same_bytes(key, other_key) && same_bytes(nonce, other_nonce)
    }
}

impl ReprC for MDataInfo {
    fn clone_from_repr_c(repr_c: Handle<'_, MDataInfo>) -> (res: Result<
        MDataInfo,
        ConversionError,
    >) {
        match repr_c.target() {
            Some(record) => Ok(
                MDataInfo {
                    name: record.name,
                    type_tag: record.type_tag,
                    has_enc_info: record.has_enc_info,
                    enc_key: record.enc_key,
                    enc_nonce: record.enc_nonce,
                    has_new_enc_info: record.has_new_enc_info,
                    new_enc_key: record.new_enc_key,
                    new_enc_nonce: record.new_enc_nonce,
                },
            ),
            None => Err(ConversionError::NullHandle),
        }
    }
}

/// While the current generation is absent, the bytes in its key and nonce
/// change nothing: two records that differ only there are equivalent, and
/// both read as having no current generation.
pub proof fn lemma_absent_enc_info_is_ignored(a: MDataInfo, b: MDataInfo)
    requires
        !a.has_enc_info,
        !b.has_enc_info,
        a.name == b.name,
        a.type_tag == b.type_tag,
        a.has_new_enc_info == b.has_new_enc_info,
        a.new_enc_key == b.new_enc_key,
        a.new_enc_nonce == b.new_enc_nonce,
    ensures
        a.enc_epoch() is None,
        b.enc_epoch() is None,
        a.equivalent_to(b),
{
}

/// While the generation being rotated in is absent, the bytes in its key and
/// nonce change nothing.
pub proof fn lemma_absent_new_enc_info_is_ignored(a: MDataInfo, b: MDataInfo)
    requires
        !a.has_new_enc_info,
        !b.has_new_enc_info,
        a.name == b.name,
        a.type_tag == b.type_tag,
        a.has_enc_info == b.has_enc_info,
        a.enc_key == b.enc_key,
        a.enc_nonce == b.enc_nonce,
    ensures
        a.new_enc_epoch() is None,
        b.new_enc_epoch() is None,
        a.equivalent_to(b),
{
}

/// A record rebuilt from a handle equals the record behind the handle in
/// every field, and so holds the same two generations.
pub proof fn lemma_mdata_round_trip(record: MDataInfo, handle: Handle<'_, MDataInfo>)
    requires
        handle@ == Some(record),
    ensures
        reconstruction(handle@) matches Ok(copy) && copy == record && copy.enc_epoch()
            == record.enc_epoch() && copy.new_enc_epoch() == record.new_enc_epoch()
            && copy.equivalent_to(record),
{
}

} // verus!
