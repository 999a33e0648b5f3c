//! The catalog of fixed-width byte arrays: one name and one width for each
//! kind of key, nonce and network address.
//!
//! The widths are not chosen here. Each constant repeats the width that the
//! collaborator named in its comment publishes; a value of an alias has
//! exactly that many bytes, and no other width can be built.

use vstd::prelude::*;

verus! {

/// Bytes in a public key of the curve25519-xsalsa20-poly1305 box primitive.
pub const ASYM_PUBLIC_KEY_LEN: usize = 32;

/// Bytes in a secret key of the curve25519-xsalsa20-poly1305 box primitive.
pub const ASYM_SECRET_KEY_LEN: usize = 32;

/// Bytes in a nonce of the curve25519-xsalsa20-poly1305 box primitive.
pub const ASYM_NONCE_LEN: usize = 24;

/// Bytes in a key of the xsalsa20-poly1305 secret-box primitive.
pub const SYM_SECRET_KEY_LEN: usize = 32;

/// Bytes in a nonce of the xsalsa20-poly1305 secret-box primitive.
pub const SYM_NONCE_LEN: usize = 24;

/// Bytes in a public key of the ed25519 signing primitive.
pub const SIGN_PUBLIC_KEY_LEN: usize = 32;

/// Bytes in a secret key of the ed25519 signing primitive.
pub const SIGN_SECRET_KEY_LEN: usize = 64;

/// Bytes in a network address of the routing layer.
pub const XOR_NAME_LEN: usize = 32;

/// Array containing public key bytes
pub type AsymPublicKey = [u8; ASYM_PUBLIC_KEY_LEN];

/// Array containing private key bytes
pub type AsymSecretKey = [u8; ASYM_SECRET_KEY_LEN];

/// Array containing nonce bytes
pub type AsymNonce = [u8; ASYM_NONCE_LEN];

/// Array containing private key bytes
pub type SymSecretKey = [u8; SYM_SECRET_KEY_LEN];

/// Array containing nonce bytes
pub type SymNonce = [u8; SYM_NONCE_LEN];

/// Array containing sign public key bytes
pub type SignPublicKey = [u8; SIGN_PUBLIC_KEY_LEN];

/// Array containing sign private key bytes
pub type SignSecretKey = [u8; SIGN_SECRET_KEY_LEN];

/// Array containing `XorName` bytes
pub type XorNameArray = [u8; XOR_NAME_LEN];

/// Every value of an alias of the catalog has exactly the width published
/// for its primitive.
pub proof fn lemma_catalog_widths(
    asym_public: AsymPublicKey,
    asym_secret: AsymSecretKey,
    asym_nonce: AsymNonce,
    sym_secret: SymSecretKey,
    sym_nonce: SymNonce,
    sign_public: SignPublicKey,
    sign_secret: SignSecretKey,
    name: XorNameArray,
)
    ensures
        asym_public@.len() == ASYM_PUBLIC_KEY_LEN,
        asym_secret@.len() == ASYM_SECRET_KEY_LEN,
        asym_nonce@.len() == ASYM_NONCE_LEN,
        sym_secret@.len() == SYM_SECRET_KEY_LEN,
        sym_nonce@.len() == SYM_NONCE_LEN,
        sign_public@.len() == SIGN_PUBLIC_KEY_LEN,
        sign_secret@.len() == SIGN_SECRET_KEY_LEN,
        name@.len() == XOR_NAME_LEN,
{
}

/// Whether two arrays of one width hold the same bytes.
pub fn same_bytes<const N: usize>(left: &[u8; N], right: &[u8; N]) -> (same: bool)
    ensures
        same == (left@ == right@),
{
    let mut i: usize = 0;
    while i < N
        invariant
            i <= N,
            forall|j: int| 0 <= j < i ==> left@[j] == right@[j],
        decreases N - i,
    {
        if left[i] != right[i] {
            return false;
        }
        i += 1;
    }
    assert(left@ =~= right@);
    true
}

} // verus!
