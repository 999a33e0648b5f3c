//! Fixed-layout records and key material that cross the boundary between the
//! storage client and code that manages its own memory, together with the
//! rule by which a native value is rebuilt from a handle that such code
//! supplies.

pub mod account;
pub mod handle;
pub mod keys;
pub mod mdata;

pub use account::AccountInfo;
pub use handle::{ConversionError, Handle, ReprC};
pub use keys::{
    AsymNonce, AsymPublicKey, AsymSecretKey, SignPublicKey, SignSecretKey, SymNonce,
    SymSecretKey, XorNameArray,
};
pub use mdata::MDataInfo;
