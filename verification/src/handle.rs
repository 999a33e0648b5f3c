//! The conversion contract: how a native value is rebuilt from a handle that
//! code on the far side of the boundary supplies.
//!
//! A handle is either null or refers to memory laid out as the record's fixed
//! representation. That the memory stays valid and unchanged while a
//! conversion runs is the supplier's obligation; whoever makes a handle from
//! a foreign address vouches for it. Nothing here takes ownership of that
//! memory or releases it.

use vstd::prelude::*;

verus! {

/// Why a conversion from a handle failed.
#[derive(Clone, Copy, Debug, PartialEq, Eq)]
pub enum ConversionError {
    /// The handle was null.
    NullHandle,
}

/// A read-only handle to a record in memory that the far side owns.
///
/// The only thing to be done with a handle, besides asking whether it is
/// null, is to rebuild a native value from it with
/// [`ReprC::clone_from_repr_c`].
pub struct Handle<'a, T> {
    target: Option<&'a T>,
}

impl<'a, T> View for Handle<'a, T> {
    type V = Option<T>;

    /// The record that the handle refers to, or `None` for the null handle.
    closed spec fn view(&self) -> Option<T> {
        match self.target {
            Some(record) => Some(*record),
            None => None,
        }
    }
}

impl<'a, T> Handle<'a, T> {
    /// The null handle.
    pub fn null() -> (handle: Self)
        ensures
            handle@ is None,
    {
        Handle { target: None }
    }

    /// A handle to `record`.
    pub fn from_ref(record: &'a T) -> (handle: Self)
        ensures
            handle@ == Some(*record),
    {
        Handle { target: Some(record) }
    }

    /// Whether the handle is null.
    pub fn is_null(&self) -> (null: bool)
        ensures
            null == (self@ is None),
    {
        self.target.is_none()
    }

    /// The record behind the handle, borrowed for as long as the far side's
    /// memory is.
    pub(crate) fn target(&self) -> (target: Option<&'a T>)
        ensures
            match target {
                Some(record) => self@ == Some(*record),
                None => self@ is None,
            },
    {
        self.target
    }
}

/// What a conversion returns for a handle with view `source`: a copy of the
/// record, or the failure that a null handle gives.
pub open spec fn reconstruction<T>(source: Option<T>) -> Result<T, ConversionError> {
    match source {
        Some(record) => Ok(record),
        None => Err(ConversionError::NullHandle),
    }
}

/// A type that can cross the boundary: it has a fixed layout, and a native
/// value of it can be rebuilt from a handle.
pub trait ReprC: Sized {
    /// Rebuilds an owned value from `repr_c` by copying the record behind it.
    ///
    /// Fails if and only if the handle is null. The result borrows nothing:
    /// it outlives the memory behind the handle.
    fn clone_from_repr_c(repr_c: Handle<'_, Self>) -> (res: Result<Self, ConversionError>)
        ensures
            res == reconstruction(repr_c@),
            res is Err <==> repr_c@ is None,
    ;
}

/// A null handle never converts, whatever the record type.
pub proof fn lemma_null_handle_fails<T>(handle: Handle<'_, T>)
    requires
        handle@ is None,
    ensures
        reconstruction(handle@) == Err::<T, ConversionError>(ConversionError::NullHandle),
{
}

/// A record written behind a handle and rebuilt from it comes back equal in
/// every field.
pub proof fn lemma_round_trip<T>(record: T, handle: Handle<'_, T>)
    requires
        handle@ == Some(record),
    ensures
        reconstruction(handle@) == Ok::<T, ConversionError>(record),
{
}

} // verus!
