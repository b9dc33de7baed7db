//! The guards that stand at the start of the entry points. A guard reads and
//! never writes: it lets the call pass or names the error that ends it.

use crate::address::Address;
use crate::error::Error;
use crate::metadata::WrapperMetadata;
use vstd::prelude::*;

verus! {

/// Whether `principal` is one of the principals that signed the call.
pub fn signed_by(signers: &Vec<Address>, principal: &Address) -> (r: bool)
    ensures
        r == signers@.contains(*principal),
{
    let mut i: usize = 0;
    while i < signers.len()
        invariant
            i <= signers@.len(),
            forall|k: int| 0 <= k < i ==> signers@[k] != *principal,
        decreases signers@.len() - i,
    {
        if signers[i].same(principal) {
            return true;
        }
        i += 1;
    }
    false
}

/// Passes, with the metadata, when the wrapper is initialized.
pub fn is_contract_initialized_validation(metadata: &Option<WrapperMetadata>) -> (r: Result<
    WrapperMetadata,
    Error,
>)
    ensures
        r == match *metadata {
            Some(m) => Ok::<WrapperMetadata, Error>(m),
            None => Err(Error::NotInitialized),
        },
{
    match metadata {
        Some(m) => Ok(*m),
        None => Err(Error::NotInitialized),
    }
}

/// Passes when the wrapper is not initialized yet.
pub fn is_contract_not_initialized_validation(metadata: &Option<WrapperMetadata>) -> (r: Result<
    (),
    Error,
>)
    ensures
        r == if *metadata is None {
            Ok::<(), Error>(())
        } else {
            Err(Error::AlreadyInitialized)
        },
{
    match metadata {
        Some(_) => Err(Error::AlreadyInitialized),
        None => Ok(()),
    }
}

/// Passes, with the metadata, when the stored admin signed the call. Before
/// initialization there is no admin, and the guard fails.
pub fn is_admin_validation(metadata: &Option<WrapperMetadata>, signers: &Vec<Address>) -> (r:
    Result<WrapperMetadata, Error>)
    ensures
        r == match *metadata {
            Some(m) if signers@.contains(m.admin) => Ok::<WrapperMetadata, Error>(m),
            _ => Err(Error::Unauthorized),
        },
{
    match metadata {
        Some(m) => {
            if signed_by(signers, &m.admin) {
                Ok(*m)
            } else {
                Err(Error::Unauthorized)
            }
        },
        None => Err(Error::Unauthorized),
    }
}

/// Passes when the wrapper holds the legacy asset's issuing authority.
pub fn is_wrapper_active_validation(metadata: &WrapperMetadata) -> (r: Result<(), Error>)
    ensures
        r == if metadata.is_active {
            Ok::<(), Error>(())
        } else {
            Err(Error::WrapperInactive)
        },
{
    if metadata.is_active {
        Ok(())
    } else {
        Err(Error::WrapperInactive)
    }
}

} // verus!
