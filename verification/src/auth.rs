//! The authorization gate.
//!
//! A pure decision over the caller identity and the product record: the
//! anonymous identity may never create, and only the current holder may
//! mutate an existing record. Read operations need no authorization.

use vstd::prelude::*;
use crate::identity::Identity;
use crate::model::Error;
use crate::model::Product;

verus! {

/// Decides whether `caller` may create a product: every identity but the
/// anonymous one may.
pub fn authorize_create(caller: &Identity) -> (r: Result<(), Error>)
    ensures
        caller.is_anonymous() ==> r == Err::<(), Error>(Error::Unauthorized),
        !caller.is_anonymous() ==> r == Ok::<(), Error>(()),
{
    if caller.check_anonymous() {
        Err(Error::Unauthorized)
    } else {
        Ok(())
    }
}

/// Decides whether `caller` may mutate `product`: only its current holder
/// may.
pub fn authorize_mutation(caller: &Identity, product: &Product) -> (r: Result<(), Error>)
    ensures
        caller@ == product@.manufacturer ==> r == Ok::<(), Error>(()),
        caller@ != product@.manufacturer ==> r == Err::<(), Error>(Error::Unauthorized),
{
    if caller.same_as(&product.manufacturer) {
        Ok(())
    } else {
        Err(Error::Unauthorized)
    }
}

} // verus!
