use vstd::prelude::*;

use crate::error::AuthError;
use crate::role::Role;

verus! {

/// Flags of a product.
#[derive(Clone, Copy, Debug, PartialEq, Eq, Structural)]
pub struct ProductFlags {
    /// When false, only an admin may change the product.
    pub modifiable: bool,
    pub new_product: bool,
}

impl ProductFlags {
    /// A product anyone with access may change, not marked as new.
    pub fn default() -> (f: ProductFlags)
        ensures
            f.modifiable,
            !f.new_product,
    {
        ProductFlags { modifiable: true, new_product: false }
    }
}

/// Whether a caller with `role` may change a product with `flags`: an
/// unmodifiable product is the admin's alone.
pub fn product_assert_permission(flags: &ProductFlags, role: Role) -> (r: Result<(), AuthError>)
    ensures
        r is Ok <==> (flags.modifiable || role == Role::Admin),
        r matches Err(e) ==> e == AuthError::AccessDenied,
{
    if !flags.modifiable && role != Role::Admin {
        return Err(AuthError::AccessDenied);
    }
    Ok(())
}

} // verus!
