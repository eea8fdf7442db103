//! Which attached devices are keyboards that this library drives.

use crate::error::CherryRgbError;
use crate::session::CHERRY_USB_VID;
use vstd::prelude::*;

verus! {

/// Product id of the Cherry KC 1000, which does not speak the protocol.
pub const UNSUPPORTED_PRODUCT: u16 = 0xc122;

/// Whether a product id is not on the list of unsupported products.
pub open spec fn supported(product_id: u16) -> bool {
    product_id != UNSUPPORTED_PRODUCT
}

/// Whether the keyboard with this product id speaks the protocol.
pub fn is_supported(product_id: u16) -> (ok: bool)
    ensures
        ok == supported(product_id),
{
    product_id != UNSUPPORTED_PRODUCT
}

/// Whether a device, given as vendor id and product id, is a supported
/// Cherry keyboard with the product id asked for, if one was asked for.
pub open spec fn is_candidate(id: (u16, u16), product_id: Option<u16>) -> bool {
    &&& id.0 == CHERRY_USB_VID
    &&& supported(id.1)
    &&& product_id matches Some(wanted) ==> id.1 == wanted
}

/// The candidates among the attached devices, in the order in which they
/// are attached.
pub open spec fn candidates(attached: Seq<(u16, u16)>, product_id: Option<u16>) -> Seq<(u16, u16)> {
    attached.filter(|id: (u16, u16)| is_candidate(id, product_id))
}

/// Find the supported Cherry keyboards among the attached devices, each
/// given as vendor id and product id. With a product id, only devices of
/// that product are taken. Finding none is an error.
pub fn find_devices(attached: &[(u16, u16)], product_id: Option<u16>) -> (r: Result<
    Vec<(u16, u16)>,
    CherryRgbError,
>)
    ensures
        candidates(attached@, product_id).len() > 0 ==> (r matches Ok(found) && found@
            == candidates(attached@, product_id)),
        candidates(attached@, product_id).len() == 0 ==> r matches Err(
            CherryRgbError::DeviceNotFoundError,
        ),
{
    let mut found: Vec<(u16, u16)> = Vec::new();
    let mut i: usize = 0;
    proof {
        reveal(Seq::filter);
        assert(attached@.take(0) =~= Seq::<(u16, u16)>::empty());
    }
    while i < attached.len()
        invariant
            i <= attached@.len(),
            found@ == candidates(attached@.take(i as int), product_id),
        decreases attached@.len() - i,
    {
        let id = attached[i];
        let wanted = match product_id {
            Some(wanted) => id.1 == wanted,
            None => true,
        };
        proof {
            reveal(Seq::filter);
            assert(attached@.take(i + 1).drop_last() =~= attached@.take(i as int));
        }
        if id.0 == CHERRY_USB_VID && is_supported(id.1) && wanted {
            found.push(id);
        }
        i += 1;
    }
    assert(attached@.take(attached@.len() as int) =~= attached@);
    if found.len() == 0 {
        return Err(CherryRgbError::DeviceNotFoundError);
    }
    Ok(found)
}

/// Whether a device has the layout of the keyboards that this library
/// drives: exactly one configuration with exactly two interfaces.
pub fn topology_matches(num_configurations: u8, num_interfaces: u8) -> (ok: bool)
    ensures
        ok == (num_configurations == 1 && num_interfaces == 2),
{
    num_configurations == 1 && num_interfaces == 2
}

} // verus!
