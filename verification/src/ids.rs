//! Which numbers can be the id of a parameter.
//!
//! The ids are those of the plugin interface, and what counts as one is asked
//! of clack-host.

use vstd::prelude::*;
use clack_host::utils::ClapId;

verus! {

/// The one number that is no parameter id. A plugin uses it to say that there
/// is no such parameter, and no event can be addressed to it.
pub const INVALID_PARAM_ID: u32 = 0xFFFF_FFFF;

/// The identifier type of clack-host, taken as it is: nothing is known of a
/// value of it but what `clap_id` says.
#[verifier::external_type_specification]
#[verifier::external_body]
pub struct ExClapId(clack_host::utils::ClapId);

/// Calls `ClapId::from_raw` of clack-host, which makes the identifier for a
/// number. Taken on trust: there is an identifier for every number but
/// `u32::MAX`, which the plugin interface keeps for "no such thing".
#[verifier::external_body]
fn clap_id(raw: u32) -> (id: Option<ClapId>)
    ensures
        id.is_some() == (raw != INVALID_PARAM_ID),
{
    ClapId::from_raw(raw)
}

/// Whether `raw` can be the id of a parameter.
pub open spec fn is_param_id(raw: u32) -> bool {
    raw != INVALID_PARAM_ID
}

/// Whether `raw` can be the id of a parameter.
pub fn can_be_param_id(raw: u32) -> (valid: bool)
    ensures
        valid == is_param_id(raw),
{
    clap_id(raw).is_some()
}

} // verus!
