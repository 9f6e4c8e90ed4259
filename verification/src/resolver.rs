//! The address-resolver logic: which address a lookup outcome yields.
//!
//! The DNS lookup itself is an outside collaborator that runs in the
//! surrounding program; it hands in either the ordered record list it
//! received or nothing at all on a transport failure, and this module
//! decides what that outcome means for the connection.

use vstd::prelude::*;
use crate::protocol::IpV4;

verus! {

/// Why no address came out of a lookup. Both variants are fatal to the
/// connection.
#[derive(Debug, Clone, Copy, PartialEq, Eq, Structural)]
pub enum ResolveError {
    /// The lookup succeeded but returned zero records.
    NoRecords,
    /// The lookup itself failed (transport or protocol failure).
    LookupFailed,
}

/// Which address a lookup outcome yields: the first record of a non-empty
/// list; `NoRecords` on an empty list; `LookupFailed` when the lookup
/// never produced a list.
pub open spec fn pick_spec(outcome: Option<Seq<IpV4>>) -> Result<IpV4, ResolveError> {
    match outcome {
        Option::None => Err(ResolveError::LookupFailed),
        Option::Some(addrs) => if addrs.len() == 0 {
            Err(ResolveError::NoRecords)
        } else {
            Ok(addrs[0])
        },
    }
}

/// The view of a lookup outcome as handed in by the surrounding program:
/// `None` for a failed lookup, otherwise the record list in arrival order.
pub open spec fn outcome_view(outcome: Option<Vec<IpV4>>) -> Option<Seq<IpV4>> {
    match outcome {
        Option::None => Option::None,
        Option::Some(addrs) => Option::Some(addrs@),
    }
}

/// Picks the address a lookup outcome yields, exactly as `pick_spec` says:
/// the first record, or the error that names what went wrong.
pub fn pick_resolved_address(outcome: &Option<Vec<IpV4>>) -> (r: Result<IpV4, ResolveError>)
    ensures
        r == pick_spec(outcome_view(*outcome)),
{
    match outcome {
        Option::None => Err(ResolveError::LookupFailed),
        Option::Some(addrs) => {
            if addrs.len() == 0 {
                Err(ResolveError::NoRecords)
            } else {
                Ok(addrs[0])
            }
        },
    }
}

} // verus!
