//! Verified core of a small federation of GraphQL services (authentication,
//! planets and satellites): role checks, the bearer-token check in front of the
//! services, token claims, password hashing, identifier parsing and the
//! conversions between stored rows and the objects the services expose.
pub mod authorization;
pub mod claims;
pub mod error;
pub mod ids;
pub mod password;
pub mod planets;
pub mod role;
pub mod satellites;
pub mod text;
pub mod users;

use vstd::prelude::*;

verus! {

} // verus!
