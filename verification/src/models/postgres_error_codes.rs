//! The SQLSTATE codes that data access tells apart.

use vstd::prelude::*;

verus! {

/// SQLSTATE of an insert or update that breaks a foreign key.
pub const FOREIGN_KEY_VIOLATION: &'static str = "23503";

} // verus!
