//! The health probe.

use vstd::prelude::*;

verus! {

/// The answer to the health probe.
#[derive(Clone, Debug, PartialEq, Eq)]
pub struct Health {
    pub status: String,
    pub message: String,
}

/// Answers the health probe; the answer is always the same.
pub fn health_check() -> (health: Health)
    ensures
        health.status@ == "ok"@,
        health.message@ == "API Services"@,
{
    Health { status: String::from_str("ok"), message: String::from_str("API Services") }
}

} // verus!
