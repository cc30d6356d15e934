//! Native-shell core for a desktop application: project-root resolution on
//! disk, a declarative platform-aware menu model with stateful checkable
//! items, two-way synchronization between native checkboxes and UI-held
//! panel-visibility flags, and a routing table that turns menu identifiers
//! into named UI events.
//!
//! Everything here is pure logic over plain values; the host windowing
//! layer (window creation, native menu installation, event emission, the
//! actual filesystem walk) lives outside the library and hands in plain
//! strings and booleans.

use vstd::prelude::*;

pub mod ids;
pub mod menu;
pub mod resolver;
pub mod router;
pub mod text;

verus! {

/// The greeting shown to a user by name.
pub open spec fn spec_greeting(name: Seq<char>) -> Seq<char> {
    "Hello, "@ + name + "! Welcome to Sentinel."@
}

/// Builds the welcome greeting for `name`.
pub fn greet(name: &str) -> (r: String)
    ensures
        r@ == spec_greeting(name@),
{
    let mut s: String = String::from_str("Hello, ");
    s.append(name);
    s.append("! Welcome to Sentinel.");
    proof {
        assert(s@ =~= spec_greeting(name@));
    }
    s
}

} // verus!
