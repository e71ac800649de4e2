//! Turning the list of requested names into refreshers.
//!
//! The process takes at least one name on its command line; with none it
//! exits with the usage code and creates no refresher. Each name gets
//! exactly one refresher, started in `Init`; the refreshers share nothing
//! and are scheduled concurrently by the surrounding process.

use vstd::prelude::*;
use crate::refresh::RefreshState;
use crate::refresh::Refresher;

verus! {

/// The exit status for a call with no names.
pub const USAGE_EXIT_CODE: u8 = 64;

/// Whether a call that supplied `name_count` names is a usage error: at
/// least one name is required.
pub fn usage_error(name_count: usize) -> (r: bool)
    ensures
        r == (name_count == 0),
{
    name_count == 0
}

/// One refresher per requested name, in the order given, each starting
/// in `Init`. An empty list yields no refresher at all.
pub fn make_refreshers(names: Vec<String>) -> (rs: Vec<Refresher>)
    ensures
        rs@.len() == names@.len(),
        forall|i: int|
            0 <= i < names@.len() ==> (#[trigger] rs@[i]).name == names@[i] && rs@[i].state
                == RefreshState::Init,
{
    let mut rs: Vec<Refresher> = Vec::new();
    let mut idx: usize = 0;
    while idx < names.len()
        invariant
            idx <= names@.len(),
            rs@.len() == idx,
            forall|i: int|
                0 <= i < idx ==> (#[trigger] rs@[i]).name == names@[i] && rs@[i].state
                    == RefreshState::Init,
        decreases names@.len() - idx,
    {
        let name = names[idx].clone();
        rs.push(Refresher::new(name));
        idx = idx + 1;
    }
    rs
}

} // verus!
