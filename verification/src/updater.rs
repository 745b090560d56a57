//! Whether the updater opens at start.
use vstd::prelude::*;
use crate::settings::{flag_setting, Resolved};

verus! {

/// The check for updates at start: the `check_update` switch (on unless
/// configured off; stored as on when unset), and whether the updater window
/// opens, which it does when the switch is on.
pub fn check_update(stored: Option<bool>) -> (r: Resolved<bool>)
    ensures
        r.value == match stored {
            Some(b) => b,
            None => true,
        },
        r.store_default == (stored is None),
{
    flag_setting(stored, true)
}

} // verus!
