//! The developer-tools switch.

use vstd::prelude::*;
use crate::backend::{flag_enabled, spec_flag_enabled};

verus! {

/// The setting that asks for the developer tools.
pub const DEVTOOLS_SETTING: &'static str = "WHALEWHISPER_DEVTOOLS";

/// Reports whether the developer tools are opened with each window: only
/// where the developer-tools setting is present and says yes.
pub fn should_open_devtools(value: Option<&str>) -> (open: bool)
    ensures
        open == spec_flag_enabled(
            match value {
                Some(text) => Some(text@),
                None => None,
            },
            false,
        ),
{
    flag_enabled(value, false)
}

} // verus!
