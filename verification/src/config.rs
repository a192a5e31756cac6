//! Settings the library's logic reads.

use vstd::prelude::*;

verus! {

/// The `[notify]` section: whether a `:notify` event rings the bell, and which
/// desktop-notification protocol carries it (`osc9`, `osc777`, `both`, or
/// `off`; anything else behaves as `osc9`).
pub struct NotifyConfig {
    pub bell: bool,
    pub desktop: String,
}

} // verus!
