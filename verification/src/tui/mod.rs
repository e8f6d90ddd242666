//! Pure state and decisions of the native panel: slot placement, input mapping,
//! layout geometry and hit testing.

pub mod control;
pub mod input;
pub mod labels;
pub mod layout;
pub mod link;
pub mod state;
