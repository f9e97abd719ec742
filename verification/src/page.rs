//! The pages of the web front end.

use vstd::prelude::*;

verus! {

/// The page that the front end shows.
#[derive(Clone, Copy, Debug, PartialEq, Eq, Structural)]
pub enum View {
    Chat,
    Items,
    Bom,
    Changes,
    Settings,
    Logs,
}

} // verus!
