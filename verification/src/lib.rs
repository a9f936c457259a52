use vstd::prelude::*;

pub mod audio;
pub mod base;
pub mod color;
pub mod launch;
pub mod model;
pub mod terminal;
pub mod text;

verus! {

/// The layer-shell namespace under which the bar registers its surface.
pub fn namespace() -> (res: String)
    ensures
        res@ == "Bar - Iced"@,
{
    String::from_str("Bar - Iced")
}

} // verus!
