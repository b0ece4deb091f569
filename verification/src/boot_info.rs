//! One historical boot session.

use vstd::prelude::*;

verus! {

/// A boot session from the boot-list output: opaque identifier, signed
/// offset relative to the current boot, and the textual bounds of the
/// session.
#[derive(Debug, Clone)]
pub struct BootInfo {
    pub boot_id: String,
    pub boot_offset: i32,
    pub first_entry: String,
    pub last_entry: String,
}

/// Mathematical image of a boot session.
pub ghost struct BootInfoV {
    pub boot_id: Seq<char>,
    pub boot_offset: int,
    pub first_entry: Seq<char>,
    pub last_entry: Seq<char>,
}

impl View for BootInfo {
    type V = BootInfoV;

    open spec fn view(&self) -> BootInfoV {
        BootInfoV {
            boot_id: self.boot_id@,
            boot_offset: self.boot_offset as int,
            first_entry: self.first_entry@,
            last_entry: self.last_entry@,
        }
    }
}

/// Views of a sequence of boot sessions.
pub open spec fn boot_views(s: Seq<BootInfo>) -> Seq<BootInfoV> {
    s.map_values(|b: BootInfo| b@)
}

} // verus!
