//! What name resolution knows about the items defined in a module.

use vstd::prelude::*;

use crate::ast::ModuleItemKind;
use crate::location::Location;

verus! {

/// An information about an item defined in the module.
#[derive(Debug, PartialEq, Eq, Clone, Copy, Structural)]
pub struct ModuleItemInfo {
    /// Location of the item name.
    pub location: Location,
    /// Kind of the definition.
    pub kind: ModuleItemKind,
}

} // verus!
