use vstd::prelude::*;

verus! {

/// What an external source-syntax query engine can do with one reference
/// site inside a located item.
#[derive(Clone, Copy, Debug, PartialEq, Eq, Hash, Structural)]
pub enum ContextItemType {
    FindImplementations,
    GotoDefinition,
}

/// One item located by the external source-syntax query engine: the range
/// it spans, its name, and the reference sites found inside it. This layer
/// only carries these values; producing them is the engine's business.
#[derive(Debug, PartialEq, Eq, Hash)]
pub struct ContextItem<T> {
    /// The range the item spans.
    pub range: core::ops::Range<T>,
    /// The item's name.
    pub name: String,
    /// Each reference site inside the item, with what can be done at it.
    pub items: Vec<(core::ops::Range<T>, ContextItemType)>,
}

} // verus!
