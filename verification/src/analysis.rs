//! What the source analysis tells of a definition.

use vstd::prelude::*;

verus! {

/// The kind of thing that a definition defines.
#[derive(Debug, Clone, Copy, PartialEq, Eq, Structural)]
pub enum DefKind {
    Enum,
    TupleVariant,
    StructVariant,
    Tuple,
    Struct,
    Union,
    Trait,
    Function,
    Method,
    Macro,
    Mod,
    Type,
    ExternType,
    Local,
    Static,
    Const,
    Field,
}

} // verus!
