//! What the completion engine tells of a match.

use vstd::prelude::*;

verus! {

/// The kind of thing that a completion names.
#[derive(Debug, Clone, Copy, PartialEq, Eq, Structural)]
pub enum MatchType {
    Struct,
    Module,
    MatchArm,
    Function,
    Crate,
    Let,
    IfLet,
    WhileLet,
    For,
    StructField,
    Impl,
    TraitImpl,
    Enum,
    EnumVariant,
    Type,
    FnArg,
    Trait,
    Const,
    Static,
    Macro,
    Builtin,
}

/// One completion: the text that matched, the line it was found on, and its
/// kind.
#[derive(Debug, PartialEq, Eq)]
pub struct Match {
    pub matchstr: String,
    pub contextstr: String,
    pub mtype: MatchType,
}

} // verus!
