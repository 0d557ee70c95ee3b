//! The owned schema model: what is exported and read back.

use vstd::prelude::*;

verus! {

/// The kind of value that a script parameter holds.
#[derive(Debug, Clone, Copy, PartialEq, Eq, Structural)]
pub enum ParamType {
    Bool,
    I64,
    F64,
    String,
    Vec3,
    ColorRgba,
}

/// What a parameter descriptor says, in either of its two forms.
pub struct ParamMetaView {
    pub key: Seq<char>,
    pub label: Seq<char>,
    pub ty: ParamType,
    pub default: Option<Seq<char>>,
}

/// What a script descriptor says, in either of its two forms.
pub struct ScriptMetaView {
    pub name: Seq<char>,
    pub rust_symbol: Seq<char>,
    pub params: Seq<ParamMetaView>,
}

/// One parameter of a script.
#[derive(Debug, Clone, PartialEq, Eq)]
pub struct ParamMeta {
    pub key: String,
    pub label: String,
    pub ty: ParamType,
    pub default: Option<String>,
}

/// One script: its display name, its unique symbol and its parameters in
/// declaration order.
#[derive(Debug, Clone, PartialEq, Eq)]
pub struct ScriptMeta {
    pub name: String,
    pub rust_symbol: String,
    pub params: Vec<ParamMeta>,
}

/// The exported document: every script, in registry order.
#[derive(Debug, Clone, PartialEq, Eq)]
pub struct Schema {
    pub scripts: Vec<ScriptMeta>,
}

pub open spec fn opt_text_view(o: Option<String>) -> Option<Seq<char>> {
    match o {
        Some(s) => Some(s@),
        None => None,
    }
}

impl View for ParamMeta {
    type V = ParamMetaView;

    open spec fn view(&self) -> ParamMetaView {
        ParamMetaView {
            key: self.key@,
            label: self.label@,
            ty: self.ty,
            default: opt_text_view(self.default),
        }
    }
}

impl View for ScriptMeta {
    type V = ScriptMetaView;

    open spec fn view(&self) -> ScriptMetaView {
        ScriptMetaView {
            name: self.name@,
            rust_symbol: self.rust_symbol@,
            params: self.params@.map_values(|p: ParamMeta| p@),
        }
    }
}

impl View for Schema {
    type V = Seq<ScriptMetaView>;

    open spec fn view(&self) -> Seq<ScriptMetaView> {
        self.scripts@.map_values(|s: ScriptMeta| s@)
    }
}

} // verus!
