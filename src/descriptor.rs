//! Descriptors built from constant data alone, and their owned copies.

use crate::schema::{ParamMeta, ParamMetaView, ParamType, ScriptMeta, ScriptMetaView};
use vstd::prelude::*;

verus! {

/// A parameter descriptor whose text is all static.
#[derive(Debug, Clone, Copy)]
pub struct ParamMetaStatic {
    pub key: &'static str,
    pub label: &'static str,
    pub ty: ParamType,
    pub default: Option<&'static str>,
}

/// A script descriptor whose text and parameter list are all static.
#[derive(Debug, Clone, Copy)]
pub struct ScriptMetaStatic {
    pub name: &'static str,
    pub rust_symbol: &'static str,
    pub params: &'static [ParamMetaStatic],
}

/// The unit of registration: a reference to one static script descriptor.
#[derive(Debug, Clone, Copy)]
pub struct ScriptInventory(pub &'static ScriptMetaStatic);

pub open spec fn opt_str_view(o: Option<&'static str>) -> Option<Seq<char>> {
    match o {
        Some(s) => Some(s@),
        None => None,
    }
}

impl View for ParamMetaStatic {
    type V = ParamMetaView;

    open spec fn view(&self) -> ParamMetaView {
        ParamMetaView {
            key: self.key@,
            label: self.label@,
            ty: self.ty,
            default: opt_str_view(self.default),
        }
    }
}

impl View for ScriptMetaStatic {
    type V = ScriptMetaView;

    open spec fn view(&self) -> ScriptMetaView {
        ScriptMetaView {
            name: self.name@,
            rust_symbol: self.rust_symbol@,
            params: self.params@.map_values(|p: ParamMetaStatic| p@),
        }
    }
}

impl View for ScriptInventory {
    type V = ScriptMetaView;

    open spec fn view(&self) -> ScriptMetaView {
        (*self.0)@
    }
}

impl ParamMeta {
    /// The owned copy of a static parameter descriptor.
    pub fn from_static(p: &ParamMetaStatic) -> (r: ParamMeta)
        ensures
            r@ == p@,
    {
        let default = match p.default {
            Some(d) => Some(d.to_owned()),
            None => None,
        };
        ParamMeta { key: p.key.to_owned(), label: p.label.to_owned(), ty: p.ty, default }
    }
}

impl ScriptMeta {
    /// The owned copy of a static script descriptor, parameters in the same
    /// order.
    pub fn from_static(s: &ScriptMetaStatic) -> (r: ScriptMeta)
        ensures
            r@ == s@,
    {
        let mut params: Vec<ParamMeta> = Vec::new();
        let n: usize = s.params.len();
        let mut i: usize = 0;
        while i < n
            invariant
                n == s.params@.len(),
                i <= n,
                params@.len() == i,
                forall|j: int| 0 <= j < i ==> #[trigger] params@[j]@ == s.params@[j]@,
            decreases n - i,
        {
            let p = ParamMeta::from_static(&s.params[i]);
            params.push(p);
            i += 1;
        }
        let r = ScriptMeta {
            name: s.name.to_owned(),
            rust_symbol: s.rust_symbol.to_owned(),
            params,
        };
        assert(r@.params =~= s@.params);
        r
    }
}

} // verus!
