//! The rules that turn an annotated item into a script descriptor: its
//! display name and its fully qualified symbol.

use crate::schema::{ParamMeta, ScriptMeta};
use vstd::prelude::*;

verus! {

/// The display name of an annotated item: the explicit name where one was
/// given, else the item's own identifier.
pub open spec fn display_name_of(explicit: Option<Seq<char>>, ident: Seq<char>) -> Seq<char> {
    match explicit {
        Some(n) => n,
        None => ident,
    }
}

/// The unique symbol of an item: its module path, `::`, then its identifier.
pub open spec fn qualified_symbol_of(module: Seq<char>, ident: Seq<char>) -> Seq<char> {
    module + seq![':', ':'] + ident
}

/// Picks the display name of an annotated item.
pub fn display_name<'a>(explicit: Option<&'a str>, ident: &'a str) -> (r: &'a str)
    ensures
        r@ == display_name_of(
            match explicit {
                Some(n) => Some(n@),
                None => None,
            },
            ident@,
        ),
{
    match explicit {
        Some(n) => n,
        None => ident,
    }
}

/// Joins a module path and an identifier into the item's unique symbol.
pub fn qualified_symbol(module: &str, ident: &str) -> (r: String)
    ensures
        r@ == qualified_symbol_of(module@, ident@),
{
    let mut r = module.to_owned();
    let sep = "::";
    proof {
        reveal_strlit("::");
    }
    r.append(sep);
    r.append(ident);
    assert(r@ =~= qualified_symbol_of(module@, ident@));
    r
}

impl ScriptMeta {
    /// The descriptor that annotating the item `ident` of `module`
    /// registers, with `explicit_name` as the optional display name given in
    /// the annotation.
    pub fn annotated(
        module: &str,
        ident: &str,
        explicit_name: Option<&str>,
        params: Vec<ParamMeta>,
    ) -> (r: ScriptMeta)
        ensures
            r.name@ == display_name_of(
                match explicit_name {
                    Some(n) => Some(n@),
                    None => None,
                },
                ident@,
            ),
            r.rust_symbol@ == qualified_symbol_of(module@, ident@),
            r.params@ == params@,
    {
        let name = display_name(explicit_name, ident).to_owned();
        let rust_symbol = qualified_symbol(module, ident);
        ScriptMeta { name, rust_symbol, params }
    }
}

} // verus!
