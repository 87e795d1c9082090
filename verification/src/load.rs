//! Loading: which top-level declarations of a translation unit become
//! functions of the library, and what function each one is.

use vstd::prelude::*;
use crate::model::{arg_views, lib_prefix, ArgView, FuncView, LvArg};
use crate::text::has_prefix;

verus! {

/// What is read of a top-level declaration: whether it declares a function,
/// its name if it has one, whether its linkage is internal, the spelling of
/// its result type and its parameters in order. For a declaration of another
/// kind the last two hold nothing.
#[derive(Debug)]
pub struct Declaration {
    pub is_function: bool,
    pub name: Option<String>,
    pub internal_linkage: bool,
    pub result: String,
    pub args: Vec<LvArg>,
}

/// What a declaration is.
pub struct DeclarationView {
    pub is_function: bool,
    pub name: Option<Seq<char>>,
    pub internal_linkage: bool,
    pub result: Seq<char>,
    pub args: Seq<ArgView>,
}

impl View for Declaration {
    type V = DeclarationView;

    open spec fn view(&self) -> DeclarationView {
        DeclarationView {
            is_function: self.is_function,
            name: match self.name {
                Some(n) => Some(n@),
                None => None,
            },
            internal_linkage: self.internal_linkage,
            result: self.result@,
            args: arg_views(self.args@),
        }
    }
}

/// The views of a run of declarations.
pub open spec fn declaration_views(declarations: Seq<Declaration>) -> Seq<DeclarationView> {
    Seq::new(declarations.len(), |i: int| declarations[i]@)
}

/// A declaration is loaded where it declares a function, has a name, does
/// not have internal linkage, and its name carries the library's prefix.
pub open spec fn is_loaded(d: DeclarationView) -> bool {
    d.is_function && d.name.is_some() && !d.internal_linkage && has_prefix(
        d.name.unwrap(),
        lib_prefix(),
    )
}

/// The function that a declaration declares: its name, its parameters in
/// order, and its result type unless that is spelled `void`.
pub open spec fn function_of(d: DeclarationView) -> FuncView {
    FuncView {
        name: d.name.unwrap(),
        args: d.args,
        ret: if d.result == "void"@ {
            None
        } else {
            Some(d.result)
        },
    }
}

/// The functions of those among the first `n` declarations that are loaded,
/// in order.
pub open spec fn loaded(declarations: Seq<DeclarationView>, n: int) -> Seq<FuncView>
    decreases n,
{
    if n <= 0 {
        Seq::empty()
    } else {
        let before = loaded(declarations, n - 1);
        if is_loaded(declarations[n - 1]) {
            before.push(function_of(declarations[n - 1]))
        } else {
            before
        }
    }
}

} // verus!
