//! The declaration model: types, arguments, functions and widgets, each with
//! its mathematical view.

use vstd::prelude::*;
use vstd::string::*;
use crate::text::{
    contains, ends_with, has_infix, has_prefix, has_suffix, same_text, starts_with,
};

verus! {

/// The signal that a declaration has a shape for which no wrapper is written.
#[derive(Debug, Copy, Clone, PartialEq, Eq)]
pub enum WrapperError {
    Skip,
}

pub type WrapperResult<T> = Result<T, WrapperError>;

/// What an argument is: its name and the spelling of its type.
pub struct ArgView {
    pub name: Seq<char>,
    pub typ: Seq<char>,
}

/// What a function is: its name, its arguments in order, and the spelling of
/// its return type, if it returns anything.
pub struct FuncView {
    pub name: Seq<char>,
    pub args: Seq<ArgView>,
    pub ret: Option<Seq<char>>,
}

/// What a widget is: its name and its methods in order.
pub struct WidgetView {
    pub name: Seq<char>,
    pub methods: Seq<FuncView>,
}

/// The prefix that every function of the toolkit carries.
pub open spec fn lib_prefix() -> Seq<char> {
    "lv_"@
}

/// The name of the toolkit's object handle type.
pub open spec fn handle_type() -> Seq<char> {
    "lv_obj_t"@
}

/// A type spelling is const-qualified where it begins with `const `.
pub open spec fn spelling_is_const(typ: Seq<char>) -> bool {
    has_prefix(typ, "const "@)
}

/// A type spelling is string-like where it ends with `char *`.
pub open spec fn spelling_is_str(typ: Seq<char>) -> bool {
    has_suffix(typ, "char *"@)
}

/// A function is a method where its first argument's type mentions the
/// object handle.
pub open spec fn func_is_method(f: FuncView) -> bool {
    f.args.len() > 0 && has_infix(f.args[0].typ, handle_type())
}

/// The views of a run of arguments.
pub open spec fn arg_views(args: Seq<LvArg>) -> Seq<ArgView> {
    Seq::new(args.len(), |i: int| args[i]@)
}

/// The views of a run of functions.
pub open spec fn func_views(funcs: Seq<LvFunc>) -> Seq<FuncView> {
    Seq::new(funcs.len(), |i: int| funcs[i]@)
}

/// The views of a run of widgets.
pub open spec fn widget_views(widgets: Seq<LvWidget>) -> Seq<WidgetView> {
    Seq::new(widgets.len(), |i: int| widgets[i]@)
}

/// The texts of a run of strings.
pub open spec fn texts(strings: Seq<String>) -> Seq<Seq<char>> {
    Seq::new(strings.len(), |i: int| strings[i]@)
}

/// A type, kept as the spelling under which it was declared.
#[derive(Debug, PartialEq, Eq)]
pub struct LvType {
    typ: String,
}

impl View for LvType {
    type V = Seq<char>;

    closed spec fn view(&self) -> Seq<char> {
        self.typ@
    }
}

impl Clone for LvType {
    fn clone(&self) -> (r: Self)
        ensures
            r@ == self@,
    {
        LvType { typ: self.typ.clone() }
    }
}

impl LvType {
    pub fn new(typ: String) -> (r: Self)
        ensures
            r@ == typ@,
    {
        Self { typ }
    }

    /// The spelling itself.
    pub fn spelling(&self) -> (r: &str)
        ensures
            r@ == self@,
    {
        self.typ.as_str()
    }

    pub fn is_const(&self) -> (r: bool)
        ensures
            r == spelling_is_const(self@),
    {
        starts_with(self.typ.as_str(), "const ")
    }

    pub fn is_str(&self) -> (r: bool)
        ensures
            r == spelling_is_str(self@),
    {
        ends_with(self.typ.as_str(), "char *")
    }
}

/// An argument: a name and a type.
#[derive(Debug, PartialEq, Eq)]
pub struct LvArg {
    name: String,
    typ: LvType,
}

impl View for LvArg {
    type V = ArgView;

    closed spec fn view(&self) -> ArgView {
        ArgView { name: self.name@, typ: self.typ@ }
    }
}

impl Clone for LvArg {
    fn clone(&self) -> (r: Self)
        ensures
            r@ == self@,
    {
        LvArg { name: self.name.clone(), typ: self.typ.clone() }
    }
}

impl LvArg {
    pub fn new(name: String, typ: LvType) -> (r: Self)
        ensures
            r@ == (ArgView { name: name@, typ: typ@ }),
    {
        Self { name, typ }
    }

    /// The name as it was declared.
    pub fn name(&self) -> (r: &str)
        ensures
            r@ == self@.name,
    {
        self.name.as_str()
    }

    pub fn get_type(&self) -> (r: &LvType)
        ensures
            r@ == self@.typ,
    {
        &self.typ
    }
}

/// A function declaration.
#[derive(Debug, PartialEq, Eq)]
pub struct LvFunc {
    name: String,
    args: Vec<LvArg>,
    ret: Option<LvType>,
}

impl View for LvFunc {
    type V = FuncView;

    closed spec fn view(&self) -> FuncView {
        FuncView {
            name: self.name@,
            args: arg_views(self.args@),
            ret: match self.ret {
                Some(t) => Some(t@),
                None => None,
            },
        }
    }
}

/// Copies a run of arguments.
pub fn clone_args(args: &Vec<LvArg>) -> (r: Vec<LvArg>)
    ensures
        arg_views(r@) == arg_views(args@),
{
    let mut copy: Vec<LvArg> = Vec::new();
    let mut i: usize = 0;
    while i < args.len()
        invariant
            i <= args.len(),
            copy@.len() == i,
            forall|j: int| 0 <= j < i ==> copy@[j]@ == args@[j]@,
        decreases args.len() - i,
    {
        let a = args[i].clone();
        copy.push(a);
        i += 1;
    }
    proof {
        assert(arg_views(copy@) =~= arg_views(args@));
    }
    copy
}

impl Clone for LvFunc {
    fn clone(&self) -> (r: Self)
        ensures
            r@ == self@,
    {
        let args = clone_args(&self.args);
        let ret = match &self.ret {
            Some(t) => Some(t.clone()),
            None => None,
        };
        LvFunc { name: self.name.clone(), args, ret }
    }
}

impl LvFunc {
    pub fn new(name: String, args: Vec<LvArg>, ret: Option<LvType>) -> (r: Self)
        ensures
            r@ == (FuncView {
                name: name@,
                args: arg_views(args@),
                ret: match ret {
                    Some(t) => Some(t@),
                    None => None,
                },
            }),
    {
        Self { name, args, ret }
    }

    /// The function of a declaration whose result type is spelled `result`:
    /// `void` is no return type, any other spelling is kept as it is.
    pub fn declared(name: String, args: Vec<LvArg>, result: String) -> (r: Self)
        ensures
            r@ == (FuncView {
                name: name@,
                args: arg_views(args@),
                ret: if result@ == "void"@ {
                    None
                } else {
                    Some(result@)
                },
            }),
    {
        let ret = if same_text(result.as_str(), "void") {
            None
        } else {
            Some(LvType::new(result))
        };
        Self { name, args, ret }
    }

    /// This function with `args` in place of its arguments.
    pub fn with_args(&self, args: Vec<LvArg>) -> (r: Self)
        ensures
            r@ == (FuncView { name: self@.name, args: arg_views(args@), ret: self@.ret }),
    {
        let ret = match &self.ret {
            Some(t) => Some(t.clone()),
            None => None,
        };
        LvFunc { name: self.name.clone(), args, ret }
    }

    /// The name as it was declared.
    pub fn name(&self) -> (r: &str)
        ensures
            r@ == self@.name,
    {
        self.name.as_str()
    }

    /// The arguments in the order of the declaration.
    pub fn args(&self) -> (r: &Vec<LvArg>)
        ensures
            arg_views(r@) == self@.args,
    {
        &self.args
    }

    /// Whether the function returns a value.
    pub fn has_result(&self) -> (r: bool)
        ensures
            r == self@.ret.is_some(),
    {
        self.ret.is_some()
    }

    pub fn is_method(&self) -> (r: bool)
        ensures
            r == func_is_method(self@),
    {
        if self.args.len() > 0 {
            let first_arg = &self.args[0];
            return contains(first_arg.typ.spelling(), "lv_obj_t");
        }
        false
    }
}

/// A widget: a family of functions that share a name prefix.
#[derive(Debug, PartialEq, Eq)]
pub struct LvWidget {
    name: String,
    methods: Vec<LvFunc>,
}

impl View for LvWidget {
    type V = WidgetView;

    closed spec fn view(&self) -> WidgetView {
        WidgetView { name: self.name@, methods: func_views(self.methods@) }
    }
}

impl Clone for LvWidget {
    fn clone(&self) -> (r: Self)
        ensures
            r@ == self@,
    {
        let mut methods: Vec<LvFunc> = Vec::new();
        let mut i: usize = 0;
        while i < self.methods.len()
            invariant
                i <= self.methods.len(),
                methods@.len() == i,
                forall|j: int| 0 <= j < i ==> methods@[j]@ == self.methods@[j]@,
            decreases self.methods.len() - i,
        {
            let f = self.methods[i].clone();
            methods.push(f);
            i += 1;
        }
        proof {
            assert(func_views(methods@) =~= func_views(self.methods@));
        }
        LvWidget { name: self.name.clone(), methods }
    }
}

impl LvWidget {
    pub fn new(name: String, methods: Vec<LvFunc>) -> (r: Self)
        ensures
            r@ == (WidgetView { name: name@, methods: func_views(methods@) }),
    {
        Self { name, methods }
    }

    /// The name as the constructor's name gave it.
    pub fn name(&self) -> (r: &str)
        ensures
            r@ == self@.name,
    {
        self.name.as_str()
    }

    /// The methods in the order in which they were declared.
    pub fn methods(&self) -> (r: &Vec<LvFunc>)
        ensures
            func_views(r@) == self@.methods,
    {
        &self.methods
    }
}

} // verus!
