//! Emission: the wrapper text for a type, an argument, a function and a
//! widget, and the rule by which unsupported shapes are skipped.

use vstd::prelude::*;
use vstd::string::*;
use crate::model::{
    lib_prefix, spelling_is_const, spelling_is_str, ArgView, FuncView, LvArg, LvFunc, LvType,
    LvWidget, WidgetView, WrapperError, WrapperResult, arg_views, func_views,
};
use crate::bindings::{ident_parses, parses_as_ident, pascal_case, pascal_case_of};
use crate::text::{remove_all, same_text, without_all};

verus! {

/// The outcome of an emission as a value of the model.
pub open spec fn text_of(r: WrapperResult<String>) -> Result<Seq<char>, WrapperError> {
    match r {
        Ok(s) => Ok(s@),
        Err(e) => Err(e),
    }
}

/// The name of the toolkit's generic base object, for which no widget is
/// emitted.
pub open spec fn base_object() -> Seq<char> {
    "obj"@
}

/// The wrapper type for a type spelling, where there is one. A string-like
/// spelling maps to a string reference whatever else holds; the others are
/// looked up exactly.
pub open spec fn mapped_type(typ: Seq<char>) -> Option<Seq<char>> {
    if spelling_is_str(typ) || typ == "const char *"@ {
        Some("&str"@)
    } else if typ == "uint16_t"@ {
        Some("u16"@)
    } else if typ == "int32_t"@ {
        Some("i32"@)
    } else if typ == "uint8_t"@ {
        Some("u8"@)
    } else if typ == "bool"@ || typ == "_Bool"@ {
        Some("bool"@)
    } else {
        None
    }
}

/// The emission of a type: its wrapper type, or a skip.
pub open spec fn type_code(typ: Seq<char>) -> Result<Seq<char>, WrapperError> {
    match mapped_type(typ) {
        Some(t) => Ok(t),
        None => Err(WrapperError::Skip),
    }
}

/// An identifier for a name: the name itself where it is a plain identifier,
/// else the name behind the raw-identifier prefix.
pub open spec fn escaped_ident(name: Seq<char>, plain: bool) -> Seq<char> {
    if plain {
        name
    } else {
        "r#"@ + name
    }
}

/// The identifier under which an argument appears in the wrapper.
pub open spec fn arg_ident(name: Seq<char>) -> Seq<char> {
    escaped_ident(name, ident_parses(name))
}

/// The statement that prepares an argument before the call: for a
/// string-like type the construction of an owned, null-terminated buffer
/// under the argument's own identifier, for any other type nothing.
pub open spec fn processing_text(ident: Seq<char>, typ: Seq<char>) -> Seq<char> {
    if spelling_is_str(typ) {
        "let "@ + ident + " = cstr_core::CString::new("@ + ident + ")?; "@
    } else {
        Seq::empty()
    }
}

/// The expression that stands for an argument in the call: for a string-like
/// type the buffer's raw pointer, for any other type the value itself.
pub open spec fn usage_text(ident: Seq<char>, typ: Seq<char>) -> Seq<char> {
    if spelling_is_str(typ) {
        ident + ".as_ptr()"@
    } else {
        ident
    }
}

/// A parameter declaration.
pub open spec fn decl_text(ident: Seq<char>, typ: Seq<char>) -> Seq<char> {
    ident + ": "@ + typ
}

/// The declaration of the parameter `ident` of type `typ`, or a skip where
/// the type has no wrapper type.
pub open spec fn decl_code(ident: Seq<char>, typ: Seq<char>) -> Result<Seq<char>, WrapperError> {
    match mapped_type(typ) {
        Some(t) => Ok(decl_text(ident, t)),
        None => Err(WrapperError::Skip),
    }
}

/// The emission of an argument: the declaration of a parameter under the
/// argument's identifier, or a skip.
pub open spec fn arg_code(a: ArgView) -> Result<Seq<char>, WrapperError> {
    decl_code(arg_ident(a.name), a.typ)
}

/// An argument under its identifier.
pub open spec fn escaped_arg(a: ArgView) -> ArgView {
    ArgView { name: arg_ident(a.name), typ: a.typ }
}

/// A function with every argument under its identifier.
pub open spec fn escaped(f: FuncView) -> FuncView {
    FuncView {
        name: f.name,
        args: Seq::new(f.args.len(), |i: int| escaped_arg(f.args[i])),
        ret: f.ret,
    }
}

/// The receiver of a method: shared where the first argument's type is
/// const-qualified, exclusive otherwise.
pub open spec fn receiver_text(typ: Seq<char>) -> Seq<char> {
    if spelling_is_const(typ) {
        "&self"@
    } else {
        "&mut self"@
    }
}

/// The raw handle of the receiver, as the call takes it.
pub open spec fn receiver_handle() -> Seq<char> {
    "self.core.raw()?.as_mut()"@
}

/// What an argument contributes to the parameter list, its name taken as
/// the identifier.
pub open spec fn param_of(a: ArgView) -> Seq<char> {
    match decl_code(a.name, a.typ) {
        Ok(t) => t,
        Err(_) => Seq::empty(),
    }
}

/// The parameter list made of the first `n` arguments: the receiver, then one
/// declaration for each further argument, separated by commas.
pub open spec fn params_text(args: Seq<ArgView>, n: int) -> Seq<char>
    decreases n,
{
    if n <= 0 {
        Seq::empty()
    } else if n == 1 {
        receiver_text(args[0].typ)
    } else {
        params_text(args, n - 1) + ", "@ + param_of(args[n - 1])
    }
}

/// The statements that prepare the first `n` arguments, each name taken as
/// the identifier; the receiver needs none.
pub open spec fn setup_text(args: Seq<ArgView>, n: int) -> Seq<char>
    decreases n,
{
    if n <= 1 {
        Seq::empty()
    } else {
        setup_text(args, n - 1) + processing_text(args[n - 1].name, args[n - 1].typ)
    }
}

/// The argument list of the call made of the first `n` arguments: the
/// receiver's raw handle, then each further argument, separated by commas.
pub open spec fn call_text(args: Seq<ArgView>, n: int) -> Seq<char>
    decreases n,
{
    if n <= 0 {
        Seq::empty()
    } else if n == 1 {
        receiver_handle()
    } else {
        call_text(args, n - 1) + ", "@ + usage_text(args[n - 1].name, args[n - 1].typ)
    }
}

/// The name of a function inside its widget: the full name without the
/// widget's template.
pub open spec fn local_name(name: Seq<char>, widget: Seq<char>) -> Seq<char> {
    without_all(name, lib_prefix() + widget + "_"@)
}

/// Every argument after the first has a wrapper type.
pub open spec fn args_mapped(args: Seq<ArgView>) -> bool {
    forall|i: int| 1 <= i < args.len() ==> (#[trigger] mapped_type(args[i].typ)).is_some()
}

/// The constructor: it takes any native object as the parent, hands the
/// parent's raw handle and a null copy source to the native function `name`,
/// and wraps the handle that comes back.
pub open spec fn constructor_text(name: Seq<char>) -> Seq<char> {
    "pub fn new<C>(parent: &mut C) -> crate::LvResult<Self> where C: crate::NativeObject, { unsafe { let ptr = lvgl_sys::"@
        + name
        + "(parent.raw()?.as_mut(), core::ptr::null_mut()); let raw = core::ptr::NonNull::new(ptr)?; let core = <crate::Obj as crate::Widget>::from_raw(raw); Ok(Self { core }) } }"@
}

/// A method named `local` that prepares its arguments, calls the native
/// function and reports success.
pub open spec fn method_text(local: Seq<char>, f: FuncView) -> Seq<char> {
    let n = f.args.len() as int;
    "pub fn "@ + local + "("@ + params_text(f.args, n) + ") -> crate::LvResult<()> { "@
        + setup_text(f.args, n) + "unsafe { lvgl_sys::"@ + f.name + "("@ + call_text(f.args, n)
        + "); } Ok(()) }"@
}

/// The emission of a function inside the widget named `widget`, the names
/// of its arguments taken as their identifiers: the constructor where the
/// local name is `create`; a skip where the function returns a value or an
/// argument after the first has no wrapper type; else the method.
pub open spec fn verbatim_code(f: FuncView, widget: Seq<char>) -> Result<Seq<char>, WrapperError> {
    let local = local_name(f.name, widget);
    if local == "create"@ {
        Ok(constructor_text(f.name))
    } else if f.ret.is_some() || !args_mapped(f.args) {
        Err(WrapperError::Skip)
    } else {
        Ok(method_text(local, f))
    }
}

/// The emission of a function inside the widget named `widget`: that of
/// the function with every argument under its identifier.
pub open spec fn func_code(f: FuncView, widget: Seq<char>) -> Result<Seq<char>, WrapperError> {
    verbatim_code(escaped(f), widget)
}

/// What the first `n` methods contribute to the implementation block: the
/// text of each one that is not skipped, in order.
pub open spec fn methods_text(methods: Seq<FuncView>, widget: Seq<char>, n: int) -> Seq<char>
    decreases n,
{
    if n <= 0 {
        Seq::empty()
    } else {
        methods_text(methods, widget, n - 1) + match func_code(methods[n - 1], widget) {
            Ok(t) => t + " "@,
            Err(_) => Seq::empty(),
        }
    }
}

/// The object declaration for the type `ident` and its implementation block.
pub open spec fn widget_text(ident: Seq<char>, w: WidgetView) -> Seq<char> {
    "define_object!("@ + ident + "); impl "@ + ident + " { "@ + methods_text(
        w.methods,
        w.name,
        w.methods.len() as int,
    ) + "}"@
}

/// The emission of a widget: a skip for the base object, else the
/// declaration of the type named in Pascal case and its implementation block.
pub open spec fn widget_code(w: WidgetView) -> Result<Seq<char>, WrapperError> {
    if w.name == base_object() {
        Err(WrapperError::Skip)
    } else {
        Ok(widget_text(pascal_case_of(w.name), w))
    }
}

/// A unit of generation that emits wrapper text inside its parent, or is
/// skipped.
pub trait Rusty {
    type Parent;

    fn code(&self, parent: &Self::Parent) -> WrapperResult<String>;
}

/// Writes the identifier for `name`, given whether `name` is a plain
/// identifier.
pub fn escape_ident(name: &str, plain: bool) -> (r: String)
    ensures
        r@ == escaped_ident(name@, plain),
{
    if plain {
        String::from_str(name)
    } else {
        let mut out = String::from_str("r#");
        out.append(name);
        out
    }
}

/// Writes the statement that prepares the argument `ident` of type `typ`.
pub fn processing_for(ident: &str, typ: &LvType) -> (r: String)
    ensures
        r@ == processing_text(ident@, typ@),
{
    if typ.is_str() {
        let mut out = String::from_str("let ");
        out.append(ident);
        out.append(" = cstr_core::CString::new(");
        out.append(ident);
        out.append(")?; ");
        out
    } else {
        String::new()
    }
}

/// Writes the expression that stands for the argument `ident` of type `typ`
/// in the call.
pub fn usage_for(ident: &str, typ: &LvType) -> (r: String)
    ensures
        r@ == usage_text(ident@, typ@),
{
    let mut out = String::from_str(ident);
    if typ.is_str() {
        out.append(".as_ptr()");
    }
    out
}

/// Writes the declaration of the parameter `ident` of type `typ`, or skips
/// where the type has no wrapper type.
pub fn declaration_for(ident: &str, typ: &LvType) -> (r: WrapperResult<String>)
    ensures
        text_of(r) == decl_code(ident@, typ@),
{
    match typ.mapped() {
        Ok(t) => Ok(declare(ident, t.as_str())),
        Err(e) => Err(e),
    }
}

/// Writes `ident` declared with the wrapper type `typ`.
fn declare(ident: &str, typ: &str) -> (r: String)
    ensures
        r@ == decl_text(ident@, typ@),
{
    let mut out = String::from_str(ident);
    out.append(": ");
    out.append(typ);
    out
}

impl LvType {
    /// Looks up the wrapper type of this type, or skips where it has none.
    pub fn mapped(&self) -> (r: WrapperResult<String>)
        ensures
            text_of(r) == type_code(self@),
    {
        let typ = self.spelling();
        if self.is_str() || same_text(typ, "const char *") {
            Ok(String::from_str("&str"))
        } else if same_text(typ, "uint16_t") {
            Ok(String::from_str("u16"))
        } else if same_text(typ, "int32_t") {
            Ok(String::from_str("i32"))
        } else if same_text(typ, "uint8_t") {
            Ok(String::from_str("u8"))
        } else if same_text(typ, "bool") || same_text(typ, "_Bool") {
            Ok(String::from_str("bool"))
        } else {
            Err(WrapperError::Skip)
        }
    }
}

impl Rusty for LvType {
    type Parent = LvArg;

    fn code(&self, _parent: &LvArg) -> (r: WrapperResult<String>)
        ensures
            text_of(r) == type_code(self@),
    {
        self.mapped()
    }
}

impl LvArg {
    pub fn get_name_ident(&self) -> (r: String)
        ensures
            r@ == arg_ident(self@.name),
    {
        let plain = parses_as_ident(self.name());
        escape_ident(self.name(), plain)
    }

    /// This argument under its identifier.
    pub fn escaped(&self) -> (r: LvArg)
        ensures
            r@ == escaped_arg(self@),
    {
        LvArg::new(self.get_name_ident(), self.get_type().clone())
    }

    pub fn get_processing(&self) -> (r: String)
        ensures
            r@ == processing_text(arg_ident(self@.name), self@.typ),
    {
        let ident = self.get_name_ident();
        processing_for(ident.as_str(), self.get_type())
    }

    pub fn get_value_usage(&self) -> (r: String)
        ensures
            r@ == usage_text(arg_ident(self@.name), self@.typ),
    {
        let ident = self.get_name_ident();
        usage_for(ident.as_str(), self.get_type())
    }
}

impl Rusty for LvArg {
    type Parent = LvFunc;

    fn code(&self, _parent: &LvFunc) -> (r: WrapperResult<String>)
        ensures
            text_of(r) == arg_code(self@),
    {
        let name = self.get_name_ident();
        declaration_for(name.as_str(), self.get_type())
    }
}

impl LvFunc {
    /// The name of this function inside `parent`.
    pub fn local_name(&self, parent: &LvWidget) -> (r: String)
        ensures
            r@ == local_name(self@.name, parent@.name),
    {
        let mut templ = String::from_str("lv_");
        templ.append(parent.name());
        templ.append("_");
        remove_all(self.name(), templ.as_str())
    }

    /// Tells whether every argument after the first has a wrapper type.
    pub fn args_supported(&self) -> (r: bool)
        ensures
            r == args_mapped(self@.args),
    {
        let args = self.args();
        let mut i: usize = 1;
        while i < args.len()
            invariant
                1 <= i,
                arg_views(args@) == self@.args,
                forall|j: int| 1 <= j < i && j < args.len() ==> (#[trigger] mapped_type(
                    self@.args[j].typ,
                )).is_some(),
            decreases args.len() - i,
        {
            proof {
                assert(self@.args[i as int] == args@[i as int]@);
            }
            if args[i].get_type().mapped().is_err() {
                return false;
            }
            i += 1;
        }
        true
    }

    /// Writes the constructor that calls this function.
    pub fn constructor(&self) -> (r: String)
        ensures
            r@ == constructor_text(self@.name),
    {
        let mut out = String::from_str(
            "pub fn new<C>(parent: &mut C) -> crate::LvResult<Self> where C: crate::NativeObject, { unsafe { let ptr = lvgl_sys::",
        );
        out.append(self.name());
        out.append(
            "(parent.raw()?.as_mut(), core::ptr::null_mut()); let raw = core::ptr::NonNull::new(ptr)?; let core = <crate::Obj as crate::Widget>::from_raw(raw); Ok(Self { core }) } }",
        );
        out
    }

    /// Writes the parameter list, each name taken as the identifier: the
    /// receiver and one declaration for each further argument.
    pub fn parameters(&self) -> (r: String)
        ensures
            r@ == params_text(self@.args, self@.args.len() as int),
    {
        let args = self.args();
        let mut out = String::new();
        let mut i: usize = 0;
        while i < args.len()
            invariant
                i <= args.len(),
                arg_views(args@) == self@.args,
                out@ == params_text(self@.args, i as int),
            decreases args.len() - i,
        {
            proof {
                assert(self@.args[i as int] == args@[i as int]@);
            }
            if i == 0 {
                if args[i].get_type().is_const() {
                    out.append("&self");
                } else {
                    out.append("&mut self");
                }
                proof {
                    assert(out@ =~= receiver_text(self@.args[0].typ));
                }
            } else {
                out.append(", ");
                match declaration_for(args[i].name(), args[i].get_type()) {
                    Ok(decl) => out.append(decl.as_str()),
                    Err(_) => {
                        proof {
                            assert(out@ + Seq::<char>::empty() =~= out@);
                        }
                    },
                }
            }
            i += 1;
        }
        out
    }

    /// Writes the statements that prepare the arguments after the first,
    /// each name taken as the identifier.
    pub fn preparation(&self) -> (r: String)
        ensures
            r@ == setup_text(self@.args, self@.args.len() as int),
    {
        let args = self.args();
        let mut out = String::new();
        let mut i: usize = 0;
        while i < args.len()
            invariant
                i <= args.len(),
                arg_views(args@) == self@.args,
                out@ == setup_text(self@.args, i as int),
            decreases args.len() - i,
        {
            proof {
                assert(self@.args[i as int] == args@[i as int]@);
            }
            if i > 0 {
                let step = processing_for(args[i].name(), args[i].get_type());
                out.append(step.as_str());
            }
            i += 1;
        }
        out
    }

    /// Writes the argument list of the native call, each name taken as the
    /// identifier: the receiver's raw handle and one expression for each
    /// further argument.
    pub fn call_arguments(&self) -> (r: String)
        ensures
            r@ == call_text(self@.args, self@.args.len() as int),
    {
        let args = self.args();
        let mut out = String::new();
        let mut i: usize = 0;
        while i < args.len()
            invariant
                i <= args.len(),
                arg_views(args@) == self@.args,
                out@ == call_text(self@.args, i as int),
            decreases args.len() - i,
        {
            proof {
                assert(self@.args[i as int] == args@[i as int]@);
            }
            if i == 0 {
                out.append("self.core.raw()?.as_mut()");
                proof {
                    assert(out@ =~= receiver_handle());
                }
            } else {
                out.append(", ");
                let value = usage_for(args[i].name(), args[i].get_type());
                out.append(value.as_str());
            }
            i += 1;
        }
        out
    }
}

impl Rusty for LvFunc {
    type Parent = LvWidget;

    fn code(&self, parent: &LvWidget) -> (r: WrapperResult<String>)
        ensures
            text_of(r) == func_code(self@, parent@.name),
    {
        self.escaped().code_verbatim(parent)
    }
}

impl LvFunc {
    /// This function with every argument under its identifier.
    pub fn escaped(&self) -> (r: LvFunc)
        ensures
            r@ == escaped(self@),
    {
        let args = self.args();
        let mut renamed: Vec<LvArg> = Vec::new();
        let mut i: usize = 0;
        while i < args.len()
            invariant
                i <= args.len(),
                arg_views(args@) == self@.args,
                renamed@.len() == i,
                forall|j: int| 0 <= j < i ==> renamed@[j]@ == escaped_arg(self@.args[j]),
            decreases args.len() - i,
        {
            proof {
                assert(self@.args[i as int] == args@[i as int]@);
            }
            let a = args[i].escaped();
            renamed.push(a);
            i += 1;
        }
        proof {
            assert(arg_views(renamed@) =~= escaped(self@).args);
        }
        self.with_args(renamed)
    }

    /// Emits this function inside `parent`, the names of its arguments
    /// taken as their identifiers.
    pub fn code_verbatim(&self, parent: &LvWidget) -> (r: WrapperResult<String>)
        ensures
            text_of(r) == verbatim_code(self@, parent@.name),
    {
        let new_name = self.local_name(parent);
        if same_text(new_name.as_str(), "create") {
            return Ok(self.constructor());
        }
        if self.has_result() {
            return Err(WrapperError::Skip);
        }
        if !self.args_supported() {
            return Err(WrapperError::Skip);
        }
        let args_decl = self.parameters();
        let args_processing = self.preparation();
        let args_call = self.call_arguments();
        let mut out = String::from_str("pub fn ");
        out.append(new_name.as_str());
        out.append("(");
        out.append(args_decl.as_str());
        out.append(") -> crate::LvResult<()> { ");
        out.append(args_processing.as_str());
        out.append("unsafe { lvgl_sys::");
        out.append(self.name());
        out.append("(");
        out.append(args_call.as_str());
        out.append("); } Ok(()) }");
        Ok(out)
    }
}

impl LvWidget {
    /// Writes the object declaration for the type `ident` and the
    /// implementation block with every method that is not skipped.
    pub fn code_as(&self, ident: &str) -> (r: String)
        ensures
            r@ == widget_text(ident@, self@),
    {
        let methods = self.methods();
        let mut body = String::new();
        let mut i: usize = 0;
        while i < methods.len()
            invariant
                i <= methods.len(),
                func_views(methods@) == self@.methods,
                body@ == methods_text(self@.methods, self@.name, i as int),
            decreases methods.len() - i,
        {
            proof {
                assert(self@.methods[i as int] == methods@[i as int]@);
            }
            match methods[i].code(self) {
                Ok(text) => {
                    body.append(text.as_str());
                    body.append(" ");
                    proof {
                        let prev = methods_text(self@.methods, self@.name, i as int);
                        assert(prev + text@ + " "@ =~= prev + (text@ + " "@));
                    }
                },
                Err(_) => {
                    proof {
                        let prev = methods_text(self@.methods, self@.name, i as int);
                        assert(prev + Seq::<char>::empty() =~= prev);
                    }
                },
            }
            i += 1;
        }
        let mut out = String::from_str("define_object!(");
        out.append(ident);
        out.append("); impl ");
        out.append(ident);
        out.append(" { ");
        out.append(body.as_str());
        out.append("}");
        out
    }
}

impl Rusty for LvWidget {
    type Parent = ();

    fn code(&self, _parent: &()) -> (r: WrapperResult<String>)
        ensures
            text_of(r) == widget_code(self@),
    {
        if same_text(self.name(), "obj") {
            return Err(WrapperError::Skip);
        }
        let widget_name = pascal_case(self.name());
        Ok(self.code_as(widget_name.as_str()))
    }
}

} // verus!
