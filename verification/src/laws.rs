//! What holds of extraction and emission on every input.

use vstd::prelude::*;
use crate::emit::{
    args_mapped, base_object, constructor_text, escaped, func_code, local_name, mapped_type,
    params_text, processing_text, receiver_text, usage_text, widget_code, widget_text,
};
use crate::extract::{belongs_to, declared_widget, extracted, methods_of, widget_names};
use crate::load::{function_of, is_loaded, loaded, DeclarationView};
use crate::model::{lib_prefix, spelling_is_const, spelling_is_str, FuncView, WidgetView, WrapperError};
use crate::bindings::{created_widget, pascal_case_of};
use crate::text::has_prefix;

verus! {

/// `name` is the prefix, the non-empty run `w` without `_`, and `_create`.
pub open spec fn is_constructor_name(name: Seq<char>, w: Seq<char>) -> bool {
    w.len() > 0 && !w.contains('_') && name == lib_prefix() + w + "_create"@
}

/// One of the first `n` functions takes exactly two arguments and has the
/// constructor name of `w`.
pub open spec fn declares(funcs: Seq<FuncView>, n: int, w: Seq<char>) -> bool {
    exists|i: int|
        0 <= i < n && i < funcs.len() && (#[trigger] funcs[i]).args.len() == 2
            && is_constructor_name(funcs[i].name, w)
}

/// A name declares the widget `w` exactly when it is the constructor name of
/// `w`.
pub proof fn constructor_name_declares(name: Seq<char>, w: Seq<char>)
    ensures
        created_widget(name) == Some(w) <==> is_constructor_name(name, w),
{
    let head = lib_prefix();
    let tail = "_create"@;
    let run = name.subrange(head.len() as int, name.len() - tail.len());
    if created_widget(name) == Some(w) {
        assert(run == w);
        assert(name.subrange(0, head.len() as int) == head);
        assert(name.subrange(name.len() - tail.len(), name.len() as int) == tail);
        assert forall|i: int| 0 <= i < name.len() implies name[i] == (head + w + tail)[i] by {
            if i < head.len() {
                assert(name.subrange(0, head.len() as int)[i] == name[i]);
            } else if i < name.len() - tail.len() {
                assert(run[i - head.len()] == name[i]);
            } else {
                let k = i - (name.len() - tail.len());
                assert(name.subrange(name.len() - tail.len(), name.len() as int)[k] == name[i]);
            }
        }
        assert(name =~= head + w + tail);
    }
    if is_constructor_name(name, w) {
        assert(name.subrange(0, head.len() as int) =~= head);
        assert(name.subrange(name.len() - tail.len(), name.len() as int) =~= tail);
        assert(run =~= w);
    }
}

/// A widget is among the extracted names exactly when some function with two
/// arguments has its constructor name: a constructor with another number of
/// arguments declares nothing, and neither does any other name.
pub proof fn widget_names_are_the_declared(funcs: Seq<FuncView>, n: int, w: Seq<char>)
    requires
        0 <= n <= funcs.len(),
    ensures
        widget_names(funcs, n).contains(w) <==> declares(funcs, n, w),
    decreases n,
{
    if n > 0 {
        widget_names_are_the_declared(funcs, n - 1, w);
        let before = widget_names(funcs, n - 1);
        let f = funcs[n - 1];
        constructor_name_declares(f.name, w);
        if widget_names(funcs, n).contains(w) {
            if before.contains(w) {
                let i = choose|i: int|
                    0 <= i < n - 1 && i < funcs.len() && (#[trigger] funcs[i]).args.len() == 2
                        && is_constructor_name(funcs[i].name, w);
                assert(funcs[i].args.len() == 2 && is_constructor_name(funcs[i].name, w));
            } else {
                let v = declared_widget(f).unwrap();
                let j = choose|j: int|
                    0 <= j < widget_names(funcs, n).len() && widget_names(funcs, n)[j] == w;
                assert(widget_names(funcs, n) == before.push(v));
                if j < before.len() {
                    assert(before[j] == w);
                }
                assert(v == w);
                assert(funcs[n - 1].args.len() == 2 && is_constructor_name(funcs[n - 1].name, w));
            }
        }
        if declares(funcs, n, w) {
            let i = choose|i: int|
                0 <= i < n && i < funcs.len() && (#[trigger] funcs[i]).args.len() == 2
                    && is_constructor_name(funcs[i].name, w);
            if i < n - 1 {
                assert(declares(funcs, n - 1, w));
                assert(before.contains(w));
                let j = choose|j: int| 0 <= j < before.len() && before[j] == w;
                if widget_names(funcs, n) != before {
                    assert(widget_names(funcs, n)[j] == w);
                }
            } else {
                assert(declared_widget(f) == Some(w));
                if !before.contains(w) {
                    assert(before.push(w)[before.len() as int] == w);
                }
            }
        }
    }
}

/// No widget is extracted twice.
pub proof fn widget_names_are_distinct(funcs: Seq<FuncView>, n: int)
    requires
        0 <= n <= funcs.len(),
    ensures
        widget_names(funcs, n).no_duplicates(),
    decreases n,
{
    if n > 0 {
        widget_names_are_distinct(funcs, n - 1);
    }
}

/// Every method of an extracted widget is one of the functions and belongs
/// to the widget.
pub proof fn methods_belong(funcs: Seq<FuncView>, w: Seq<char>, n: int, k: int)
    requires
        0 <= n <= funcs.len(),
        0 <= k < methods_of(funcs, w, n).len(),
    ensures
        funcs.contains(methods_of(funcs, w, n)[k]),
        belongs_to(methods_of(funcs, w, n)[k], w),
    decreases n,
{
    if n > 0 {
        let before = methods_of(funcs, w, n - 1);
        if k < before.len() {
            methods_belong(funcs, w, n - 1, k);
        } else {
            assert(funcs[n - 1] == methods_of(funcs, w, n)[k]);
        }
    }
}

/// Every function that belongs to a widget is among its methods.
pub proof fn members_are_methods(funcs: Seq<FuncView>, w: Seq<char>, n: int, i: int)
    requires
        0 <= i < n <= funcs.len(),
        belongs_to(funcs[i], w),
    ensures
        methods_of(funcs, w, n).contains(funcs[i]),
    decreases n,
{
    let before = methods_of(funcs, w, n - 1);
    if i < n - 1 {
        members_are_methods(funcs, w, n - 1, i);
        let j = choose|j: int| 0 <= j < before.len() && before[j] == funcs[i];
        assert(methods_of(funcs, w, n)[j] == funcs[i]);
    } else {
        assert(before.push(funcs[i])[before.len() as int] == funcs[i]);
    }
}

/// Two extractions from the same functions give the same widgets, each with
/// the same methods, whose arguments stand in the same order.
pub proof fn extraction_repeats(
    funcs: Seq<FuncView>,
    first: Seq<WidgetView>,
    second: Seq<WidgetView>,
)
    requires
        first == extracted(funcs),
        second == extracted(funcs),
    ensures
        first == second,
        first.to_set() == second.to_set(),
        forall|i: int|
            0 <= i < first.len() ==> (#[trigger] first[i]).methods.to_multiset()
                == second[i].methods.to_multiset(),
{
}

/// A widget is skipped exactly when it is the base object; any other widget
/// yields the object declaration and the implementation block.
pub proof fn only_the_base_object_is_skipped(w: WidgetView)
    ensures
        w.name == base_object() ==> widget_code(w) == Err::<Seq<char>, WrapperError>(
            WrapperError::Skip,
        ),
        w.name != base_object() ==> widget_code(w) == Ok::<Seq<char>, WrapperError>(
            widget_text(pascal_case_of(w.name), w),
        ),
{
}

/// The parameter list of a method begins with its receiver, which is shared
/// where the first argument's type is const-qualified and exclusive
/// otherwise; putting the arguments under their identifiers changes no type.
pub proof fn receiver_follows_constness(f: FuncView, n: int)
    requires
        1 <= n <= f.args.len(),
    ensures
        has_prefix(params_text(f.args, n), receiver_text(f.args[0].typ)),
        escaped(f).args.len() == f.args.len(),
        escaped(f).args[0].typ == f.args[0].typ,
        spelling_is_const(f.args[0].typ) ==> receiver_text(f.args[0].typ) == "&self"@,
        !spelling_is_const(f.args[0].typ) ==> receiver_text(f.args[0].typ) == "&mut self"@,
        "&self"@ != "&mut self"@,
    decreases n,
{
    reveal_strlit("&self");
    reveal_strlit("&mut self");
    let r = receiver_text(f.args[0].typ);
    if n == 1 {
        assert(params_text(f.args, 1).subrange(0, r.len() as int) =~= r);
    } else {
        receiver_follows_constness(f, n - 1);
        let before = params_text(f.args, n - 1);
        assert(before.subrange(0, r.len() as int) == r);
        assert(params_text(f.args, n).subrange(0, r.len() as int) =~= before.subrange(
            0,
            r.len() as int,
        ));
    }
}

/// A string-like argument gets a statement that builds an owned buffer under
/// its own identifier, and the call takes the buffer's raw pointer; an
/// argument of any other mapped type gets no statement and is passed as it
/// is.
pub proof fn strings_are_buffered(ident: Seq<char>, typ: Seq<char>)
    requires
        mapped_type(typ).is_some(),
    ensures
        spelling_is_str(typ) ==> processing_text(ident, typ) == "let "@ + ident
            + " = cstr_core::CString::new("@ + ident + ")?; "@ && usage_text(ident, typ) == ident
            + ".as_ptr()"@,
        !spelling_is_str(typ) ==> processing_text(ident, typ) == Seq::<char>::empty()
            && usage_text(ident, typ) == ident,
{
}

/// A function that returns a value and is not the constructor is skipped.
pub proof fn results_are_skipped(f: FuncView, widget: Seq<char>)
    requires
        f.ret.is_some(),
        local_name(f.name, widget) != "create"@,
    ensures
        func_code(f, widget) == Err::<Seq<char>, WrapperError>(WrapperError::Skip),
{
}

/// A function with an argument after the first whose type has no wrapper
/// type, and which is not the constructor, is skipped.
pub proof fn unmapped_arguments_are_skipped(f: FuncView, widget: Seq<char>, i: int)
    requires
        1 <= i < f.args.len(),
        mapped_type(f.args[i].typ).is_none(),
        local_name(f.name, widget) != "create"@,
    ensures
        !args_mapped(f.args),
        func_code(f, widget) == Err::<Seq<char>, WrapperError>(WrapperError::Skip),
{
    assert(escaped(f).args[i].typ == f.args[i].typ);
}

/// The constructor is never skipped, whatever it returns and whatever its
/// arguments are.
pub proof fn constructor_is_never_skipped(f: FuncView, widget: Seq<char>)
    requires
        local_name(f.name, widget) == "create"@,
    ensures
        func_code(f, widget) == Ok::<Seq<char>, WrapperError>(constructor_text(f.name)),
{
}

/// Every loaded function is the function of a declaration that declares a
/// function, has a name, does not have internal linkage and carries the
/// library's prefix.
pub proof fn loaded_come_from_qualifying(declarations: Seq<DeclarationView>, n: int, k: int)
    requires
        0 <= n <= declarations.len(),
        0 <= k < loaded(declarations, n).len(),
    ensures
        exists|i: int|
            0 <= i < n && is_loaded(#[trigger] declarations[i]) && loaded(declarations, n)[k]
                == function_of(declarations[i]),
        has_prefix(loaded(declarations, n)[k].name, lib_prefix()),
    decreases n,
{
    if n > 0 {
        let before = loaded(declarations, n - 1);
        if k < before.len() {
            loaded_come_from_qualifying(declarations, n - 1, k);
            let i = choose|i: int|
                0 <= i < n - 1 && is_loaded(#[trigger] declarations[i]) && before[k]
                    == function_of(declarations[i]);
            assert(is_loaded(declarations[i]) && loaded(declarations, n)[k] == function_of(
                declarations[i],
            ));
        } else {
            assert(is_loaded(declarations[n - 1]) && loaded(declarations, n)[k] == function_of(
                declarations[n - 1],
            ));
        }
    }
}

/// Every declaration that declares a function, has a name, does not have
/// internal linkage and carries the library's prefix is loaded.
pub proof fn qualifying_are_loaded(declarations: Seq<DeclarationView>, n: int, i: int)
    requires
        0 <= i < n <= declarations.len(),
        is_loaded(declarations[i]),
    ensures
        loaded(declarations, n).contains(function_of(declarations[i])),
    decreases n,
{
    let before = loaded(declarations, n - 1);
    let f = function_of(declarations[i]);
    if i < n - 1 {
        qualifying_are_loaded(declarations, n - 1, i);
        let j = choose|j: int| 0 <= j < before.len() && before[j] == f;
        assert(loaded(declarations, n)[j] == f);
    } else {
        assert(before.push(f)[before.len() as int] == f);
    }
}

} // verus!
