//! Extraction: which widgets a list of functions declares, and which
//! functions belong to each.

use vstd::prelude::*;
use vstd::string::*;
use crate::load::{declaration_views, loaded, Declaration};
use crate::model::{
    clone_args, func_is_method, func_views, lib_prefix, texts, widget_views, FuncView, LvFunc,
    LvWidget, WidgetView,
};
use crate::bindings::{create_pattern, created_widget, first_capture};
use crate::text::{has_prefix, starts_with};

verus! {

/// The widget that a function declares: the one in its name, where the name
/// is a constructor's and the function takes exactly two arguments.
pub open spec fn declared_widget(f: FuncView) -> Option<Seq<char>> {
    if f.args.len() == 2 {
        created_widget(f.name)
    } else {
        None
    }
}

/// The widgets that the first `n` functions declare, each once, in the order
/// in which they are first declared.
pub open spec fn widget_names(funcs: Seq<FuncView>, n: int) -> Seq<Seq<char>>
    decreases n,
{
    if n <= 0 {
        Seq::empty()
    } else {
        let before = widget_names(funcs, n - 1);
        match declared_widget(funcs[n - 1]) {
            Some(w) => if before.contains(w) {
                before
            } else {
                before.push(w)
            },
            None => before,
        }
    }
}

/// A function belongs to a widget where it is a method and its name begins
/// with the prefix and the widget's name; nothing is asked of what follows.
pub open spec fn belongs_to(f: FuncView, widget: Seq<char>) -> bool {
    has_prefix(f.name, lib_prefix() + widget) && func_is_method(f)
}

/// The functions among the first `n` that belong to a widget, in order.
pub open spec fn methods_of(funcs: Seq<FuncView>, widget: Seq<char>, n: int) -> Seq<FuncView>
    decreases n,
{
    if n <= 0 {
        Seq::empty()
    } else {
        let before = methods_of(funcs, widget, n - 1);
        if belongs_to(funcs[n - 1], widget) {
            before.push(funcs[n - 1])
        } else {
            before
        }
    }
}

/// The widget of a name: the name and every function that belongs to it.
pub open spec fn widget_of(funcs: Seq<FuncView>, name: Seq<char>) -> WidgetView {
    WidgetView { name, methods: methods_of(funcs, name, funcs.len() as int) }
}

/// The widgets of a list of functions: one for each declared widget, in the
/// order of the declarations.
pub open spec fn extracted(funcs: Seq<FuncView>) -> Seq<WidgetView> {
    let names = widget_names(funcs, funcs.len() as int);
    Seq::new(names.len(), |i: int| widget_of(funcs, names[i]))
}

/// The names of a list of functions, in order.
pub open spec fn names_of(funcs: Seq<FuncView>) -> Seq<Seq<char>> {
    Seq::new(funcs.len(), |i: int| funcs[i].name)
}

/// Tells whether `name` is among `names`.
fn holds(names: &Vec<String>, name: &String) -> (r: bool)
    ensures
        r == texts(names@).contains(name@),
{
    let mut i: usize = 0;
    while i < names.len()
        invariant
            i <= names.len(),
            forall|j: int| 0 <= j < i ==> texts(names@)[j] != name@,
        decreases names.len() - i,
    {
        if names[i] == *name {
            proof {
                assert(texts(names@)[i as int] == name@);
            }
            return true;
        }
        i += 1;
    }
    false
}

/// The loaded functions and the widgets extracted from them.
pub struct CodeGen {
    functions: Vec<LvFunc>,
    widgets: Vec<LvWidget>,
}

impl CodeGen {
    /// The functions that were loaded.
    pub closed spec fn functions(&self) -> Seq<FuncView> {
        func_views(self.functions@)
    }

    /// The widgets that were extracted.
    pub closed spec fn widgets(&self) -> Seq<WidgetView> {
        widget_views(self.widgets@)
    }

    /// Loads the functions of the declarations and extracts the widgets from
    /// them.
    pub fn new(declarations: Vec<Declaration>) -> (r: Self)
        ensures
            r.functions() == loaded(
                declaration_views(declarations@),
                declarations@.len() as int,
            ),
            r.widgets() == extracted(r.functions()),
    {
        let functions = Self::load_function_definitions(declarations);
        let widgets = Self::extract_widgets(&functions);
        Self { functions, widgets }
    }

    pub fn get_widgets(&self) -> (r: &Vec<LvWidget>)
        ensures
            widget_views(r@) == self.widgets(),
    {
        &self.widgets
    }

    /// Of the top-level declarations of a translation unit, keeps the
    /// function declarations that have a name, do not have internal linkage
    /// and carry the library's prefix, each as a function, in order.
    pub fn load_function_definitions(declarations: Vec<Declaration>) -> (r: Vec<LvFunc>)
        ensures
            func_views(r@) == loaded(
                declaration_views(declarations@),
                declarations@.len() as int,
            ),
    {
        let ghost all = declaration_views(declarations@);
        let mut kept: Vec<LvFunc> = Vec::new();
        let mut i: usize = 0;
        proof {
            assert(func_views(kept@) =~= loaded(all, 0));
        }
        while i < declarations.len()
            invariant
                i <= declarations.len(),
                all == declaration_views(declarations@),
                func_views(kept@) == loaded(all, i as int),
            decreases declarations.len() - i,
        {
            let d = &declarations[i];
            proof {
                assert(all[i as int] == d@);
            }
            if d.is_function && !d.internal_linkage {
                match &d.name {
                    Some(name) => {
                        if starts_with(name.as_str(), "lv_") {
                            let f = LvFunc::declared(
                                name.clone(),
                                clone_args(&d.args),
                                d.result.clone(),
                            );
                            proof {
                                assert(func_views(kept@.push(f)) =~= func_views(kept@).push(f@));
                            }
                            kept.push(f);
                        }
                    },
                    None => {},
                }
            }
            i += 1;
        }
        kept
    }

    pub fn extract_widgets(functions: &Vec<LvFunc>) -> (r: Vec<LvWidget>)
        ensures
            widget_views(r@) == extracted(func_views(functions@)),
    {
        let ghost all = func_views(functions@);
        let found = Self::get_widget_names(functions);
        let mut widgets: Vec<LvWidget> = Vec::new();
        let mut k: usize = 0;
        while k < found.len()
            invariant
                k <= found.len(),
                all == func_views(functions@),
                texts(found@) == widget_names(all, all.len() as int),
                widgets@.len() == k,
                forall|j: int|
                    0 <= j < k ==> widgets@[j]@ == widget_of(all, texts(found@)[j]),
            decreases found.len() - k,
        {
            let widget_name = &found[k];
            let mut templ = String::from_str("lv_");
            templ.append(widget_name.as_str());
            let mut methods: Vec<LvFunc> = Vec::new();
            let mut i: usize = 0;
            proof {
                assert(func_views(methods@) =~= methods_of(all, widget_name@, 0));
            }
            while i < functions.len()
                invariant
                    i <= functions.len(),
                    all == func_views(functions@),
                    templ@ == lib_prefix() + widget_name@,
                    func_views(methods@) == methods_of(all, widget_name@, i as int),
                decreases functions.len() - i,
            {
                let f = &functions[i];
                proof {
                    assert(all[i as int] == f@);
                }
                if starts_with(f.name(), templ.as_str()) && f.is_method() {
                    let copy = f.clone();
                    proof {
                        assert(func_views(methods@.push(copy)) =~= func_views(methods@).push(
                            copy@,
                        ));
                    }
                    methods.push(copy);
                }
                i += 1;
            }
            let widget = LvWidget::new(widget_name.clone(), methods);
            proof {
                assert(texts(found@)[k as int] == widget_name@);
            }
            widgets.push(widget);
            k += 1;
        }
        proof {
            assert(widget_views(widgets@) =~= extracted(all));
        }
        widgets
    }

    pub fn get_widget_names(functions: &Vec<LvFunc>) -> (r: Vec<String>)
        ensures
            texts(r@) == widget_names(func_views(functions@), functions@.len() as int),
    {
        let ghost all = func_views(functions@);
        let mut reg = String::from_str("^");
        reg.append("lv_");
        reg.append("([^_]+)_create$");
        let mut names: Vec<String> = Vec::new();
        let mut i: usize = 0;
        proof {
            assert(texts(names@) =~= widget_names(all, 0));
        }
        while i < functions.len()
            invariant
                i <= functions.len(),
                all == func_views(functions@),
                reg@ == create_pattern(),
                texts(names@) == widget_names(all, i as int),
            decreases functions.len() - i,
        {
            let f = &functions[i];
            proof {
                assert(all[i as int] == f@);
            }
            if f.args().len() == 2 {
                match first_capture(reg.as_str(), f.name()) {
                    Some(w) => {
                        if !holds(&names, &w) {
                            proof {
                                assert(texts(names@.push(w)) =~= texts(names@).push(w@));
                            }
                            names.push(w);
                        }
                    },
                    None => {},
                }
            }
            i += 1;
        }
        names
    }

    pub fn get_function_names(&self) -> (r: Vec<String>)
        ensures
            texts(r@) == names_of(self.functions()),
    {
        let mut names: Vec<String> = Vec::new();
        let mut i: usize = 0;
        while i < self.functions.len()
            invariant
                i <= self.functions.len(),
                names@.len() == i,
                forall|j: int| 0 <= j < i ==> names@[j]@ == self.functions@[j]@.name,
            decreases self.functions.len() - i,
        {
            names.push(String::from_str(self.functions[i].name()));
            i += 1;
        }
        proof {
            assert(texts(names@) =~= names_of(self.functions()));
        }
        names
    }
}

} // verus!
