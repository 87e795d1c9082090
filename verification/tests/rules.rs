use lvgl_codegen::emit::{declaration_for, escape_ident, processing_for, usage_for};
use lvgl_codegen::text::{contains, ends_with, matches_at, remove_all, same_text, starts_with};
use lvgl_codegen::{
    CodeGen, Declaration, LvArg, LvFunc, LvType, LvWidget, Rusty, WrapperError,
};

fn typ(spelling: &str) -> LvType {
    LvType::new(spelling.to_string())
}

fn param(name: &str, spelling: &str) -> LvArg {
    LvArg::new(name.to_string(), typ(spelling))
}

fn func(name: &str, args: Vec<LvArg>, ret: Option<&str>) -> LvFunc {
    LvFunc::new(name.to_string(), args, ret.map(typ))
}

fn constructor(widget: &str) -> LvFunc {
    func(
        &format!("lv_{}_create", widget),
        vec![param("par", "lv_obj_t *"), param("copy", "const lv_obj_t *")],
        Some("lv_obj_t *"),
    )
}

fn widget(name: &str, methods: Vec<LvFunc>) -> LvWidget {
    LvWidget::new(name.to_string(), methods)
}

fn names(list: &[&str]) -> Vec<String> {
    list.iter().map(|s| s.to_string()).collect()
}

fn method_names(w: &LvWidget) -> Vec<String> {
    w.methods().iter().map(|f| f.name().to_string()).collect()
}

const CONSTRUCTOR_HEAD: &str = "pub fn new<C>(parent: &mut C) -> crate::LvResult<Self> where C: crate::NativeObject, { unsafe { let ptr = lvgl_sys::";
const CONSTRUCTOR_TAIL: &str = "(parent.raw()?.as_mut(), core::ptr::null_mut()); let raw = core::ptr::NonNull::new(ptr)?; let core = <crate::Obj as crate::Widget>::from_raw(raw); Ok(Self { core }) } }";

#[test]
fn text_predicates_agree_with_std() {
    let samples = ["", "a", "lv_", "lv_arc_set", "const char *", "char *", "aaa", "é_ü", "lv_obj_t *"];
    let patterns = ["", "a", "aa", "lv_", "char *", "const ", "_", "é", "lv_obj_t", "zz"];
    for s in samples.iter() {
        for p in patterns.iter() {
            assert_eq!(starts_with(s, p), s.starts_with(p), "{:?} {:?}", s, p);
            assert_eq!(ends_with(s, p), s.ends_with(p), "{:?} {:?}", s, p);
            assert_eq!(contains(s, p), s.contains(p), "{:?} {:?}", s, p);
            assert_eq!(same_text(s, p), s == p, "{:?} {:?}", s, p);
            assert_eq!(remove_all(s, p), s.replace(p, ""), "{:?} {:?}", s, p);
        }
    }
}

#[test]
fn matches_at_checks_the_position() {
    assert!(matches_at("lv_arc", 3, "arc"));
    assert!(!matches_at("lv_arc", 2, "arc"));
    assert!(!matches_at("lv_arc", 4, "arc"));
    assert!(matches_at("lv_arc", 6, ""));
    assert!(!matches_at("lv_arc", 7, ""));
}

#[test]
fn remove_all_takes_every_occurrence_from_the_left() {
    assert_eq!(remove_all("lv_arc_set_lv_arc_x", "lv_arc_"), "set_x");
    assert_eq!(remove_all("aaa", "aa"), "a");
    assert_eq!(remove_all("lv_arc_", "lv_arc_"), "");
    assert_eq!(remove_all("lv_btn_set", "lv_arc_"), "lv_btn_set");
}

#[test]
fn const_and_string_types_are_told_by_their_spelling() {
    assert!(typ("const char *").is_const());
    assert!(typ("const lv_obj_t *").is_const());
    assert!(!typ("lv_obj_t *").is_const());
    assert!(!typ("constant").is_const());
    assert!(typ("const char *").is_str());
    assert!(typ("char *").is_str());
    assert!(typ("unsigned char *").is_str());
    assert!(!typ("char").is_str());
    assert!(!typ("char **").is_str());
}

#[test]
fn method_test_reads_the_first_argument_only() {
    assert!(func("f", vec![param("a", "lv_obj_t *")], None).is_method());
    assert!(func("f", vec![param("a", "const lv_obj_t *"), param("b", "int")], None).is_method());
    assert!(func("f", vec![param("a", "struct _lv_obj_t")], None).is_method());
    assert!(!func("f", vec![param("a", "int"), param("b", "lv_obj_t *")], None).is_method());
    assert!(!func("f", vec![], None).is_method());
}

#[test]
fn type_table_maps_each_entry() {
    let a = param("x", "int");
    let table = [
        ("uint16_t", "u16"),
        ("int32_t", "i32"),
        ("uint8_t", "u8"),
        ("bool", "bool"),
        ("_Bool", "bool"),
        ("const char *", "&str"),
    ];
    for (c, rust) in table.iter() {
        assert_eq!(typ(c).code(&a), Ok(rust.to_string()));
    }
}

#[test]
fn string_suffix_maps_without_a_table_entry() {
    let a = param("x", "int");
    assert_eq!(typ("char *").code(&a), Ok("&str".to_string()));
    assert_eq!(typ("unsigned char *").code(&a), Ok("&str".to_string()));
}

#[test]
fn unmapped_type_is_skipped() {
    let a = param("x", "int");
    assert_eq!(typ("lv_color_t").code(&a), Err(WrapperError::Skip));
    assert_eq!(typ("uint16_t ").code(&a), Err(WrapperError::Skip));
    assert_eq!(typ("").code(&a), Err(WrapperError::Skip));
}

#[test]
fn plain_names_stay_and_keywords_are_escaped() {
    assert_eq!(param("end", "uint16_t").get_name_ident(), "end");
    assert_eq!(param("type", "uint16_t").get_name_ident(), "r#type");
    assert_eq!(param("match", "uint16_t").get_name_ident(), "r#match");
    assert_eq!(escape_ident("x", true), "x");
    assert_eq!(escape_ident("x", false), "r#x");
}

#[test]
fn string_argument_is_buffered_before_the_call() {
    let text = param("text", "const char *");
    assert_eq!(text.get_processing(), "let text = cstr_core::CString::new(text)?; ");
    assert_eq!(text.get_value_usage(), "text.as_ptr()");
    assert_eq!(
        processing_for("r#type", &typ("char *")),
        "let r#type = cstr_core::CString::new(r#type)?; "
    );
    assert_eq!(usage_for("r#type", &typ("char *")), "r#type.as_ptr()");
}

#[test]
fn other_argument_is_passed_as_it_is() {
    let end = param("end", "uint16_t");
    assert_eq!(end.get_processing(), "");
    assert_eq!(end.get_value_usage(), "end");
    assert_eq!(processing_for("on", &typ("bool")), "");
    assert_eq!(usage_for("on", &typ("bool")), "on");
}

#[test]
fn argument_code_is_the_declaration() {
    let f = func("lv_f", vec![], None);
    assert_eq!(param("end", "uint16_t").code(&f), Ok("end: u16".to_string()));
    assert_eq!(param("type", "const char *").code(&f), Ok("r#type: &str".to_string()));
    assert_eq!(param("c", "lv_color_t").code(&f), Err(WrapperError::Skip));
    assert_eq!(param("end", "uint16_t").get_type(), &typ("uint16_t"));
}

#[test]
fn method_text_is_exact() {
    let f = func(
        "lv_label_set_text",
        vec![param("label", "lv_obj_t *"), param("text", "const char *"), param("n", "uint8_t")],
        None,
    );
    let code = f.code(&widget("label", vec![])).unwrap();
    assert_eq!(
        code,
        "pub fn set_text(&mut self, text: &str, n: u8) -> crate::LvResult<()> { let text = cstr_core::CString::new(text)?; unsafe { lvgl_sys::lv_label_set_text(self.core.raw()?.as_mut(), text.as_ptr(), n); } Ok(()) }"
    );
    assert_eq!(f.local_name(&widget("label", vec![])), "set_text");
    assert_eq!(f.parameters(), "&mut self, text: &str, n: u8");
    assert_eq!(f.preparation(), "let text = cstr_core::CString::new(text)?; ");
    assert_eq!(f.call_arguments(), "self.core.raw()?.as_mut(), text.as_ptr(), n");
    assert!(f.args_supported());
}

#[test]
fn const_first_argument_gives_a_shared_receiver() {
    let shared = func(
        "lv_arc_set_x",
        vec![param("arc", "const lv_obj_t *"), param("x", "int32_t")],
        None,
    );
    let exclusive = func(
        "lv_arc_set_x",
        vec![param("arc", "lv_obj_t *"), param("x", "int32_t")],
        None,
    );
    let arc = widget("arc", vec![]);
    assert_eq!(
        shared.code(&arc).unwrap(),
        "pub fn set_x(&self, x: i32) -> crate::LvResult<()> { unsafe { lvgl_sys::lv_arc_set_x(self.core.raw()?.as_mut(), x); } Ok(()) }"
    );
    assert_eq!(
        exclusive.code(&arc).unwrap(),
        "pub fn set_x(&mut self, x: i32) -> crate::LvResult<()> { unsafe { lvgl_sys::lv_arc_set_x(self.core.raw()?.as_mut(), x); } Ok(()) }"
    );
}

#[test]
fn method_with_a_result_is_skipped() {
    let f = func("lv_arc_get_angle", vec![param("arc", "lv_obj_t *")], Some("uint16_t"));
    assert!(f.has_result());
    assert_eq!(f.code(&widget("arc", vec![])), Err(WrapperError::Skip));
}

#[test]
fn method_with_an_unmapped_argument_is_skipped() {
    let f = func(
        "lv_arc_set_color",
        vec![param("arc", "lv_obj_t *"), param("end", "uint16_t"), param("c", "lv_color_t")],
        None,
    );
    assert!(!f.args_supported());
    assert_eq!(f.code(&widget("arc", vec![])), Err(WrapperError::Skip));
}

#[test]
fn unmapped_first_argument_does_not_skip() {
    let f = func("lv_arc_reset", vec![param("arc", "lv_obj_t *")], None);
    assert_eq!(
        f.code(&widget("arc", vec![])).unwrap(),
        "pub fn reset(&mut self) -> crate::LvResult<()> { unsafe { lvgl_sys::lv_arc_reset(self.core.raw()?.as_mut()); } Ok(()) }"
    );
}

#[test]
fn constructor_is_emitted_whatever_it_returns() {
    let arc = widget("arc", vec![]);
    let expected = format!("{}lv_arc_create{}", CONSTRUCTOR_HEAD, CONSTRUCTOR_TAIL);
    assert_eq!(constructor("arc").code(&arc).unwrap(), expected);
    assert_eq!(constructor("arc").constructor(), expected);
    let odd = func("lv_arc_create", vec![param("c", "lv_color_t")], None);
    assert_eq!(odd.code(&arc).unwrap(), expected);
}

#[test]
fn base_object_is_skipped() {
    assert_eq!(widget("obj", vec![constructor("obj")]).code(&()), Err(WrapperError::Skip));
    assert!(widget("objx", vec![]).code(&()).is_ok());
}

#[test]
fn widget_name_becomes_pascal_case() {
    assert_eq!(widget("arc", vec![]).code(&()).unwrap(), "define_object!(Arc); impl Arc { }");
    assert_eq!(
        widget("color_picker", vec![]).code(&()).unwrap(),
        "define_object!(ColorPicker); impl ColorPicker { }"
    );
    assert_eq!(widget("arc", vec![]).code_as("Dial"), "define_object!(Dial); impl Dial { }");
}

#[test]
fn skipped_methods_are_left_out_of_the_widget() {
    let kept = func("lv_arc_set_end", vec![param("arc", "lv_obj_t *"), param("end", "uint16_t")], None);
    let with_result = func("lv_arc_get_end", vec![param("arc", "lv_obj_t *")], Some("uint16_t"));
    let unmapped = func("lv_arc_set_c", vec![param("arc", "lv_obj_t *"), param("c", "lv_color_t")], None);
    let arc = widget("arc", vec![with_result, kept.clone(), unmapped]);
    let only = widget("arc", vec![kept.clone()]);
    let code = arc.code(&()).unwrap();
    assert_eq!(code, only.code(&()).unwrap());
    assert_eq!(
        code,
        format!("define_object!(Arc); impl Arc {{ {} }}", kept.code(&only).unwrap())
    );
}

#[test]
fn constructor_pattern_is_anchored_and_excludes_underscores() {
    let two = |name: &str| func(name, vec![param("a", "x"), param("b", "y")], None);
    let funcs = vec![
        two("lv_a_b_create"),
        two("lv__create"),
        two("xlv_arc_create"),
        two("lv_arc_create2"),
        two("lv_arc_create\n"),
        two("lv_create"),
        two("LV_arc_create"),
        two("lv_a\nb_create"),
        two("lv_é_create"),
        two("lv_Arc_create"),
    ];
    assert_eq!(CodeGen::get_widget_names(&funcs), names(&["a\nb", "é", "Arc"]));
}

#[test]
fn constructor_needs_exactly_two_arguments() {
    let funcs = vec![
        func("lv_a_create", vec![], None),
        func("lv_b_create", vec![param("p", "x")], None),
        func("lv_c_create", vec![param("p", "x"), param("q", "y")], None),
        func("lv_d_create", vec![param("p", "x"), param("q", "y"), param("r", "z")], None),
    ];
    assert_eq!(CodeGen::get_widget_names(&funcs), names(&["c"]));
}

#[test]
fn widget_is_named_once() {
    let funcs = vec![constructor("btn"), constructor("arc"), constructor("btn")];
    assert_eq!(CodeGen::get_widget_names(&funcs), names(&["btn", "arc"]));
    let widgets = CodeGen::extract_widgets(&funcs);
    assert_eq!(widgets.len(), 2);
    assert_eq!(method_names(&widgets[0]), names(&["lv_btn_create", "lv_btn_create"]));
}

#[test]
fn methods_go_to_the_widget_whose_prefix_they_carry() {
    let funcs = vec![
        constructor("arc"),
        func("lv_arc_set_end", vec![param("arc", "lv_obj_t *"), param("end", "uint16_t")], None),
        func("lv_arc_helper", vec![param("n", "uint16_t")], None),
        func("lv_label_set_text", vec![param("l", "lv_obj_t *")], None),
        constructor("label"),
        func("lv_init", vec![], None),
    ];
    let widgets = CodeGen::extract_widgets(&funcs);
    assert_eq!(widgets.len(), 2);
    assert_eq!(widgets[0].name(), "arc");
    assert_eq!(method_names(&widgets[0]), names(&["lv_arc_create", "lv_arc_set_end"]));
    assert_eq!(widgets[1].name(), "label");
    assert_eq!(method_names(&widgets[1]), names(&["lv_label_set_text", "lv_label_create"]));
    assert_eq!(widgets[0].methods()[1].args().len(), 2);
    assert_eq!(widgets[0].methods()[1].args()[1].name(), "end");
}

#[test]
fn widget_name_that_begins_another_takes_its_functions_too() {
    let funcs = vec![
        constructor("btn"),
        constructor("btnmatrix"),
        func("lv_btnmatrix_set_map", vec![param("b", "lv_obj_t *")], None),
        func("lv_btn_toggle", vec![param("b", "lv_obj_t *")], None),
    ];
    let widgets = CodeGen::extract_widgets(&funcs);
    assert_eq!(widgets.len(), 2);
    assert_eq!(
        method_names(&widgets[0]),
        names(&["lv_btn_create", "lv_btnmatrix_create", "lv_btnmatrix_set_map", "lv_btn_toggle"])
    );
    assert_eq!(
        method_names(&widgets[1]),
        names(&["lv_btnmatrix_create", "lv_btnmatrix_set_map"])
    );
}

#[test]
fn widget_without_methods_is_still_extracted() {
    let funcs = vec![func("lv_cb_create", vec![param("p", "abc"), param("c", "bcf")], None)];
    let widgets = CodeGen::extract_widgets(&funcs);
    assert_eq!(widgets.len(), 1);
    assert_eq!(widgets[0].name(), "cb");
    assert!(widgets[0].methods().is_empty());
    assert_eq!(widgets[0].code(&()).unwrap(), "define_object!(Cb); impl Cb { }");
}

#[test]
fn extraction_twice_gives_the_same_widgets() {
    let funcs = vec![
        constructor("arc"),
        constructor("obj"),
        func("lv_arc_set_end", vec![param("arc", "lv_obj_t *"), param("end", "uint16_t")], None),
        func("lv_obj_del", vec![param("obj", "lv_obj_t *")], None),
    ];
    let first = CodeGen::extract_widgets(&funcs);
    let second = CodeGen::extract_widgets(&funcs);
    assert_eq!(first, second);
    assert_eq!(first.len(), 2);
}

fn declaration(name: Option<&str>, args: Vec<LvArg>, result: &str) -> Declaration {
    Declaration {
        is_function: true,
        name: name.map(|n| n.to_string()),
        internal_linkage: false,
        result: result.to_string(),
        args,
    }
}

#[test]
fn loader_keeps_named_external_library_functions() {
    let object = vec![param("obj", "lv_obj_t *")];
    let declarations = vec![
        declaration(Some("printf"), vec![param("fmt", "const char *")], "int"),
        declaration(Some("lv_arc_create"), vec![param("par", "lv_obj_t *"), param("copy", "const lv_obj_t *")], "lv_obj_t *"),
        Declaration { is_function: false, ..declaration(Some("lv_color_t"), vec![], "") },
        Declaration { internal_linkage: true, ..declaration(Some("lv_helper"), object.clone(), "void") },
        declaration(None, vec![], "void"),
        declaration(Some("lvx_other"), vec![], "void"),
        declaration(Some("lv_obj_del"), object.clone(), "void"),
        declaration(Some("lv_obj_get_x"), object.clone(), "void *"),
    ];
    assert_eq!(
        CodeGen::load_function_definitions(declarations),
        vec![
            constructor("arc"),
            func("lv_obj_del", object.clone(), None),
            func("lv_obj_get_x", object.clone(), Some("void *")),
        ]
    );
}

#[test]
fn loader_needs_every_condition() {
    let keep = || declaration(Some("lv_init"), vec![], "void");
    assert_eq!(CodeGen::load_function_definitions(vec![keep()]).len(), 1);
    let not_function = Declaration { is_function: false, ..keep() };
    let unnamed = Declaration { name: None, ..keep() };
    let internal = Declaration { internal_linkage: true, ..keep() };
    let foreign = Declaration { name: Some("l_init".to_string()), ..keep() };
    assert!(CodeGen::load_function_definitions(vec![not_function, unnamed, internal, foreign]).is_empty());
    assert!(CodeGen::load_function_definitions(vec![]).is_empty());
}

#[test]
fn generator_keeps_the_library_functions_only() {
    let declarations = vec![
        declaration(Some("printf"), vec![param("fmt", "const char *")], "int"),
        declaration(Some("lv_arc_create"), vec![param("par", "lv_obj_t *"), param("copy", "const lv_obj_t *")], "lv_obj_t *"),
        declaration(Some("lvx_other"), vec![], "void"),
        declaration(Some("lv_init"), vec![], "void"),
    ];
    let lv = CodeGen::new(declarations);
    assert_eq!(lv.get_function_names(), names(&["lv_arc_create", "lv_init"]));
    assert_eq!(lv.get_widgets().len(), 1);
    assert_eq!(lv.get_widgets()[0].name(), "arc");
    assert_eq!(method_names(&lv.get_widgets()[0]), names(&["lv_arc_create"]));
}

#[test]
fn declaration_is_written_for_a_given_identifier() {
    assert_eq!(declaration_for("r#type", &typ("uint8_t")), Ok("r#type: u8".to_string()));
    assert_eq!(declaration_for("text", &typ("char *")), Ok("text: &str".to_string()));
    assert_eq!(declaration_for("c", &typ("lv_color_t")), Err(WrapperError::Skip));
    assert_eq!(typ("int32_t").mapped(), Ok("i32".to_string()));
    assert_eq!(typ("int").mapped(), Err(WrapperError::Skip));
}

#[test]
fn verbatim_code_takes_names_as_identifiers() {
    let f = func(
        "lv_label_set_type",
        vec![param("label", "lv_obj_t *"), param("type", "const char *")],
        None,
    );
    let label = widget("label", vec![]);
    assert_eq!(
        f.code_verbatim(&label).unwrap(),
        "pub fn set_type(&mut self, type: &str) -> crate::LvResult<()> { let type = cstr_core::CString::new(type)?; unsafe { lvgl_sys::lv_label_set_type(self.core.raw()?.as_mut(), type.as_ptr()); } Ok(()) }"
    );
    assert_eq!(
        f.code(&label).unwrap(),
        "pub fn set_type(&mut self, r#type: &str) -> crate::LvResult<()> { let r#type = cstr_core::CString::new(r#type)?; unsafe { lvgl_sys::lv_label_set_type(self.core.raw()?.as_mut(), r#type.as_ptr()); } Ok(()) }"
    );
    assert_eq!(
        f.escaped(),
        func(
            "lv_label_set_type",
            vec![param("label", "lv_obj_t *"), param("r#type", "const char *")],
            None,
        )
    );
    assert_eq!(param("type", "bool").escaped(), param("r#type", "bool"));
    assert_eq!(f.escaped().code_verbatim(&label), f.code(&label));
    let get = func("lv_label_get", vec![param("label", "lv_obj_t *")], Some("int"));
    assert_eq!(get.code_verbatim(&label), Err(WrapperError::Skip));
    assert_eq!(get.with_args(vec![]), func("lv_label_get", vec![], Some("int")));
}

#[test]
fn void_result_is_no_return_type() {
    let by_void = LvFunc::declared("lv_f".to_string(), vec![param("a", "int")], "void".to_string());
    assert_eq!(by_void, func("lv_f", vec![param("a", "int")], None));
    assert!(!by_void.has_result());
    let by_pointer = LvFunc::declared("lv_f".to_string(), vec![], "void *".to_string());
    assert_eq!(by_pointer, func("lv_f", vec![], Some("void *")));
    assert!(by_pointer.has_result());
}

#[test]
fn copies_are_equal() {
    let arc = widget("arc", vec![constructor("arc")]);
    assert_eq!(arc.clone(), arc);
    assert_eq!(constructor("arc").clone(), constructor("arc"));
    assert_eq!(typ("int").spelling(), "int");
}
