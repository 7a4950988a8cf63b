use pyimpl_backend::error::InternalConsistencyError;
use pyimpl_backend::member::{GeneratedPyMethod, ImplItemMethod};
use pyimpl_backend::pyimpl::{check_default_slots, gen_default_slot_impls, try_gen_default_slot_impls};
use pyimpl_backend::syntax::Attribute;

fn def(definition: &str, generated: GeneratedPyMethod) -> ImplItemMethod {
    ImplItemMethod { attrs: Vec::new(), definition: definition.to_string(), generated }
}

fn proto(code: &str) -> GeneratedPyMethod {
    GeneratedPyMethod::Proto(code.to_string())
}

#[test]
fn default_slots_are_listed_with_their_methods() {
    let mut gated = def("fn __b__(&self) {}", proto("slot_b"));
    gated.attrs.push(Attribute {
        path: "cfg".to_string(),
        text: "#[cfg(unix)]".to_string(),
        options: Vec::new(),
    });
    let code = gen_default_slot_impls("C", vec![def("fn __a__(&self) {}", proto("slot_a")), gated]);
    assert_eq!(
        code,
        "impl C { fn __a__(&self) {} fn __b__(&self) {} } impl ::pyo3::class::impl_::PyClassDefaultSlots<C> for ::pyo3::class::impl_::PyClassImplCollector<C> { fn py_class_default_slots(self) -> &'static [::pyo3::ffi::PyType_Slot] { &[slot_a, #[cfg(unix)] slot_b] } }"
    );
}

#[test]
fn no_default_slot_gives_an_empty_table() {
    assert_eq!(
        try_gen_default_slot_impls("C", Vec::new()),
        Ok("impl C { } impl ::pyo3::class::impl_::PyClassDefaultSlots<C> for ::pyo3::class::impl_::PyClassImplCollector<C> { fn py_class_default_slots(self) -> &'static [::pyo3::ffi::PyType_Slot] { &[] } }".to_string())
    );
}

#[test]
fn regular_method_as_default_is_an_internal_defect() {
    let defs = vec![
        def("fn a() {}", proto("slot_a")),
        def("fn b() {}", GeneratedPyMethod::Method("m".to_string())),
    ];
    assert_eq!(
        try_gen_default_slot_impls("C", defs),
        Err(InternalConsistencyError::NonProtocolDefault)
    );
}

#[test]
fn trait_impl_as_default_is_an_internal_defect() {
    let defs = vec![def("fn b() {}", GeneratedPyMethod::TraitImpl("t".to_string()))];
    assert_eq!(check_default_slots(&defs), Err(InternalConsistencyError::NonProtocolDefault));
}

#[test]
fn fragment_as_default_is_an_internal_defect() {
    let defs = vec![
        def("fn b() {}", GeneratedPyMethod::SlotTraitImpl("__add__".to_string(), "f".to_string())),
        def("fn c() {}", GeneratedPyMethod::Method("m".to_string())),
    ];
    assert_eq!(check_default_slots(&defs), Err(InternalConsistencyError::FragmentDefault));
}

#[test]
fn defects_have_their_words() {
    assert_eq!(
        InternalConsistencyError::FragmentDefault.message(),
        "SlotFragment methods cannot have default implementation!"
    );
    assert_eq!(
        InternalConsistencyError::NonProtocolDefault.message(),
        "Only protocol methods can have default implementation!"
    );
    assert_eq!(
        InternalConsistencyError::UnknownFragment.message(),
        "a slot fragment was left unmerged"
    );
}

#[test]
fn default_slots_are_rust() {
    let code = gen_default_slot_impls("C", vec![def("fn __a__(&self) {}", proto("slot_a()"))]);
    assert!(syn::parse_str::<syn::File>(&code).is_ok());
}
