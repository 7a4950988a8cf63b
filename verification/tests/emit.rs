use pyimpl_backend::emit::{gate, impl_protos, impl_py_methods, submit_methods_inventory};
use pyimpl_backend::syntax::Attribute;
use pyimpl_backend::text::{join, str_eq, terminate};

fn texts(items: &[&str]) -> Vec<String> {
    items.iter().map(|s| s.to_string()).collect()
}

#[test]
fn join_puts_the_separator_between() {
    assert_eq!(join(&texts(&[]), ", "), "");
    assert_eq!(join(&texts(&["a"]), ", "), "a");
    assert_eq!(join(&texts(&["a", "b", "c"]), ", "), "a, b, c");
}

#[test]
fn terminate_puts_the_end_after_each() {
    assert_eq!(terminate(&texts(&[]), " "), "");
    assert_eq!(terminate(&texts(&["a", "b"]), "; "), "a; b; ");
}

#[test]
fn str_eq_compares_characters() {
    assert!(str_eq("cfg", "cfg"));
    assert!(!str_eq("cfg", "cfg_attr"));
    assert!(str_eq("", ""));
}

#[test]
fn gate_keeps_only_cfg_attributes() {
    let attrs = vec![
        Attribute { path: "doc".to_string(), text: "#[doc = \"d\"]".to_string(), options: Vec::new() },
        Attribute { path: "cfg".to_string(), text: "#[cfg(a)]".to_string(), options: Vec::new() },
    ];
    assert_eq!(gate(&attrs, "code"), "#[cfg(a)] code");
    assert_eq!(gate(&Vec::new(), "code"), "code");
}

#[test]
fn method_table_lists_the_methods() {
    assert_eq!(
        impl_py_methods("Cls", texts(&["a", "b"])),
        "impl _pyo3::class::impl_::PyMethods<Cls> for _pyo3::class::impl_::PyClassImplCollector<Cls> { fn py_methods(self) -> &'static [_pyo3::class::methods::PyMethodDefType] { static METHODS: &[_pyo3::class::methods::PyMethodDefType] = &[a, b]; METHODS } }"
    );
}

#[test]
fn protocol_table_lists_the_slots() {
    assert_eq!(
        impl_protos("Cls", texts(&["s"])),
        "impl _pyo3::class::impl_::PyMethodsProtocolSlots<Cls> for _pyo3::class::impl_::PyClassImplCollector<Cls> { fn methods_protocol_slots(self) -> &'static [_pyo3::ffi::PyType_Slot] { &[s] } }"
    );
}

#[test]
fn inventory_holds_both_tables() {
    assert_eq!(
        submit_methods_inventory("Cls", texts(&["a"]), texts(&[])),
        "_pyo3::inventory::submit! { type Inventory = <Cls as _pyo3::class::impl_::PyClassImpl>::Inventory; Inventory::new(&[a], &[]) }"
    );
}
