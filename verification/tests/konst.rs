use pyimpl_backend::konst::{gen_py_const, has_raw_prefix, string_literal, unraw, ConstSpec};
use pyimpl_backend::member::ConstAttributes;

fn spec(ident: &str, name: Option<&str>, deprecations: &str) -> ConstSpec {
    ConstSpec {
        rust_ident: ident.to_string(),
        attributes: ConstAttributes {
            is_class_attr: true,
            name: name.map(|n| n.to_string()),
            deprecations: deprecations.to_string(),
        },
    }
}

#[test]
fn raw_prefix_is_taken_off() {
    assert_eq!(unraw("r#type"), "type");
    assert_eq!(unraw("type"), "type");
    assert_eq!(unraw("r"), "r");
    assert_eq!(unraw("r#"), "");
    assert_eq!(unraw(""), "");
    assert!(has_raw_prefix("r#x"));
    assert!(!has_raw_prefix("rx#"));
}

#[test]
fn string_literal_escapes_what_must_be() {
    assert_eq!(string_literal("abc"), "\"abc\"");
    assert_eq!(string_literal(""), "\"\"");
    assert_eq!(string_literal("a\"b"), "\"a\\\"b\"");
    assert_eq!(string_literal("a\\b"), "\"a\\\\b\"");
    assert_eq!(string_literal("a\nb\rc\td\0"), "\"a\\nb\\rc\\td\\0\"");
    assert_eq!(string_literal("é'x"), "\"é'x\"");
}

#[test]
fn string_literal_reads_back_as_its_value() {
    for value in ["plain", "q\"uote", "back\\slash", "nul\0", "tab\tnew\nline", "ünï"] {
        let literal = string_literal(value);
        let parsed = syn::parse_str::<syn::LitStr>(&literal).unwrap();
        assert_eq!(parsed.value(), value);
    }
}

#[test]
fn python_name_is_the_declared_one_or_the_identifier() {
    assert_eq!(spec("MAX", None, "").python_name(), "MAX");
    assert_eq!(spec("MAX", Some("max_value"), "").python_name(), "max_value");
    assert_eq!(spec("r#type", None, "").python_name(), "type");
}

#[test]
fn class_attribute_wraps_the_constant() {
    assert_eq!(
        gen_py_const("MyClass", &spec("FIVE", None, "")),
        "_pyo3::class::PyMethodDefType::ClassAttribute({ _pyo3::class::PyClassAttributeDef::new(\"FIVE\\0\", _pyo3::class::methods::PyClassAttributeFactory({ fn __wrap(py: _pyo3::Python<'_>) -> _pyo3::PyObject {  _pyo3::IntoPy::into_py(MyClass::FIVE, py) } __wrap })) })"
    );
}

#[test]
fn class_attribute_carries_name_and_deprecations() {
    assert_eq!(
        gen_py_const("C", &spec("r#type", Some("kind"), "let _ = DEPRECATED;")),
        "_pyo3::class::PyMethodDefType::ClassAttribute({ _pyo3::class::PyClassAttributeDef::new(\"kind\\0\", _pyo3::class::methods::PyClassAttributeFactory({ fn __wrap(py: _pyo3::Python<'_>) -> _pyo3::PyObject { let _ = DEPRECATED; _pyo3::IntoPy::into_py(C::r#type, py) } __wrap })) })"
    );
}

#[test]
fn class_attribute_is_an_expression() {
    let code = gen_py_const("C", &spec("__contains__", None, ""));
    assert!(syn::parse_str::<syn::Expr>(&code).is_ok());
}
