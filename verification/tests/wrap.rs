use pyimpl_backend::error::UserConfigError;
use pyimpl_backend::syntax::Span;
use pyimpl_backend::wrap::{
    function_wrapper_ident, module_def_ident, try_wrap_pymodule_impl, wrap_pyfunction_impl,
    wrap_pymodule_impl, Path, PathSegment, WrapPyFunctionArgs,
};

fn path(leading_colon: bool, segments: &[(&str, &str)]) -> Path {
    Path {
        span: Span { start: 3, end: 8 },
        leading_colon,
        segments: segments
            .iter()
            .map(|(ident, arguments)| PathSegment {
                ident: ident.to_string(),
                arguments: arguments.to_string(),
            })
            .collect(),
    }
}

#[test]
fn path_is_written_as_it_stands() {
    assert_eq!(path(false, &[("a", "")]).to_text(), "a");
    assert_eq!(path(true, &[("a", ""), ("b", "::<T>"), ("c", "")]).to_text(), "::a::b::<T>::c");
    assert_eq!(path(false, &[]).to_text(), "");
}

#[test]
fn wrapper_names_are_derived_from_the_item() {
    assert_eq!(function_wrapper_ident("double"), "__pyo3_get_function_double");
    assert_eq!(function_wrapper_ident("r#fn"), "__pyo3_get_function_fn");
    assert_eq!(module_def_ident("my_module"), "__PYO3_PYMODULE_DEF_MY_MODULE");
    assert_eq!(module_def_ident("straße"), "__PYO3_PYMODULE_DEF_STRASSE");
}

#[test]
fn function_without_argument_becomes_a_closure() {
    let args = WrapPyFunctionArgs { function: path(false, &[("m", ""), ("double", "")]), comma_and_arg: None };
    assert_eq!(
        wrap_pyfunction_impl(args),
        Ok("&|arg| m::__pyo3_get_function_double(arg)".to_string())
    );
}

#[test]
fn function_with_argument_becomes_a_call() {
    let args = WrapPyFunctionArgs {
        function: path(true, &[("double", "")]),
        comma_and_arg: Some("py".to_string()),
    };
    assert_eq!(wrap_pyfunction_impl(args), Ok("::__pyo3_get_function_double(py)".to_string()));
}

#[test]
fn empty_path_is_refused() {
    let args = WrapPyFunctionArgs { function: path(false, &[]), comma_and_arg: None };
    let expected = UserConfigError {
        span: Span { start: 3, end: 8 },
        message: "expected non-empty path".to_string(),
    };
    assert_eq!(wrap_pyfunction_impl(args), Err(expected));
    let expected = UserConfigError {
        span: Span { start: 3, end: 8 },
        message: "expected non-empty path".to_string(),
    };
    assert_eq!(wrap_pymodule_impl(path(false, &[])), Err(expected));
}

#[test]
fn module_becomes_a_closure_over_its_definition() {
    assert_eq!(
        wrap_pymodule_impl(path(false, &[("pkg", ""), ("sub", "")])),
        Ok("&|py| unsafe { pkg::__PYO3_PYMODULE_DEF_SUB.make_module(py).expect(\"failed to wrap pymodule\") }".to_string())
    );
}

#[test]
fn raw_module_name_has_no_definition() {
    assert_eq!(try_wrap_pymodule_impl(path(false, &[("r#mod", "")])), None);
    assert_eq!(
        try_wrap_pymodule_impl(path(false, &[("m", "")])),
        Some(Ok("&|py| unsafe { __PYO3_PYMODULE_DEF_M.make_module(py).expect(\"failed to wrap pymodule\") }".to_string()))
    );
}

#[test]
fn references_are_expressions() {
    let args = WrapPyFunctionArgs { function: path(false, &[("f", "")]), comma_and_arg: None };
    assert!(syn::parse_str::<syn::Expr>(&wrap_pyfunction_impl(args).unwrap()).is_ok());
    let code = wrap_pymodule_impl(path(false, &[("m", "")])).unwrap();
    assert!(syn::parse_str::<syn::Expr>(&code).is_ok());
}
