use pyimpl_backend::error::UserConfigError;
use pyimpl_backend::options::{
    get_pyo3_crate, take_pyo3_options, CrateAttribute, PyImplOptions, PyImplPyO3Option,
};
use pyimpl_backend::syntax::{get_cfg_attributes, Attribute, RawOption, Span};

fn span(start: usize, end: usize) -> Span {
    Span { start, end }
}

fn option(name: &str, value: &str, at: usize) -> RawOption {
    RawOption {
        name: name.to_string(),
        name_span: span(at, at + name.len()),
        value: value.to_string(),
        value_span: span(at + 10, at + 10 + value.len()),
    }
}

fn config(options: Vec<RawOption>) -> Attribute {
    Attribute { path: "pyo3".to_string(), text: "#[pyo3(..)]".to_string(), options }
}

fn plain(path: &str, text: &str) -> Attribute {
    Attribute { path: path.to_string(), text: text.to_string(), options: Vec::new() }
}

#[test]
fn no_configuration_no_override() {
    let mut attrs = vec![plain("doc", "#[doc = \"x\"]")];
    let options = PyImplOptions::from_attrs(&mut attrs).unwrap();
    assert_eq!(options, PyImplOptions { krate: None });
    assert_eq!(attrs, vec![plain("doc", "#[doc = \"x\"]")]);
    assert_eq!(get_pyo3_crate(&options.krate), "::pyo3");
}

#[test]
fn default_options_hold_no_override() {
    assert_eq!(PyImplOptions::default(), PyImplOptions { krate: None });
}

#[test]
fn one_override_is_read_and_its_attribute_taken() {
    let mut attrs = vec![
        plain("cfg", "#[cfg(unix)]"),
        config(vec![option("crate", "my::pyo3", 20)]),
        plain("doc", "#[doc = \"x\"]"),
    ];
    let options = PyImplOptions::from_attrs(&mut attrs).unwrap();
    assert_eq!(
        options.krate,
        Some(CrateAttribute { path: "my::pyo3".to_string(), span: span(30, 38) })
    );
    assert_eq!(attrs, vec![plain("cfg", "#[cfg(unix)]"), plain("doc", "#[doc = \"x\"]")]);
    assert_eq!(get_pyo3_crate(&options.krate), "my::pyo3");
}

#[test]
fn second_override_is_refused_at_its_value() {
    let mut attrs = vec![config(vec![option("crate", "a", 0), option("crate", "b", 100)])];
    let error = PyImplOptions::from_attrs(&mut attrs).unwrap_err();
    assert_eq!(
        error,
        UserConfigError {
            span: span(110, 111),
            message: "`crate` may only be specified once".to_string()
        }
    );
    assert!(attrs.is_empty());
}

#[test]
fn second_override_is_refused_though_it_names_the_same_path() {
    let mut attrs = vec![
        config(vec![option("crate", "same", 0)]),
        plain("inline", "#[inline]"),
        config(vec![option("crate", "same", 50)]),
    ];
    let error = PyImplOptions::from_attrs(&mut attrs).unwrap_err();
    assert_eq!(error.span, span(60, 64));
    assert_eq!(error.message, "`crate` may only be specified once");
    assert_eq!(attrs, vec![plain("inline", "#[inline]")]);
}

#[test]
fn unknown_option_is_refused_at_its_name() {
    let mut attrs = vec![config(vec![option("name", "x", 7)])];
    let error = PyImplOptions::from_attrs(&mut attrs).unwrap_err();
    assert_eq!(
        error,
        UserConfigError { span: span(7, 11), message: "expected `crate`".to_string() }
    );
}

#[test]
fn unknown_option_is_reported_before_a_duplicate() {
    let mut attrs = vec![config(vec![
        option("crate", "a", 0),
        option("crate", "b", 40),
        option("bogus", "c", 80),
    ])];
    let error = PyImplOptions::from_attrs(&mut attrs).unwrap_err();
    assert_eq!(error.span, span(80, 85));
    assert_eq!(error.message, "expected `crate`");
}

#[test]
fn parse_reads_the_override() {
    let parsed = PyImplPyO3Option::parse(&option("crate", "p", 1)).unwrap();
    assert_eq!(
        parsed,
        PyImplPyO3Option::Crate(CrateAttribute { path: "p".to_string(), span: span(11, 12) })
    );
}

#[test]
fn set_crate_keeps_the_first_override() {
    let mut options = PyImplOptions::default();
    let first = CrateAttribute { path: "a".to_string(), span: span(1, 2) };
    let second = CrateAttribute { path: "b".to_string(), span: span(3, 4) };
    assert_eq!(options.set_crate(first.clone()), Ok(()));
    let error = options.set_crate(second).unwrap_err();
    assert_eq!(error.span, span(3, 4));
    assert_eq!(options.krate, Some(first));
}

#[test]
fn member_override_wins_over_the_block() {
    let block = PyImplOptions {
        krate: Some(CrateAttribute { path: "block".to_string(), span: span(0, 5) }),
    };
    let item = CrateAttribute { path: "item".to_string(), span: span(9, 13) };
    assert_eq!(block.crate_for(Some(item.clone())), Some(item));
    assert_eq!(block.crate_for(None), block.krate.clone());
    assert_eq!(PyImplOptions::default().crate_for(None), None);
}

#[test]
fn take_options_keeps_their_order() {
    let mut attrs = vec![
        config(vec![option("a", "1", 0), option("b", "2", 20)]),
        plain("cfg", "#[cfg(a)]"),
        config(vec![option("c", "3", 40)]),
    ];
    let options = take_pyo3_options(&mut attrs);
    assert_eq!(options, vec![option("a", "1", 0), option("b", "2", 20), option("c", "3", 40)]);
    assert_eq!(attrs, vec![plain("cfg", "#[cfg(a)]")]);
}

#[test]
fn cfg_attributes_are_picked_in_order() {
    let attrs = vec![
        plain("cfg", "#[cfg(a)]"),
        plain("doc", "#[doc = \"d\"]"),
        plain("cfg", "#[cfg(b)]"),
        plain("cfg_attr", "#[cfg_attr(c, d)]"),
    ];
    assert_eq!(get_cfg_attributes(&attrs), vec!["#[cfg(a)]".to_string(), "#[cfg(b)]".to_string()]);
}
