//! The option parser: the configuration of an implementation block.
//!
//! A block may name, once, the path under which the runtime library is
//! found. The option is written in a configuration attribute, and parsing
//! the options takes the configuration attributes off the block.

use vstd::prelude::*;
use crate::error::{UserConfigError, UserConfigErrorView};
use crate::syntax::{Attribute, AttributeView, RawOption, RawOptionView, Span};
use crate::text::str_eq;

verus! {

/// The path of the runtime library, as a block or a member overrides it.
#[derive(Debug, PartialEq, Eq)]
pub struct CrateAttribute {
    pub path: String,
    pub span: Span,
}

pub struct CrateAttributeView {
    pub path: Seq<char>,
    pub span: Span,
}

impl View for CrateAttribute {
    type V = CrateAttributeView;

    open spec fn view(&self) -> CrateAttributeView {
        CrateAttributeView { path: self.path@, span: self.span }
    }
}

impl DeepView for CrateAttribute {
    type V = CrateAttributeView;

    open spec fn deep_view(&self) -> CrateAttributeView {
        self@
    }
}

impl Clone for CrateAttribute {
    fn clone(&self) -> (copy: Self)
        ensures
            copy@ == self@,
    {
        CrateAttribute { path: self.path.clone(), span: self.span }
    }
}

/// One option of a block, parsed.
#[derive(Debug, PartialEq, Eq)]
pub enum PyImplPyO3Option {
    Crate(CrateAttribute),
}

/// Whether an entry is an option that a block can have.
pub open spec fn recognized(option: RawOptionView) -> bool {
    option.name == "crate"@
}

/// The override that a recognized entry stands for.
pub open spec fn crate_attribute(option: RawOptionView) -> CrateAttributeView {
    CrateAttributeView { path: option.value, span: option.value_span }
}

/// The error for an entry that is no option of a block: it points at the
/// entry's name.
pub open spec fn unexpected_option(option: RawOptionView) -> UserConfigErrorView {
    UserConfigErrorView { span: option.name_span, message: "expected `crate`"@ }
}

/// The error for an override that follows another: it points at the value of
/// the later one.
pub open spec fn duplicate_crate(span: Span) -> UserConfigErrorView {
    UserConfigErrorView { span, message: "`crate` may only be specified once"@ }
}

impl PyImplPyO3Option {
    /// Parses one entry of a configuration attribute.
    pub fn parse(input: &RawOption) -> (parsed: Result<PyImplPyO3Option, UserConfigError>)
        ensures
            match parsed {
                Ok(PyImplPyO3Option::Crate(path)) => recognized(input@) && path@
                    == crate_attribute(input@),
                Err(error) => !recognized(input@) && error@ == unexpected_option(input@),
            },
    {
        if str_eq(input.name.as_str(), "crate") {
            Ok(
                PyImplPyO3Option::Crate(
                    CrateAttribute { path: input.value.clone(), span: input.value_span },
                ),
            )
        } else {
            Err(UserConfigError::new(input.name_span, "expected `crate`"))
        }
    }
}

/// The attributes that are no configuration attributes, in order.
pub open spec fn without_config(attrs: Seq<AttributeView>) -> Seq<AttributeView>
    decreases attrs.len(),
{
    if attrs.len() == 0 {
        Seq::empty()
    } else if attrs.last().is_config() {
        without_config(attrs.drop_last())
    } else {
        without_config(attrs.drop_last()).push(attrs.last())
    }
}

/// The entries of the configuration attributes, in order.
pub open spec fn config_options(attrs: Seq<AttributeView>) -> Seq<RawOptionView>
    decreases attrs.len(),
{
    if attrs.len() == 0 {
        Seq::empty()
    } else if attrs.last().is_config() {
        config_options(attrs.drop_last()) + attrs.last().options
    } else {
        config_options(attrs.drop_last())
    }
}

/// Takes the configuration attributes off `attrs` and returns their entries.
pub fn take_pyo3_options(attrs: &mut Vec<Attribute>) -> (options: Vec<RawOption>)
    ensures
        final(attrs).deep_view() == without_config(old(attrs).deep_view()),
        options.deep_view() == config_options(old(attrs).deep_view()),
{
    let ghost given = attrs.deep_view();
    let mut kept: Vec<Attribute> = Vec::new();
    let mut options: Vec<RawOption> = Vec::new();
    let ghost mut done: int = 0;
    proof {
        assert(given.skip(0) == given);
    }
    while attrs.len() > 0
        invariant
            0 <= done <= given.len(),
            attrs.deep_view() == given.skip(done),
            kept.deep_view() == without_config(given.take(done)),
            options.deep_view() == config_options(given.take(done)),
        decreases attrs.len(),
    {
        let ghost rest = attrs.deep_view();
        let attr = attrs.remove(0);
        proof {
            assert(rest[0] == attr@);
            assert(rest.len() == attrs.len() + 1);
            assert(given.skip(done)[0] == given[done]);
            assert(attrs.deep_view() == rest.skip(1));
            assert(given.skip(done).skip(1) == given.skip(done + 1));
            assert(given.take(done + 1).drop_last() == given.take(done));
            assert(given.take(done + 1).last() == attr@);
        }
        if attr.is_config() {
            let ghost earlier = options.deep_view();
            let Attribute { path: _, text: _, options: mut entries } = attr;
            let ghost added = entries.deep_view();
            options.append(&mut entries);
            assert(options.deep_view() == earlier + added);
        } else {
            let ghost earlier = kept.deep_view();
            kept.push(attr);
            assert(kept.deep_view() == earlier.push(attr@));
        }
        proof {
            done = done + 1;
        }
    }
    proof {
        assert(given.take(done) == given);
    }
    *attrs = kept;
    options
}

/// The place of the first entry that is no option of a block.
pub open spec fn first_unrecognized(options: Seq<RawOptionView>) -> Option<int>
    decreases options.len(),
{
    if options.len() == 0 {
        None
    } else {
        match first_unrecognized(options.drop_last()) {
            Some(i) => Some(i),
            None => if recognized(options.last()) {
                None
            } else {
                Some(options.len() - 1)
            },
        }
    }
}

/// The configuration of a block.
#[derive(Debug, PartialEq, Eq)]
pub struct PyImplOptions {
    pub krate: Option<CrateAttribute>,
}

pub struct PyImplOptionsView {
    pub krate: Option<CrateAttributeView>,
}

impl View for PyImplOptions {
    type V = PyImplOptionsView;

    open spec fn view(&self) -> PyImplOptionsView {
        PyImplOptionsView { krate: self.krate.deep_view() }
    }
}

impl Default for PyImplOptions {
    fn default() -> (options: PyImplOptions)
        ensures
            options@ == (PyImplOptionsView { krate: None }),
    {
        PyImplOptions { krate: None }
    }
}

/// An entry that is no option of a block is the first such in every longer
/// list that begins alike.
proof fn lemma_first_unrecognized_prefix(options: Seq<RawOptionView>, k: int)
    requires
        0 <= k <= options.len(),
        first_unrecognized(options.take(k)) is Some,
    ensures
        first_unrecognized(options) == first_unrecognized(options.take(k)),
    decreases options.len() - k,
{
    if k == options.len() {
        assert(options.take(k) == options);
    } else {
        assert(options.take(k + 1).drop_last() == options.take(k));
        lemma_first_unrecognized_prefix(options, k + 1);
    }
}

/// What a block's entries come to. An entry that is no option of a block is
/// reported first, wherever it stands; then an override that follows another.
pub open spec fn options_of(options: Seq<RawOptionView>) -> Result<
    PyImplOptionsView,
    UserConfigErrorView,
> {
    match first_unrecognized(options) {
        Some(i) => Err(unexpected_option(options[i])),
        None => if options.len() == 0 {
            Ok(PyImplOptionsView { krate: None })
        } else if options.len() == 1 {
            Ok(PyImplOptionsView { krate: Some(crate_attribute(options[0])) })
        } else {
            Err(duplicate_crate(options[1].value_span))
        },
    }
}

impl PyImplOptions {
    /// Takes the configuration attributes off `attrs` and reads the block's
    /// configuration from their entries.
    pub fn from_attrs(attrs: &mut Vec<Attribute>) -> (parsed: Result<
        PyImplOptions,
        UserConfigError,
    >)
        ensures
            final(attrs).deep_view() == without_config(old(attrs).deep_view()),
            match parsed {
                Ok(options) => options_of(config_options(old(attrs).deep_view())) == Ok::<
                    PyImplOptionsView,
                    UserConfigErrorView,
                >(options@),
                Err(error) => options_of(config_options(old(attrs).deep_view())) == Err::<
                    PyImplOptionsView,
                    UserConfigErrorView,
                >(error@),
            },
    {
        let ghost given = attrs.deep_view();
        let raw = take_pyo3_options(attrs);
        let ghost entries = raw.deep_view();
        let mut overrides: Vec<CrateAttribute> = Vec::new();
        let mut i: usize = 0;
        while i < raw.len()
            invariant
                i <= raw.len(),
                given == old(attrs).deep_view(),
                attrs.deep_view() == without_config(given),
                entries == config_options(given),
                entries == raw.deep_view(),
                first_unrecognized(entries.take(i as int)) is None,
                overrides.len() == i,
                forall|j: int| 0 <= j < i ==> #[trigger] overrides[j]@ == crate_attribute(entries[j]),
            decreases raw.len() - i,
        {
            proof {
                assert(entries.take(i + 1).drop_last() == entries.take(i as int));
                assert(entries.take(i + 1).last() == raw[i as int]@);
            }
            match PyImplPyO3Option::parse(&raw[i]) {
                Ok(PyImplPyO3Option::Crate(path)) => {
                    overrides.push(path);
                },
                Err(error) => {
                    proof {
                        lemma_first_unrecognized_prefix(entries, i + 1);
                    }
                    return Err(error);
                },
            }
            i += 1;
        }
        proof {
            assert(entries.take(raw.len() as int) == entries);
        }
        let mut options = PyImplOptions::default();
        let mut j: usize = 0;
        while j < overrides.len()
            invariant
                j <= overrides.len(),
                j <= 1,
                given == old(attrs).deep_view(),
                attrs.deep_view() == without_config(given),
                entries == config_options(given),
                overrides.len() == entries.len(),
                first_unrecognized(entries) is None,
                forall|k: int|
                    0 <= k < overrides.len() ==> #[trigger] overrides[k]@ == crate_attribute(
                        entries[k],
                    ),
                options@.krate == if j == 0 {
                    None
                } else {
                    Some(crate_attribute(entries[0]))
                },
            decreases overrides.len() - j,
        {
            match options.set_crate(overrides[j].clone()) {
                Ok(()) => {},
                Err(error) => {
                    return Err(error);
                },
            }
            j += 1;
        }
        Ok(options)
    }

    /// Records the block's override. A block has at most one.
    pub fn set_crate(&mut self, path: CrateAttribute) -> (set: Result<(), UserConfigError>)
        ensures
            match set {
                Ok(()) => old(self)@.krate is None && final(self)@.krate == Some(path@),
                Err(error) => old(self)@.krate is Some && error@ == duplicate_crate(path@.span)
                    && final(self)@ == old(self)@,
            },
    {
        if self.krate.is_none() {
            self.krate = Some(path);
            Ok(())
        } else {
            Err(UserConfigError::new(path.span, "`crate` may only be specified once"))
        }
    }

    /// The override that holds for a member of the block: the member's own
    /// where it has one, the block's otherwise.
    pub fn crate_for(&self, item: Option<CrateAttribute>) -> (merged: Option<CrateAttribute>)
        ensures
            merged.deep_view() == merged_crate(item.deep_view(), self@.krate),
    {
        match item {
            Some(attribute) => Some(attribute),
            None => match &self.krate {
                Some(attribute) => Some(attribute.clone()),
                None => None,
            },
        }
    }
}

/// The path under which generated code finds the runtime library.
pub open spec fn crate_path(krate: Option<CrateAttributeView>) -> Seq<char> {
    match krate {
        Some(attribute) => attribute.path,
        None => "::pyo3"@,
    }
}

/// The override that holds for a member: its own where it has one, the
/// block's otherwise.
pub open spec fn merged_crate(
    item: Option<CrateAttributeView>,
    block: Option<CrateAttributeView>,
) -> Option<CrateAttributeView> {
    match item {
        Some(attribute) => Some(attribute),
        None => block,
    }
}


/// The path under which generated code finds the runtime library: the
/// override where there is one.
pub fn get_pyo3_crate(attr: &Option<CrateAttribute>) -> (path: String)
    ensures
        path@ == crate_path(attr.deep_view()),
{
    match attr {
        Some(attribute) => attribute.path.clone(),
        None => String::from_str("::pyo3"),
    }
}

/// Two overrides on one block are refused, whether or not they name the same
/// path, and the error points at the value of the second. It holds of a
/// block all of whose entries are options of a block.
pub proof fn lemma_duplicate_crate_rejected(options: Seq<RawOptionView>)
    requires
        options.len() >= 2,
        forall|i: int| 0 <= i < options.len() ==> recognized(#[trigger] options[i]),
    ensures
        options_of(options) == Err::<PyImplOptionsView, UserConfigErrorView>(
            duplicate_crate(options[1].value_span),
        ),
{
    lemma_all_recognized(options);
}

proof fn lemma_all_recognized(options: Seq<RawOptionView>)
    requires
        forall|i: int| 0 <= i < options.len() ==> recognized(#[trigger] options[i]),
    ensures
        first_unrecognized(options) is None,
    decreases options.len(),
{
    if options.len() > 0 {
        lemma_all_recognized(options.drop_last());
    }
}

} // verus!
