//! The parts of an implementation block that the binding generator reads,
//! as plain values: source locations, attributes and their options.

use vstd::prelude::*;
use crate::text::str_eq;

verus! {

/// A place in the source: where a piece of syntax begins and where it ends,
/// in whatever way the caller numbers the places of its source.
#[derive(Clone, Copy, Debug, PartialEq, Eq, Structural)]
pub struct Span {
    pub start: usize,
    pub end: usize,
}

/// One `name = value` entry of a configuration attribute.
#[derive(Debug, PartialEq, Eq)]
pub struct RawOption {
    pub name: String,
    pub name_span: Span,
    pub value: String,
    pub value_span: Span,
}

pub struct RawOptionView {
    pub name: Seq<char>,
    pub name_span: Span,
    pub value: Seq<char>,
    pub value_span: Span,
}

impl View for RawOption {
    type V = RawOptionView;

    open spec fn view(&self) -> RawOptionView {
        RawOptionView {
            name: self.name@,
            name_span: self.name_span,
            value: self.value@,
            value_span: self.value_span,
        }
    }
}

impl DeepView for RawOption {
    type V = RawOptionView;

    open spec fn deep_view(&self) -> RawOptionView {
        self@
    }
}

impl Clone for RawOption {
    fn clone(&self) -> (copy: Self)
        ensures
            copy@ == self@,
    {
        RawOption {
            name: self.name.clone(),
            name_span: self.name_span,
            value: self.value.clone(),
            value_span: self.value_span,
        }
    }
}

/// An attribute on a block or on one of its members.
///
/// `text` is the attribute as it is written; `options` are the entries of a
/// configuration attribute, in the order in which they are written.
#[derive(Debug, PartialEq, Eq)]
pub struct Attribute {
    pub path: String,
    pub text: String,
    pub options: Vec<RawOption>,
}

pub struct AttributeView {
    pub path: Seq<char>,
    pub text: Seq<char>,
    pub options: Seq<RawOptionView>,
}

impl AttributeView {
    /// A conditional-compilation gate.
    pub open spec fn is_cfg(self) -> bool {
        self.path == "cfg"@
    }

    /// A configuration attribute of the binding generator.
    pub open spec fn is_config(self) -> bool {
        self.path == "pyo3"@
    }
}

impl View for Attribute {
    type V = AttributeView;

    open spec fn view(&self) -> AttributeView {
        AttributeView {
            path: self.path@,
            text: self.text@,
            options: self.options.deep_view(),
        }
    }
}

impl DeepView for Attribute {
    type V = AttributeView;

    open spec fn deep_view(&self) -> AttributeView {
        self@
    }
}

impl Attribute {
    pub fn is_cfg(&self) -> (yes: bool)
        ensures
            yes == self@.is_cfg(),
    {
        str_eq(self.path.as_str(), "cfg")
    }

    pub fn is_config(&self) -> (yes: bool)
        ensures
            yes == self@.is_config(),
    {
        str_eq(self.path.as_str(), "pyo3")
    }
}

/// The texts of the conditional-compilation gates among `attrs`, in order.
pub open spec fn cfg_texts(attrs: Seq<AttributeView>) -> Seq<Seq<char>>
    decreases attrs.len(),
{
    if attrs.len() == 0 {
        Seq::empty()
    } else if attrs.last().is_cfg() {
        cfg_texts(attrs.drop_last()).push(attrs.last().text)
    } else {
        cfg_texts(attrs.drop_last())
    }
}

/// The conditional-compilation gates among `attrs`, as they are written.
pub fn get_cfg_attributes(attrs: &Vec<Attribute>) -> (gates: Vec<String>)
    ensures
        gates.deep_view() == cfg_texts(attrs.deep_view()),
{
    let mut gates: Vec<String> = Vec::new();
    let mut i: usize = 0;
    while i < attrs.len()
        invariant
            i <= attrs.len(),
            gates.deep_view() == cfg_texts(attrs.deep_view().take(i as int)),
        decreases attrs.len() - i,
    {
        proof {
            let all = attrs.deep_view();
            assert(all.take(i + 1).drop_last() == all.take(i as int));
            assert(all.take(i + 1).last() == attrs[i as int]@);
        }
        if attrs[i].is_cfg() {
            let ghost before = gates.deep_view();
            gates.push(attrs[i].text.clone());
            assert(gates.deep_view() == before.push(attrs[i as int].text@));
        }
        i += 1;
    }
    proof {
        assert(attrs.deep_view().take(attrs.len() as int) == attrs.deep_view());
    }
    gates
}

} // verus!
