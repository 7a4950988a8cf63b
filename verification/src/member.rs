//! The members of an implementation block, with what the collaborators of
//! the generator have found out about each.

use vstd::prelude::*;
use crate::syntax::{Attribute, AttributeView};

verus! {

/// What the signature classifier makes of one method: its tag, and the code
/// that it generated for the method.
#[derive(Debug, PartialEq, Eq)]
pub enum GeneratedPyMethod {
    /// An ordinary callable: an entry of the method table.
    Method(String),
    /// A supporting trait implementation, emitted as it is.
    TraitImpl(String),
    /// One half of a shared slot, by its name; the code is the trait
    /// implementation that the slot's shim calls.
    SlotTraitImpl(String, String),
    /// A complete slot: an entry of the protocol table.
    Proto(String),
}

pub enum GeneratedPyMethodView {
    Method(Seq<char>),
    TraitImpl(Seq<char>),
    SlotTraitImpl(Seq<char>, Seq<char>),
    Proto(Seq<char>),
}

impl View for GeneratedPyMethod {
    type V = GeneratedPyMethodView;

    open spec fn view(&self) -> GeneratedPyMethodView {
        match self {
            GeneratedPyMethod::Method(code) => GeneratedPyMethodView::Method(code@),
            GeneratedPyMethod::TraitImpl(code) => GeneratedPyMethodView::TraitImpl(code@),
            GeneratedPyMethod::SlotTraitImpl(name, code) => GeneratedPyMethodView::SlotTraitImpl(
                name@,
                code@,
            ),
            GeneratedPyMethod::Proto(code) => GeneratedPyMethodView::Proto(code@),
        }
    }
}

/// What the attribute extractor finds on a constant.
#[derive(Debug, PartialEq, Eq)]
pub struct ConstAttributes {
    /// Whether the constant is marked as a class attribute.
    pub is_class_attr: bool,
    /// The name under which the runtime sees the constant, where one is declared.
    pub name: Option<String>,
    /// The code that warns of deprecated markers; empty where there is none.
    pub deprecations: String,
}

pub struct ConstAttributesView {
    pub is_class_attr: bool,
    pub name: Option<Seq<char>>,
    pub deprecations: Seq<char>,
}

impl View for ConstAttributes {
    type V = ConstAttributesView;

    open spec fn view(&self) -> ConstAttributesView {
        ConstAttributesView {
            is_class_attr: self.is_class_attr,
            name: self.name.deep_view(),
            deprecations: self.deprecations@,
        }
    }
}

impl Clone for ConstAttributes {
    fn clone(&self) -> (copy: Self)
        ensures
            copy@ == self@,
    {
        ConstAttributes {
            is_class_attr: self.is_class_attr,
            name: match &self.name {
                Some(name) => Some(name.clone()),
                None => None,
            },
            deprecations: self.deprecations.clone(),
        }
    }
}

/// A method of the block.
#[derive(Debug, PartialEq, Eq)]
pub struct ImplItemMethod {
    /// The attributes that the classifier left on the method.
    pub attrs: Vec<Attribute>,
    /// The method as it is written out again.
    pub definition: String,
    /// The classifier's verdict.
    pub generated: GeneratedPyMethod,
}

pub struct ImplItemMethodView {
    pub attrs: Seq<AttributeView>,
    pub definition: Seq<char>,
    pub generated: GeneratedPyMethodView,
}

impl View for ImplItemMethod {
    type V = ImplItemMethodView;

    open spec fn view(&self) -> ImplItemMethodView {
        ImplItemMethodView {
            attrs: self.attrs.deep_view(),
            definition: self.definition@,
            generated: self.generated@,
        }
    }
}

impl DeepView for ImplItemMethod {
    type V = ImplItemMethodView;

    open spec fn deep_view(&self) -> ImplItemMethodView {
        self@
    }
}

/// A constant of the block.
#[derive(Debug, PartialEq, Eq)]
pub struct ImplItemConst {
    /// The attributes that the extractor left on the constant.
    pub attrs: Vec<Attribute>,
    /// The constant's identifier.
    pub ident: String,
    /// What the extractor found.
    pub attributes: ConstAttributes,
    /// Whether the naming-convention lookup knows the name under which the
    /// runtime sees the constant as a protocol name.
    pub protocol_name: bool,
}

pub struct ImplItemConstView {
    pub attrs: Seq<AttributeView>,
    pub ident: Seq<char>,
    pub attributes: ConstAttributesView,
    pub protocol_name: bool,
}

impl View for ImplItemConst {
    type V = ImplItemConstView;

    open spec fn view(&self) -> ImplItemConstView {
        ImplItemConstView {
            attrs: self.attrs.deep_view(),
            ident: self.ident@,
            attributes: self.attributes@,
            protocol_name: self.protocol_name,
        }
    }
}

/// A member of an implementation block.
#[derive(Debug, PartialEq, Eq)]
pub enum ImplItem {
    Method(ImplItemMethod),
    Const(ImplItemConst),
    /// Anything else: it is passed through and takes no part in any table.
    Other,
}

pub enum ImplItemView {
    Method(ImplItemMethodView),
    Const(ImplItemConstView),
    Other,
}

impl View for ImplItem {
    type V = ImplItemView;

    open spec fn view(&self) -> ImplItemView {
        match self {
            ImplItem::Method(method) => ImplItemView::Method(method@),
            ImplItem::Const(konst) => ImplItemView::Const(konst@),
            ImplItem::Other => ImplItemView::Other,
        }
    }
}

impl DeepView for ImplItem {
    type V = ImplItemView;

    open spec fn deep_view(&self) -> ImplItemView {
        self@
    }
}

/// The four tables that a member can end in.
#[derive(Clone, Copy, Debug, PartialEq, Eq, Structural)]
pub enum MemberCategory {
    /// The method table: ordinary methods and class attributes.
    Method,
    /// The supporting trait implementations.
    TraitImpl,
    /// The protocol table: complete slots, and fragments by the shared slot
    /// that they are merged into.
    ProtocolSlot,
    /// No table: the member is passed through.
    PassThrough,
}

impl ImplItemView {
    /// The one table that the member ends in.
    pub open spec fn category(self) -> MemberCategory {
        match self {
            ImplItemView::Method(method) => match method.generated {
                GeneratedPyMethodView::Method(_) => MemberCategory::Method,
                GeneratedPyMethodView::TraitImpl(_) => MemberCategory::TraitImpl,
                GeneratedPyMethodView::SlotTraitImpl(_, _) => MemberCategory::ProtocolSlot,
                GeneratedPyMethodView::Proto(_) => MemberCategory::ProtocolSlot,
            },
            ImplItemView::Const(konst) => if konst.attributes.is_class_attr {
                MemberCategory::Method
            } else {
                MemberCategory::PassThrough
            },
            ImplItemView::Other => MemberCategory::PassThrough,
        }
    }

    /// Whether the member is a fragment: one half of a shared slot.
    pub open spec fn is_fragment(self) -> bool {
        self matches ImplItemView::Method(method) && method.generated
            is SlotTraitImpl
    }
}

} // verus!
