//! The pipeline for one implementation block: its members are sorted into
//! tables, the fragments are merged into shared slots, and the registration
//! code is written.

use vstd::prelude::*;
use crate::emit::{emit_registration, gate, gated, registration_text, PyClassMethodsType};
use crate::error::{
    InternalConsistencyError, PyImplError, PyImplErrorView, UserConfigError, UserConfigErrorView,
};
use crate::fragments::FragmentSet;
use crate::konst::{gen_py_const, ConstSpec, ConstSpecView};
use crate::member::{
    GeneratedPyMethod, GeneratedPyMethodView, ImplItem, ImplItemConstView,
    ImplItemMethod, ImplItemMethodView, ImplItemView, MemberCategory,
};
use crate::options::{
    config_options, crate_path, get_pyo3_crate, options_of, without_config, CrateAttributeView,
    PyImplOptions, PyImplOptionsView,
};
use crate::slots::{
    lemma_merge_complete, lemma_merge_empty, merge_shared_slots, merged_entries, merged_rules,
    occurrences, reserved_names, residue, SlotPairRule,
};
use crate::syntax::{Attribute, AttributeView, Span};
use crate::text::{join, joined, terminate, terminated};

verus! {

/// The class attribute that a constant of the block stands for.
pub open spec fn const_spec(konst: ImplItemConstView) -> ConstSpecView {
    ConstSpecView { rust_ident: konst.ident, attributes: konst.attributes }
}

/// The entry of a member in the method table of `ty`, if it has one: the
/// code of an ordinary method, or the accessor of a class attribute.
pub open spec fn method_entry(ty: Seq<char>, item: ImplItemView) -> Option<Seq<char>> {
    match item {
        ImplItemView::Method(method) => match method.generated {
            GeneratedPyMethodView::Method(code) => Some(gated(method.attrs, code)),
            _ => None,
        },
        ImplItemView::Const(konst) => if konst.attributes.is_class_attr {
            Some(gated(konst.attrs, const_spec(konst).class_attribute(ty)))
        } else {
            None
        },
        ImplItemView::Other => None,
    }
}

/// The trait implementation that is emitted for a member, if there is one:
/// that of a member tagged so, and that of a fragment.
pub open spec fn trait_impl_entry(item: ImplItemView) -> Option<Seq<char>> {
    match item {
        ImplItemView::Method(method) => match method.generated {
            GeneratedPyMethodView::TraitImpl(code) => Some(gated(method.attrs, code)),
            GeneratedPyMethodView::SlotTraitImpl(_, code) => Some(gated(method.attrs, code)),
            _ => None,
        },
        _ => None,
    }
}

/// The entry of a member in the protocol table, if it has one of its own: a
/// complete slot has, a fragment has not.
pub open spec fn proto_entry(item: ImplItemView) -> Option<Seq<char>> {
    match item {
        ImplItemView::Method(method) => match method.generated {
            GeneratedPyMethodView::Proto(code) => Some(gated(method.attrs, code)),
            _ => None,
        },
        _ => None,
    }
}

/// The name of the fragment that a member is, if it is one.
pub open spec fn fragment_name(item: ImplItemView) -> Option<Seq<char>> {
    match item {
        ImplItemView::Method(method) => match method.generated {
            GeneratedPyMethodView::SlotTraitImpl(name, _) => Some(name),
            _ => None,
        },
        _ => None,
    }
}

/// The method table of `ty`: the entries of the members, in their order.
pub open spec fn method_entries(ty: Seq<char>, items: Seq<ImplItemView>) -> Seq<Seq<char>>
    decreases items.len(),
{
    if items.len() == 0 {
        Seq::empty()
    } else {
        match method_entry(ty, items.last()) {
            Some(entry) => method_entries(ty, items.drop_last()).push(entry),
            None => method_entries(ty, items.drop_last()),
        }
    }
}

/// The trait implementations of the members, in their order.
pub open spec fn trait_impl_entries(items: Seq<ImplItemView>) -> Seq<Seq<char>>
    decreases items.len(),
{
    if items.len() == 0 {
        Seq::empty()
    } else {
        match trait_impl_entry(items.last()) {
            Some(entry) => trait_impl_entries(items.drop_last()).push(entry),
            None => trait_impl_entries(items.drop_last()),
        }
    }
}

/// The complete slots of the members, in their order.
pub open spec fn proto_entries(items: Seq<ImplItemView>) -> Seq<Seq<char>>
    decreases items.len(),
{
    if items.len() == 0 {
        Seq::empty()
    } else {
        match proto_entry(items.last()) {
            Some(entry) => proto_entries(items.drop_last()).push(entry),
            None => proto_entries(items.drop_last()),
        }
    }
}

/// The names of the fragments among the members.
pub open spec fn fragment_names(items: Seq<ImplItemView>) -> Set<Seq<char>>
    decreases items.len(),
{
    if items.len() == 0 {
        Set::empty()
    } else {
        match fragment_name(items.last()) {
            Some(name) => fragment_names(items.drop_last()).insert(name),
            None => fragment_names(items.drop_last()),
        }
    }
}

/// The members of a block, sorted.
#[derive(Debug)]
pub struct ClassifiedMembers {
    pub trait_impls: Vec<String>,
    pub proto_impls: Vec<String>,
    pub methods: Vec<String>,
    pub implemented_proto_fragments: FragmentSet,
}

/// Sorts the members of a block of `ty` into the three tables and collects
/// the names of the fragments.
pub fn classify_members(ty: &str, impls: &Vec<ImplItem>) -> (sorted: ClassifiedMembers)
    ensures
        sorted.methods.deep_view() == method_entries(ty@, impls.deep_view()),
        sorted.trait_impls.deep_view() == trait_impl_entries(impls.deep_view()),
        sorted.proto_impls.deep_view() == proto_entries(impls.deep_view()),
        sorted.implemented_proto_fragments@ == fragment_names(impls.deep_view()),
{
    let mut trait_impls: Vec<String> = Vec::new();
    let mut proto_impls: Vec<String> = Vec::new();
    let mut methods: Vec<String> = Vec::new();
    let mut implemented_proto_fragments = FragmentSet::new();
    let mut i: usize = 0;
    while i < impls.len()
        invariant
            i <= impls.len(),
            methods.deep_view() == method_entries(ty@, impls.deep_view().take(i as int)),
            trait_impls.deep_view() == trait_impl_entries(impls.deep_view().take(i as int)),
            proto_impls.deep_view() == proto_entries(impls.deep_view().take(i as int)),
            implemented_proto_fragments@ == fragment_names(impls.deep_view().take(i as int)),
        decreases impls.len() - i,
    {
        proof {
            let all = impls.deep_view();
            assert(all.take(i + 1).drop_last() == all.take(i as int));
            assert(all.take(i + 1).last() == impls[i as int]@);
        }
        let ghost earlier_methods = methods.deep_view();
        let ghost earlier_traits = trait_impls.deep_view();
        let ghost earlier_protos = proto_impls.deep_view();
        match &impls[i] {
            ImplItem::Method(meth) => {
                match &meth.generated {
                    GeneratedPyMethod::Method(token_stream) => {
                        let entry = gate(&meth.attrs, token_stream.as_str());
                        methods.push(entry);
                        assert(methods.deep_view() == earlier_methods.push(entry@));
                    },
                    GeneratedPyMethod::TraitImpl(token_stream) => {
                        let entry = gate(&meth.attrs, token_stream.as_str());
                        trait_impls.push(entry);
                        assert(trait_impls.deep_view() == earlier_traits.push(entry@));
                    },
                    GeneratedPyMethod::SlotTraitImpl(method_name, token_stream) => {
                        implemented_proto_fragments.insert(method_name.clone());
                        let entry = gate(&meth.attrs, token_stream.as_str());
                        trait_impls.push(entry);
                        assert(trait_impls.deep_view() == earlier_traits.push(entry@));
                    },
                    GeneratedPyMethod::Proto(token_stream) => {
                        let entry = gate(&meth.attrs, token_stream.as_str());
                        proto_impls.push(entry);
                        assert(proto_impls.deep_view() == earlier_protos.push(entry@));
                    },
                }
            },
            ImplItem::Const(konst) => {
                if konst.attributes.is_class_attr {
                    let spec = ConstSpec {
                        rust_ident: konst.ident.clone(),
                        attributes: konst.attributes.clone(),
                    };
                    let meth = gen_py_const(ty, &spec);
                    let entry = gate(&konst.attrs, meth.as_str());
                    methods.push(entry);
                    assert(methods.deep_view() == earlier_methods.push(entry@));
                }
            },
            ImplItem::Other => {},
        }
        i += 1;
    }
    proof {
        assert(impls.deep_view().take(impls.len() as int) == impls.deep_view());
    }
    ClassifiedMembers { trait_impls, proto_impls, methods, implemented_proto_fragments }
}


/// The attribute that lets a constant bear a name that is not upper case.
pub open spec fn allow_attribute() -> AttributeView {
    AttributeView {
        path: "allow"@,
        text: "#[allow(non_upper_case_globals)]"@,
        options: Seq::empty(),
    }
}

/// Whether a member is a class attribute under a protocol name. Protocol
/// names are lower case, so such a constant is exempt from the rule that the
/// names of constants are upper case.
pub open spec fn needs_allow(item: ImplItemView) -> bool {
    item matches ImplItemView::Const(konst) && konst.attributes.is_class_attr
        && konst.protocol_name
}

/// A member with the exemption written on it where it has one.
pub open spec fn with_allow(item: ImplItemView) -> ImplItemView {
    match item {
        ImplItemView::Const(konst) => if konst.attributes.is_class_attr && konst.protocol_name {
            ImplItemView::Const(
                ImplItemConstView { attrs: konst.attrs.push(allow_attribute()), ..konst },
            )
        } else {
            item
        },
        _ => item,
    }
}

/// The members with the exemption written on each that has one.
pub open spec fn suppressed(items: Seq<ImplItemView>) -> Seq<ImplItemView> {
    Seq::new(items.len(), |i: int| with_allow(items[i]))
}

/// Writes the exemption from the naming rule on each class attribute that
/// bears a protocol name, and on no other member.
pub fn allow_protocol_constants(impls: &mut Vec<ImplItem>)
    ensures
        final(impls).deep_view() == suppressed(old(impls).deep_view()),
{
    let ghost given = impls.deep_view();
    let mut i: usize = 0;
    while i < impls.len()
        invariant
            i <= impls.len(),
            impls.len() == given.len(),
            forall|j: int| 0 <= j < i ==> #[trigger] impls[j]@ == with_allow(given[j]),
            forall|j: int| i <= j < impls.len() ==> #[trigger] impls[j]@ == given[j],
        decreases impls.len() - i,
    {
        let ghost before = impls@;
        match &mut impls[i] {
            ImplItem::Const(konst) => {
                if konst.attributes.is_class_attr && konst.protocol_name {
                    let allow = Attribute {
                        path: String::from_str("allow"),
                        text: String::from_str("#[allow(non_upper_case_globals)]"),
                        options: Vec::new(),
                    };
                    assert(allow@.options =~= Seq::empty());
                    let ghost earlier = konst.attrs.deep_view();
                    konst.attrs.push(allow);
                    assert(konst.attrs.deep_view() =~= earlier.push(allow_attribute()));
                }
            },
            _ => {},
        }
        assert(impls[i as int]@ == with_allow(before[i as int]@));
        assert(forall|j: int| 0 <= j < impls.len() && j != i ==> impls[j] == before[j]);
        i += 1;
    }
    assert(impls.deep_view() =~= suppressed(given));
}


/// The protocol table of a block of `ty`: the complete slots of its members,
/// then the shared slots that its fragments are merged into.
pub open spec fn protocol_table(ty: Seq<char>, items: Seq<ImplItemView>) -> Seq<Seq<char>> {
    proto_entries(items) + merged_entries(ty, fragment_names(items))
}

/// The code for a block of `ty` with the members `items`.
pub open spec fn generated_text(
    ty: Seq<char>,
    items: Seq<ImplItemView>,
    methods_type: PyClassMethodsType,
    krate: Option<CrateAttributeView>,
) -> Seq<char> {
    registration_text(
        ty,
        crate_path(krate),
        trait_impl_entries(items),
        method_entries(ty, items),
        protocol_table(ty, items),
        methods_type,
    )
}

/// What the members of a block come to: the code, unless a fragment bears a
/// name that no pair of the table accounts for.
pub open spec fn methods_outcome(
    ty: Seq<char>,
    items: Seq<ImplItemView>,
    methods_type: PyClassMethodsType,
    krate: Option<CrateAttributeView>,
) -> Result<Seq<char>, PyImplErrorView> {
    if residue(fragment_names(items)) == Set::<Seq<char>>::empty() {
        Ok(generated_text(ty, items, methods_type, krate))
    } else {
        Err(PyImplErrorView::InternalConsistency(InternalConsistencyError::UnknownFragment))
    }
}

/// A result of the generator, by its views.
pub open spec fn outcome_view(outcome: Result<String, PyImplError>) -> Result<
    Seq<char>,
    PyImplErrorView,
> {
    match outcome {
        Ok(code) => Ok(code@),
        Err(error) => Err(error@),
    }
}

/// Generates the code for a block of `ty` from its members.
///
/// The members are sorted, the fragments are merged, and only then is the
/// exemption from the naming rule written on the class attributes that bear
/// a protocol name: where the block is refused, its members stay as they were.
pub fn impl_methods(
    ty: &str,
    impls: &mut Vec<ImplItem>,
    methods_type: PyClassMethodsType,
    options: PyImplOptions,
) -> (generated: Result<String, PyImplError>)
    ensures
        outcome_view(generated) == methods_outcome(
            ty@,
            old(impls).deep_view(),
            methods_type,
            options@.krate,
        ),
        final(impls).deep_view() == if generated is Ok {
            suppressed(old(impls).deep_view())
        } else {
            old(impls).deep_view()
        },
{
    let sorted = classify_members(ty, impls);
    let ClassifiedMembers { trait_impls, mut proto_impls, methods, implemented_proto_fragments } =
        sorted;
    let rest = merge_shared_slots(ty, &mut proto_impls, implemented_proto_fragments);
    if !rest.is_empty() {
        return Err(PyImplError::InternalConsistency(InternalConsistencyError::UnknownFragment));
    }
    allow_protocol_constants(impls);
    let krate = get_pyo3_crate(&options.krate);
    Ok(emit_registration(ty, krate.as_str(), trait_impls, methods, proto_impls, methods_type))
}

/// An implementation block.
#[derive(Debug, PartialEq, Eq)]
pub struct ItemImpl {
    /// The attributes on the block.
    pub attrs: Vec<Attribute>,
    /// Where the block names the trait that it implements, if it names one.
    pub trait_: Option<Span>,
    /// Where the block declares lifetime or type parameters, if it declares any.
    pub generics: Option<Span>,
    /// The type that the block is for.
    pub self_ty: String,
    /// The members of the block.
    pub items: Vec<ImplItem>,
}

pub struct ItemImplView {
    pub attrs: Seq<AttributeView>,
    pub trait_: Option<Span>,
    pub generics: Option<Span>,
    pub self_ty: Seq<char>,
    pub items: Seq<ImplItemView>,
}

impl View for ItemImpl {
    type V = ItemImplView;

    open spec fn view(&self) -> ItemImplView {
        ItemImplView {
            attrs: self.attrs.deep_view(),
            trait_: self.trait_,
            generics: self.generics,
            self_ty: self.self_ty@,
            items: self.items.deep_view(),
        }
    }
}

/// The error for a block that implements a trait: it points at the trait.
pub open spec fn trait_block(span: Span) -> UserConfigErrorView {
    UserConfigErrorView {
        span,
        message: "#[pymethods] cannot be used on trait impl blocks"@,
    }
}

/// The error for a block with parameters: it points at the parameters.
pub open spec fn generic_block(span: Span) -> UserConfigErrorView {
    UserConfigErrorView {
        span,
        message: "#[pymethods] cannot be used with lifetime parameters or generics"@,
    }
}

/// What is wrong with the shape of a block, if anything: a block that
/// implements a trait is refused, and so is one with parameters.
pub open spec fn shape_defect(block: ItemImplView) -> Option<UserConfigErrorView> {
    match block.trait_ {
        Some(span) => Some(trait_block(span)),
        None => match block.generics {
            Some(span) => Some(generic_block(span)),
            None => None,
        },
    }
}

/// The configuration of a block. Its shape is judged first.
pub open spec fn block_options(block: ItemImplView) -> Result<
    PyImplOptionsView,
    UserConfigErrorView,
> {
    match shape_defect(block) {
        Some(defect) => Err(defect),
        None => options_of(config_options(block.attrs)),
    }
}

/// What a block comes to. Its shape is judged first, then its configuration,
/// then its members.
pub open spec fn block_outcome(block: ItemImplView, methods_type: PyClassMethodsType) -> Result<
    Seq<char>,
    PyImplErrorView,
> {
    match block_options(block) {
        Err(error) => Err(PyImplErrorView::UserConfig(error)),
        Ok(options) => methods_outcome(block.self_ty, block.items, methods_type, options.krate),
    }
}

/// The block as the generator leaves it. A block of the wrong shape is not
/// touched. Any other loses its configuration attributes, and its members
/// get their exemptions where code is generated.
pub open spec fn block_after(block: ItemImplView) -> ItemImplView {
    if shape_defect(block) is Some {
        block
    } else {
        ItemImplView {
            attrs: without_config(block.attrs),
            items: if block_outcome(block, PyClassMethodsType::Specialization) is Ok {
                suppressed(block.items)
            } else {
                block.items
            },
            ..block
        }
    }
}

impl ItemImpl {
    /// Judges the shape of the block and reads its configuration, which
    /// takes the configuration attributes off it. A block of the wrong shape
    /// is not touched.
    pub fn options(&mut self) -> (parsed: Result<PyImplOptions, UserConfigError>)
        ensures
            match parsed {
                Ok(options) => block_options(old(self)@) == Ok::<
                    PyImplOptionsView,
                    UserConfigErrorView,
                >(options@),
                Err(error) => block_options(old(self)@) == Err::<
                    PyImplOptionsView,
                    UserConfigErrorView,
                >(error@),
            },
            final(self)@ == if shape_defect(old(self)@) is Some {
                old(self)@
            } else {
                ItemImplView { attrs: without_config(old(self)@.attrs), ..old(self)@ }
            },
    {
        if let Some(span) = self.trait_ {
            Err(UserConfigError::new(span, "#[pymethods] cannot be used on trait impl blocks"))
        } else if let Some(span) = self.generics {
            Err(
                UserConfigError::new(
                    span,
                    "#[pymethods] cannot be used with lifetime parameters or generics",
                ),
            )
        } else {
            PyImplOptions::from_attrs(&mut self.attrs)
        }
    }
}

/// Generates the code for an implementation block.
pub fn build_py_methods(ast: &mut ItemImpl, methods_type: PyClassMethodsType) -> (generated: Result<
    String,
    PyImplError,
>)
    ensures
        outcome_view(generated) == block_outcome(old(ast)@, methods_type),
        final(ast)@ == block_after(old(ast)@),
{
    match ast.options() {
        Err(error) => Err(PyImplError::UserConfig(error)),
        Ok(options) => impl_methods(ast.self_ty.as_str(), &mut ast.items, methods_type, options),
    }
}

/// A block that implements a trait, or that declares lifetime or type
/// parameters, is refused as its author's error, and none of its attributes
/// or members is touched.
pub proof fn lemma_shape_rejected(block: ItemImplView, methods_type: PyClassMethodsType)
    requires
        block.trait_ is Some || block.generics is Some,
    ensures
        block_outcome(block, methods_type) matches Err(PyImplErrorView::UserConfig(error))
            && error.span == (if block.trait_ is Some {
            block.trait_->0
        } else {
            block.generics->0
        }),
        block_after(block) == block,
{
}


/// How many of the members end in the table `category`.
pub open spec fn count(items: Seq<ImplItemView>, category: MemberCategory) -> nat
    decreases items.len(),
{
    if items.len() == 0 {
        0
    } else if items.last().category() == category {
        count(items.drop_last(), category) + 1
    } else {
        count(items.drop_last(), category)
    }
}

/// How many of the members are fragments.
pub open spec fn fragment_count(items: Seq<ImplItemView>) -> nat
    decreases items.len(),
{
    if items.len() == 0 {
        0
    } else if items.last().is_fragment() {
        fragment_count(items.drop_last()) + 1
    } else {
        fragment_count(items.drop_last())
    }
}

/// Every member of a block ends in exactly one of the method table, the
/// trait implementations, the protocol table and the members passed through:
/// the four counts add up to the number of members. The method table has one
/// entry for each of its members. The protocol table has one entry of its own
/// for each of its members but the fragments, which reach it only through
/// the shared slots and have their code among the trait implementations.
pub proof fn lemma_partition_complete(ty: Seq<char>, items: Seq<ImplItemView>)
    ensures
        count(items, MemberCategory::Method) + count(items, MemberCategory::TraitImpl) + count(
            items,
            MemberCategory::ProtocolSlot,
        ) + count(items, MemberCategory::PassThrough) == items.len(),
        method_entries(ty, items).len() == count(items, MemberCategory::Method),
        trait_impl_entries(items).len() == count(items, MemberCategory::TraitImpl)
            + fragment_count(items),
        proto_entries(items).len() + fragment_count(items) == count(
            items,
            MemberCategory::ProtocolSlot,
        ),
    decreases items.len(),
{
    if items.len() > 0 {
        lemma_partition_complete(ty, items.drop_last());
    }
}

/// The name of every fragment among the members is in the set of names.
pub proof fn lemma_fragment_named(items: Seq<ImplItemView>, i: int)
    requires
        0 <= i < items.len(),
        fragment_name(items[i]) is Some,
    ensures
        fragment_names(items).contains(fragment_name(items[i])->0),
    decreases items.len(),
{
    if i < items.len() - 1 {
        lemma_fragment_named(items.drop_last(), i);
    }
}

/// A block with a member that is a half of a pair, whichever half and
/// whatever else the block holds, has exactly one shared slot for the pair in
/// its protocol table, which holds the complete slots of the block and then
/// its shared slots.
pub proof fn lemma_fragment_merged(
    ty: Seq<char>,
    items: Seq<ImplItemView>,
    i: int,
    rule: SlotPairRule,
)
    requires
        0 <= i < items.len(),
        fragment_name(items[i]) matches Some(name) && rule.names(name),
    ensures
        occurrences(merged_rules(fragment_names(items)), rule) == 1,
        protocol_table(ty, items).len() == proto_entries(items).len() + merged_rules(
            fragment_names(items),
        ).len(),
{
    lemma_fragment_named(items, i);
    lemma_merge_complete(ty, fragment_names(items), rule);
}

/// A block none of whose fragments bears a name of the table has no shared
/// slot: its protocol table holds its complete slots and nothing else.
pub proof fn lemma_no_fragment_no_merge(ty: Seq<char>, items: Seq<ImplItemView>)
    requires
        fragment_names(items).disjoint(reserved_names()),
    ensures
        protocol_table(ty, items) == proto_entries(items),
{
    lemma_merge_empty(ty, fragment_names(items));
    assert(proto_entries(items) + Seq::<Seq<char>>::empty() =~= proto_entries(items));
}

/// The code of a built-in slot: an entry of the table of default slots.
pub open spec fn default_slot_entry(method: ImplItemMethodView) -> Seq<char> {
    match method.generated {
        GeneratedPyMethodView::Proto(code) => gated(method.attrs, code),
        _ => Seq::empty(),
    }
}

/// What is wrong with a built-in slot, if anything: it has to be a complete
/// slot.
pub open spec fn default_slot_defect(method: ImplItemMethodView) -> Option<
    InternalConsistencyError,
> {
    match method.generated {
        GeneratedPyMethodView::Proto(_) => None,
        GeneratedPyMethodView::SlotTraitImpl(_, _) => Some(
            InternalConsistencyError::FragmentDefault,
        ),
        _ => Some(InternalConsistencyError::NonProtocolDefault),
    }
}

/// What is wrong with the first built-in slot that is no complete slot.
pub open spec fn first_defect(method_defs: Seq<ImplItemMethodView>) -> Option<
    InternalConsistencyError,
>
    decreases method_defs.len(),
{
    if method_defs.len() == 0 {
        None
    } else {
        match first_defect(method_defs.drop_last()) {
            Some(defect) => Some(defect),
            None => default_slot_defect(method_defs.last()),
        }
    }
}

/// The code for the built-in slots of the class `cls`: the methods
/// themselves, and the table of default slots, which the runtime consults
/// where the class has no slot of its own.
pub open spec fn default_slots_text(cls: Seq<char>, method_defs: Seq<ImplItemMethodView>) -> Seq<
    char,
> {
    "impl "@ + cls + " { "@ + terminated(
        Seq::new(method_defs.len(), |i: int| method_defs[i].definition),
        " "@,
    ) + "} impl ::pyo3::class::impl_::PyClassDefaultSlots<"@ + cls
        + "> for ::pyo3::class::impl_::PyClassImplCollector<"@ + cls
        + "> { fn py_class_default_slots(self) -> &'static [::pyo3::ffi::PyType_Slot] { &["@
        + joined(Seq::new(method_defs.len(), |i: int| default_slot_entry(method_defs[i])), ", "@)
        + "] } }"@
}

proof fn lemma_first_defect_prefix(method_defs: Seq<ImplItemMethodView>, k: int)
    requires
        0 <= k <= method_defs.len(),
        first_defect(method_defs.take(k)) is Some,
    ensures
        first_defect(method_defs) == first_defect(method_defs.take(k)),
    decreases method_defs.len() - k,
{
    if k == method_defs.len() {
        assert(method_defs.take(k) == method_defs);
    } else {
        assert(method_defs.take(k + 1).drop_last() == method_defs.take(k));
        lemma_first_defect_prefix(method_defs, k + 1);
    }
}

proof fn lemma_no_defect(method_defs: Seq<ImplItemMethodView>, i: int)
    requires
        first_defect(method_defs) is None,
        0 <= i < method_defs.len(),
    ensures
        method_defs[i].generated is Proto,
    decreases method_defs.len(),
{
    if i < method_defs.len() - 1 {
        lemma_no_defect(method_defs.drop_last(), i);
    }
}

/// Finds what is wrong with the built-in slots, if anything is.
pub fn check_default_slots(method_defs: &Vec<ImplItemMethod>) -> (checked: Result<
    (),
    InternalConsistencyError,
>)
    ensures
        match checked {
            Ok(()) => first_defect(method_defs.deep_view()) is None,
            Err(defect) => first_defect(method_defs.deep_view()) == Some(defect),
        },
{
    let mut i: usize = 0;
    while i < method_defs.len()
        invariant
            i <= method_defs.len(),
            first_defect(method_defs.deep_view().take(i as int)) is None,
        decreases method_defs.len() - i,
    {
        proof {
            let all = method_defs.deep_view();
            assert(all.take(i + 1).drop_last() == all.take(i as int));
            assert(all.take(i + 1).last() == method_defs[i as int]@);
        }
        match &method_defs[i].generated {
            GeneratedPyMethod::Proto(_) => {},
            GeneratedPyMethod::SlotTraitImpl(_, _) => {
                proof {
                    lemma_first_defect_prefix(method_defs.deep_view(), i + 1);
                }
                return Err(InternalConsistencyError::FragmentDefault);
            },
            GeneratedPyMethod::Method(_) | GeneratedPyMethod::TraitImpl(_) => {
                proof {
                    lemma_first_defect_prefix(method_defs.deep_view(), i + 1);
                }
                return Err(InternalConsistencyError::NonProtocolDefault);
            },
        }
        i += 1;
    }
    proof {
        assert(method_defs.deep_view().take(method_defs.len() as int) == method_defs.deep_view());
    }
    Ok(())
}

/// Generates the code for the built-in slots of the class `cls`.
///
/// The methods are the runtime library's own, and each has to be a complete
/// slot.
pub fn gen_default_slot_impls(cls: &str, method_defs: Vec<ImplItemMethod>) -> (code: String)
    requires
        first_defect(method_defs.deep_view()) is None,
    ensures
        code@ == default_slots_text(cls@, method_defs.deep_view()),
{
    let ghost given = method_defs.deep_view();
    let mut definitions: Vec<String> = Vec::new();
    let mut proto_impls: Vec<String> = Vec::new();
    let mut i: usize = 0;
    while i < method_defs.len()
        invariant
            i <= method_defs.len(),
            given == method_defs.deep_view(),
            first_defect(given) is None,
            definitions.deep_view() == Seq::new(i as nat, |j: int| given[j].definition),
            proto_impls.deep_view() == Seq::new(i as nat, |j: int| default_slot_entry(given[j])),
        decreases method_defs.len() - i,
    {
        let meth = &method_defs[i];
        proof {
            lemma_no_defect(given, i as int);
            assert(given[i as int] == meth@);
        }
        let ghost earlier_definitions = definitions.deep_view();
        let ghost earlier_protos = proto_impls.deep_view();
        definitions.push(meth.definition.clone());
        assert(definitions.deep_view() == earlier_definitions.push(meth.definition@));
        match &meth.generated {
            GeneratedPyMethod::Proto(token_stream) => {
                let entry = gate(&meth.attrs, token_stream.as_str());
                proto_impls.push(entry);
                assert(proto_impls.deep_view() == earlier_protos.push(entry@));
            },
            _ => {},
        }
        assert(definitions.deep_view() =~= Seq::new(
            (i + 1) as nat,
            |j: int| given[j].definition,
        ));
        assert(proto_impls.deep_view() =~= Seq::new(
            (i + 1) as nat,
            |j: int| default_slot_entry(given[j]),
        ));
        i += 1;
    }
    let mut code = String::from_str("impl ");
    code.append(cls);
    code.append(" { ");
    code.append(terminate(&definitions, " ").as_str());
    code.append("} impl ::pyo3::class::impl_::PyClassDefaultSlots<");
    code.append(cls);
    code.append("> for ::pyo3::class::impl_::PyClassImplCollector<");
    code.append(cls);
    code.append(
        "> { fn py_class_default_slots(self) -> &'static [::pyo3::ffi::PyType_Slot] { &[",
    );
    code.append(join(&proto_impls, ", ").as_str());
    code.append("] } }");
    code
}

/// Generates the code for the built-in slots of the class `cls`, or says
/// what is wrong with the first of them that is no complete slot.
pub fn try_gen_default_slot_impls(cls: &str, method_defs: Vec<ImplItemMethod>) -> (generated:
    Result<String, InternalConsistencyError>)
    ensures
        match generated {
            Ok(code) => first_defect(method_defs.deep_view()) is None && code@
                == default_slots_text(cls@, method_defs.deep_view()),
            Err(defect) => first_defect(method_defs.deep_view()) == Some(defect),
        },
{
    match check_default_slots(&method_defs) {
        Ok(()) => Ok(gen_default_slot_impls(cls, method_defs)),
        Err(defect) => Err(defect),
    }
}

/// A built-in slot that the classifier takes for an ordinary method is a
/// defect of the generator, whatever else is given; so is one that it takes
/// for a trait implementation or for a fragment.
pub proof fn lemma_default_slot_restriction(method_defs: Seq<ImplItemMethodView>, i: int)
    requires
        0 <= i < method_defs.len(),
        !(method_defs[i].generated is Proto),
    ensures
        first_defect(method_defs) is Some,
{
    if first_defect(method_defs) is None {
        lemma_no_defect(method_defs, i);
    }
}

} // verus!
