//! The table emitter: the registration code for one block, as source text.
//!
//! All generated code reaches the runtime library under the name `_pyo3`,
//! which the enclosing anonymous constant binds to the library's path.

use vstd::prelude::*;
use crate::syntax::{get_cfg_attributes, cfg_texts, Attribute, AttributeView};
use crate::text::{join, joined, terminate, terminated};

verus! {

/// The mechanism by which the tables of a block reach the type object.
#[derive(Clone, Copy, Debug, PartialEq, Eq, Structural)]
pub enum PyClassMethodsType {
    /// Two table providers for the type, which the compiler composes with
    /// those of the type's other blocks.
    Specialization,
    /// One contribution to a collection that is put together at link time
    /// and keyed by the type.
    Inventory,
}

/// A piece of code behind the conditional-compilation gates of the member
/// that it was generated for.
pub open spec fn gated(attrs: Seq<AttributeView>, code: Seq<char>) -> Seq<char> {
    terminated(cfg_texts(attrs), " "@) + code
}

/// Puts `code` behind the conditional-compilation gates among `attrs`.
pub fn gate(attrs: &Vec<Attribute>, code: &str) -> (out: String)
    ensures
        out@ == gated(attrs.deep_view(), code@),
{
    let gates = get_cfg_attributes(attrs);
    let mut out = terminate(&gates, " ");
    out.append(code);
    out
}

/// The provider of the method table of `ty`.
pub open spec fn py_methods_text(ty: Seq<char>, methods: Seq<Seq<char>>) -> Seq<char> {
    "impl _pyo3::class::impl_::PyMethods<"@ + ty
        + "> for _pyo3::class::impl_::PyClassImplCollector<"@ + ty
        + "> { fn py_methods(self) -> &'static [_pyo3::class::methods::PyMethodDefType] { static METHODS: &[_pyo3::class::methods::PyMethodDefType] = &["@
        + joined(methods, ", "@) + "]; METHODS } }"@
}

/// The provider of the protocol slot table of `ty`.
pub open spec fn protos_text(ty: Seq<char>, proto_impls: Seq<Seq<char>>) -> Seq<char> {
    "impl _pyo3::class::impl_::PyMethodsProtocolSlots<"@ + ty
        + "> for _pyo3::class::impl_::PyClassImplCollector<"@ + ty
        + "> { fn methods_protocol_slots(self) -> &'static [_pyo3::ffi::PyType_Slot] { &["@
        + joined(proto_impls, ", "@) + "] } }"@
}

/// The contribution of one block to the collection of `ty`.
pub open spec fn inventory_text(
    ty: Seq<char>,
    methods: Seq<Seq<char>>,
    proto_impls: Seq<Seq<char>>,
) -> Seq<char> {
    "_pyo3::inventory::submit! { type Inventory = <"@ + ty
        + " as _pyo3::class::impl_::PyClassImpl>::Inventory; Inventory::new(&["@ + joined(
        methods,
        ", "@,
    ) + "], &["@ + joined(proto_impls, ", "@) + "]) }"@
}

/// The tables of one block, registered by way of `methods_type`.
pub open spec fn tables_text(
    ty: Seq<char>,
    methods: Seq<Seq<char>>,
    proto_impls: Seq<Seq<char>>,
    methods_type: PyClassMethodsType,
) -> Seq<char> {
    match methods_type {
        PyClassMethodsType::Specialization => protos_text(ty, proto_impls) + " "@
            + py_methods_text(ty, methods),
        PyClassMethodsType::Inventory => inventory_text(ty, methods, proto_impls),
    }
}

/// All that is generated for one block: an anonymous constant whose body
/// binds the runtime library, then holds the trait implementations, then the
/// tables.
pub open spec fn registration_text(
    ty: Seq<char>,
    krate: Seq<char>,
    trait_impls: Seq<Seq<char>>,
    methods: Seq<Seq<char>>,
    proto_impls: Seq<Seq<char>>,
    methods_type: PyClassMethodsType,
) -> Seq<char> {
    "const _: () = { use "@ + krate + " as _pyo3; "@ + terminated(trait_impls, " "@) + tables_text(
        ty,
        methods,
        proto_impls,
        methods_type,
    ) + " };"@
}

/// Writes the provider of the method table of `ty`.
pub fn impl_py_methods(ty: &str, methods: Vec<String>) -> (code: String)
    ensures
        code@ == py_methods_text(ty@, methods.deep_view()),
{
    let mut code = String::from_str("impl _pyo3::class::impl_::PyMethods<");
    code.append(ty);
    code.append("> for _pyo3::class::impl_::PyClassImplCollector<");
    code.append(ty);
    code.append(
        "> { fn py_methods(self) -> &'static [_pyo3::class::methods::PyMethodDefType] { static METHODS: &[_pyo3::class::methods::PyMethodDefType] = &[",
    );
    code.append(join(&methods, ", ").as_str());
    code.append("]; METHODS } }");
    code
}

/// Writes the provider of the protocol slot table of `ty`.
pub fn impl_protos(ty: &str, proto_impls: Vec<String>) -> (code: String)
    ensures
        code@ == protos_text(ty@, proto_impls.deep_view()),
{
    let mut code = String::from_str("impl _pyo3::class::impl_::PyMethodsProtocolSlots<");
    code.append(ty);
    code.append("> for _pyo3::class::impl_::PyClassImplCollector<");
    code.append(ty);
    code.append(
        "> { fn methods_protocol_slots(self) -> &'static [_pyo3::ffi::PyType_Slot] { &[",
    );
    code.append(join(&proto_impls, ", ").as_str());
    code.append("] } }");
    code
}

/// Writes the contribution of one block to the collection of `ty`.
pub fn submit_methods_inventory(ty: &str, methods: Vec<String>, proto_impls: Vec<String>) -> (code:
    String)
    ensures
        code@ == inventory_text(ty@, methods.deep_view(), proto_impls.deep_view()),
{
    let mut code = String::from_str("_pyo3::inventory::submit! { type Inventory = <");
    code.append(ty);
    code.append(" as _pyo3::class::impl_::PyClassImpl>::Inventory; Inventory::new(&[");
    code.append(join(&methods, ", ").as_str());
    code.append("], &[");
    code.append(join(&proto_impls, ", ").as_str());
    code.append("]) }");
    code
}

/// Writes all that is generated for one block.
pub fn emit_registration(
    ty: &str,
    krate: &str,
    trait_impls: Vec<String>,
    methods: Vec<String>,
    proto_impls: Vec<String>,
    methods_type: PyClassMethodsType,
) -> (code: String)
    ensures
        code@ == registration_text(
            ty@,
            krate@,
            trait_impls.deep_view(),
            methods.deep_view(),
            proto_impls.deep_view(),
            methods_type,
        ),
{
    let mut code = String::from_str("const _: () = { use ");
    code.append(krate);
    code.append(" as _pyo3; ");
    code.append(terminate(&trait_impls, " ").as_str());
    match methods_type {
        PyClassMethodsType::Specialization => {
            let ghost head = code@;
            let methods_registration = impl_py_methods(ty, methods);
            let protos_registration = impl_protos(ty, proto_impls);
            code.append(protos_registration.as_str());
            code.append(" ");
            code.append(methods_registration.as_str());
            assert(code@ == head + (protos_registration@ + " "@ + methods_registration@));
        },
        PyClassMethodsType::Inventory => {
            let inventory = submit_methods_inventory(ty, methods, proto_impls);
            code.append(inventory.as_str());
        },
    }
    code.append(" };");
    code
}

} // verus!
