use pyimpl_backend::fragments::FragmentSet;
use pyimpl_backend::slots::{add_shared_proto_slots, merge_shared_slots, SlotPairRule, SLOT_PAIR_COUNT};

fn set_of(names: &[&str]) -> FragmentSet {
    let mut set = FragmentSet::new();
    for name in names {
        set.insert(name.to_string());
    }
    set
}

#[test]
fn table_has_seventeen_pairs_in_order() {
    assert_eq!(SLOT_PAIR_COUNT, 17);
    assert_eq!(SlotPairRule::nth(0), SlotPairRule::SetAttr);
    assert_eq!(SlotPairRule::nth(3), SlotPairRule::Add);
    assert_eq!(SlotPairRule::nth(16), SlotPairRule::Pow);
    assert_eq!(SlotPairRule::nth(15).first_name(), "__floordiv__");
    assert_eq!(SlotPairRule::nth(15).second_name(), "__rfloordiv__");
    assert_eq!(SlotPairRule::nth(1).generator_name(), "generate_pyclass_setdescr_slot");
}

#[test]
fn slot_entry_names_the_shim_and_the_class() {
    assert_eq!(
        SlotPairRule::Add.slot_entry("Number"),
        "_pyo3::class::impl_::generate_pyclass_add_slot!(Number)"
    );
}

#[test]
fn setattr_and_delattr_share_one_slot() {
    let mut protos: Vec<String> = Vec::new();
    add_shared_proto_slots("Obj", &mut protos, set_of(&["__setattr__", "__delattr__"]));
    assert_eq!(protos, vec!["_pyo3::class::impl_::generate_pyclass_setattr_slot!(Obj)".to_string()]);
}

#[test]
fn forward_operator_alone_gets_the_shared_slot() {
    let mut protos: Vec<String> = Vec::new();
    add_shared_proto_slots("Obj", &mut protos, set_of(&["__add__"]));
    assert_eq!(protos, vec!["_pyo3::class::impl_::generate_pyclass_add_slot!(Obj)".to_string()]);
}

#[test]
fn reflected_operator_alone_gets_the_shared_slot() {
    let mut protos: Vec<String> = Vec::new();
    add_shared_proto_slots("Obj", &mut protos, set_of(&["__rpow__"]));
    assert_eq!(protos, vec!["_pyo3::class::impl_::generate_pyclass_pow_slot!(Obj)".to_string()]);
}

#[test]
fn shared_slots_follow_the_table_not_the_input() {
    let mut protos: Vec<String> = vec!["first".to_string()];
    add_shared_proto_slots("T", &mut protos, set_of(&["__rxor__", "__sub__", "__delitem__", "__rsub__"]));
    assert_eq!(
        protos,
        vec![
            "first".to_string(),
            "_pyo3::class::impl_::generate_pyclass_setitem_slot!(T)".to_string(),
            "_pyo3::class::impl_::generate_pyclass_sub_slot!(T)".to_string(),
            "_pyo3::class::impl_::generate_pyclass_xor_slot!(T)".to_string(),
        ]
    );
}

#[test]
fn every_pair_merges_from_either_half() {
    for i in 0..SLOT_PAIR_COUNT {
        let rule = SlotPairRule::nth(i);
        for names in [vec![rule.first_name()], vec![rule.second_name()], vec![rule.first_name(), rule.second_name()]] {
            let mut protos: Vec<String> = Vec::new();
            let rest = merge_shared_slots("C", &mut protos, set_of(&names));
            assert!(rest.is_empty());
            assert_eq!(protos, vec![rule.slot_entry("C")]);
        }
    }
}

#[test]
fn no_fragment_no_shared_slot() {
    let mut protos: Vec<String> = vec!["kept".to_string()];
    let rest = merge_shared_slots("C", &mut protos, FragmentSet::new());
    assert!(rest.is_empty());
    assert_eq!(protos, vec!["kept".to_string()]);
}

#[test]
fn unknown_fragment_stays_in_the_residue() {
    let mut protos: Vec<String> = Vec::new();
    let rest = merge_shared_slots("C", &mut protos, set_of(&["__add__", "__frobnicate__"]));
    assert!(!rest.is_empty());
    assert!(rest.contains("__frobnicate__"));
    assert!(!rest.contains("__add__"));
    assert_eq!(protos, vec!["_pyo3::class::impl_::generate_pyclass_add_slot!(C)".to_string()]);
}

#[test]
fn fragment_set_holds_each_name_once() {
    let mut set = FragmentSet::new();
    assert!(set.is_empty());
    assert!(set.insert("__add__".to_string()));
    assert!(!set.insert("__add__".to_string()));
    assert!(set.contains("__add__"));
    assert!(set.remove("__add__"));
    assert!(!set.remove("__add__"));
    assert!(set.is_empty());
}
