//! The slot merger: complementary operator fragments become one shared slot.
//!
//! The runtime has one slot for each binary operator, for attribute
//! assignment, for descriptor assignment and for item assignment, while a
//! class may define either half of each: the forward or the reflected
//! operator, the setter or the deleter. Each pair of halves is served by one
//! table entry that names a shim of the runtime library. The shim tries the
//! forward half first and the reflected half, with the operands swapped, when
//! the forward half declines; a half that the class does not define declines.

use vstd::prelude::*;
use crate::fragments::FragmentSet;

verus! {

/// The pairs of fragment names that share a slot, in the order of the table.
#[derive(Clone, Copy, Debug, PartialEq, Eq, Structural)]
pub enum SlotPairRule {
    SetAttr,
    SetDescr,
    SetItem,
    Add,
    Sub,
    Mul,
    Mod,
    DivMod,
    LShift,
    RShift,
    And,
    Or,
    Xor,
    MatMul,
    TrueDiv,
    FloorDiv,
    Pow,
}

/// The number of pairs in the table.
pub const SLOT_PAIR_COUNT: usize = 17;

impl SlotPairRule {
    /// The place of the pair in the table.
    pub open spec fn index(self) -> int {
        match self {
            SlotPairRule::SetAttr => 0,
            SlotPairRule::SetDescr => 1,
            SlotPairRule::SetItem => 2,
            SlotPairRule::Add => 3,
            SlotPairRule::Sub => 4,
            SlotPairRule::Mul => 5,
            SlotPairRule::Mod => 6,
            SlotPairRule::DivMod => 7,
            SlotPairRule::LShift => 8,
            SlotPairRule::RShift => 9,
            SlotPairRule::And => 10,
            SlotPairRule::Or => 11,
            SlotPairRule::Xor => 12,
            SlotPairRule::MatMul => 13,
            SlotPairRule::TrueDiv => 14,
            SlotPairRule::FloorDiv => 15,
            SlotPairRule::Pow => 16,
        }
    }

    /// The pair at place `i` of the table.
    pub open spec fn at(i: int) -> SlotPairRule {
        if i <= 0 {
            SlotPairRule::SetAttr
        } else if i == 1 {
            SlotPairRule::SetDescr
        } else if i == 2 {
            SlotPairRule::SetItem
        } else if i == 3 {
            SlotPairRule::Add
        } else if i == 4 {
            SlotPairRule::Sub
        } else if i == 5 {
            SlotPairRule::Mul
        } else if i == 6 {
            SlotPairRule::Mod
        } else if i == 7 {
            SlotPairRule::DivMod
        } else if i == 8 {
            SlotPairRule::LShift
        } else if i == 9 {
            SlotPairRule::RShift
        } else if i == 10 {
            SlotPairRule::And
        } else if i == 11 {
            SlotPairRule::Or
        } else if i == 12 {
            SlotPairRule::Xor
        } else if i == 13 {
            SlotPairRule::MatMul
        } else if i == 14 {
            SlotPairRule::TrueDiv
        } else if i == 15 {
            SlotPairRule::FloorDiv
        } else {
            SlotPairRule::Pow
        }
    }

    /// The first name of the pair: the forward operator, or the setter.
    pub open spec fn first(self) -> Seq<char> {
        match self {
            SlotPairRule::SetAttr => "__setattr__"@,
            SlotPairRule::SetDescr => "__set__"@,
            SlotPairRule::SetItem => "__setitem__"@,
            SlotPairRule::Add => "__add__"@,
            SlotPairRule::Sub => "__sub__"@,
            SlotPairRule::Mul => "__mul__"@,
            SlotPairRule::Mod => "__mod__"@,
            SlotPairRule::DivMod => "__divmod__"@,
            SlotPairRule::LShift => "__lshift__"@,
            SlotPairRule::RShift => "__rshift__"@,
            SlotPairRule::And => "__and__"@,
            SlotPairRule::Or => "__or__"@,
            SlotPairRule::Xor => "__xor__"@,
            SlotPairRule::MatMul => "__matmul__"@,
            SlotPairRule::TrueDiv => "__truediv__"@,
            SlotPairRule::FloorDiv => "__floordiv__"@,
            SlotPairRule::Pow => "__pow__"@,
        }
    }

    /// The second name of the pair: the reflected operator, or the deleter.
    pub open spec fn second(self) -> Seq<char> {
        match self {
            SlotPairRule::SetAttr => "__delattr__"@,
            SlotPairRule::SetDescr => "__delete__"@,
            SlotPairRule::SetItem => "__delitem__"@,
            SlotPairRule::Add => "__radd__"@,
            SlotPairRule::Sub => "__rsub__"@,
            SlotPairRule::Mul => "__rmul__"@,
            SlotPairRule::Mod => "__rmod__"@,
            SlotPairRule::DivMod => "__rdivmod__"@,
            SlotPairRule::LShift => "__rlshift__"@,
            SlotPairRule::RShift => "__rrshift__"@,
            SlotPairRule::And => "__rand__"@,
            SlotPairRule::Or => "__ror__"@,
            SlotPairRule::Xor => "__rxor__"@,
            SlotPairRule::MatMul => "__rmatmul__"@,
            SlotPairRule::TrueDiv => "__rtruediv__"@,
            SlotPairRule::FloorDiv => "__rfloordiv__"@,
            SlotPairRule::Pow => "__rpow__"@,
        }
    }

    /// The name of the shim that serves the pair's slot.
    pub open spec fn generator(self) -> Seq<char> {
        match self {
            SlotPairRule::SetAttr => "generate_pyclass_setattr_slot"@,
            SlotPairRule::SetDescr => "generate_pyclass_setdescr_slot"@,
            SlotPairRule::SetItem => "generate_pyclass_setitem_slot"@,
            SlotPairRule::Add => "generate_pyclass_add_slot"@,
            SlotPairRule::Sub => "generate_pyclass_sub_slot"@,
            SlotPairRule::Mul => "generate_pyclass_mul_slot"@,
            SlotPairRule::Mod => "generate_pyclass_mod_slot"@,
            SlotPairRule::DivMod => "generate_pyclass_divmod_slot"@,
            SlotPairRule::LShift => "generate_pyclass_lshift_slot"@,
            SlotPairRule::RShift => "generate_pyclass_rshift_slot"@,
            SlotPairRule::And => "generate_pyclass_and_slot"@,
            SlotPairRule::Or => "generate_pyclass_or_slot"@,
            SlotPairRule::Xor => "generate_pyclass_xor_slot"@,
            SlotPairRule::MatMul => "generate_pyclass_matmul_slot"@,
            SlotPairRule::TrueDiv => "generate_pyclass_truediv_slot"@,
            SlotPairRule::FloorDiv => "generate_pyclass_floordiv_slot"@,
            SlotPairRule::Pow => "generate_pyclass_pow_slot"@,
        }
    }

    /// The table entry of the pair's shared slot for the class `ty`.
    pub open spec fn entry(self, ty: Seq<char>) -> Seq<char> {
        "_pyo3::class::impl_::"@ + self.generator() + "!("@ + ty + ")"@
    }

    /// Whether `name` is one of the pair's two names.
    pub open spec fn names(self, name: Seq<char>) -> bool {
        name == self.first() || name == self.second()
    }

    /// Whether a class that defines `fragments` defines a half of this pair.
    pub open spec fn touched(self, fragments: Set<Seq<char>>) -> bool {
        fragments.contains(self.first()) || fragments.contains(self.second())
    }

    /// The pair at place `i` of the table.
    pub fn nth(i: usize) -> (rule: SlotPairRule)
        requires
            i < SLOT_PAIR_COUNT,
        ensures
            rule == SlotPairRule::at(i as int),
            rule.index() == i,
    {
        if i == 0 {
            SlotPairRule::SetAttr
        } else if i == 1 {
            SlotPairRule::SetDescr
        } else if i == 2 {
            SlotPairRule::SetItem
        } else if i == 3 {
            SlotPairRule::Add
        } else if i == 4 {
            SlotPairRule::Sub
        } else if i == 5 {
            SlotPairRule::Mul
        } else if i == 6 {
            SlotPairRule::Mod
        } else if i == 7 {
            SlotPairRule::DivMod
        } else if i == 8 {
            SlotPairRule::LShift
        } else if i == 9 {
            SlotPairRule::RShift
        } else if i == 10 {
            SlotPairRule::And
        } else if i == 11 {
            SlotPairRule::Or
        } else if i == 12 {
            SlotPairRule::Xor
        } else if i == 13 {
            SlotPairRule::MatMul
        } else if i == 14 {
            SlotPairRule::TrueDiv
        } else if i == 15 {
            SlotPairRule::FloorDiv
        } else {
            SlotPairRule::Pow
        }
    }

    pub fn first_name(self) -> (name: &'static str)
        ensures
            name@ == self.first(),
    {
        match self {
            SlotPairRule::SetAttr => "__setattr__",
            SlotPairRule::SetDescr => "__set__",
            SlotPairRule::SetItem => "__setitem__",
            SlotPairRule::Add => "__add__",
            SlotPairRule::Sub => "__sub__",
            SlotPairRule::Mul => "__mul__",
            SlotPairRule::Mod => "__mod__",
            SlotPairRule::DivMod => "__divmod__",
            SlotPairRule::LShift => "__lshift__",
            SlotPairRule::RShift => "__rshift__",
            SlotPairRule::And => "__and__",
            SlotPairRule::Or => "__or__",
            SlotPairRule::Xor => "__xor__",
            SlotPairRule::MatMul => "__matmul__",
            SlotPairRule::TrueDiv => "__truediv__",
            SlotPairRule::FloorDiv => "__floordiv__",
            SlotPairRule::Pow => "__pow__",
        }
    }

    pub fn second_name(self) -> (name: &'static str)
        ensures
            name@ == self.second(),
    {
        match self {
            SlotPairRule::SetAttr => "__delattr__",
            SlotPairRule::SetDescr => "__delete__",
            SlotPairRule::SetItem => "__delitem__",
            SlotPairRule::Add => "__radd__",
            SlotPairRule::Sub => "__rsub__",
            SlotPairRule::Mul => "__rmul__",
            SlotPairRule::Mod => "__rmod__",
            SlotPairRule::DivMod => "__rdivmod__",
            SlotPairRule::LShift => "__rlshift__",
            SlotPairRule::RShift => "__rrshift__",
            SlotPairRule::And => "__rand__",
            SlotPairRule::Or => "__ror__",
            SlotPairRule::Xor => "__rxor__",
            SlotPairRule::MatMul => "__rmatmul__",
            SlotPairRule::TrueDiv => "__rtruediv__",
            SlotPairRule::FloorDiv => "__rfloordiv__",
            SlotPairRule::Pow => "__rpow__",
        }
    }

    pub fn generator_name(self) -> (name: &'static str)
        ensures
            name@ == self.generator(),
    {
        match self {
            SlotPairRule::SetAttr => "generate_pyclass_setattr_slot",
            SlotPairRule::SetDescr => "generate_pyclass_setdescr_slot",
            SlotPairRule::SetItem => "generate_pyclass_setitem_slot",
            SlotPairRule::Add => "generate_pyclass_add_slot",
            SlotPairRule::Sub => "generate_pyclass_sub_slot",
            SlotPairRule::Mul => "generate_pyclass_mul_slot",
            SlotPairRule::Mod => "generate_pyclass_mod_slot",
            SlotPairRule::DivMod => "generate_pyclass_divmod_slot",
            SlotPairRule::LShift => "generate_pyclass_lshift_slot",
            SlotPairRule::RShift => "generate_pyclass_rshift_slot",
            SlotPairRule::And => "generate_pyclass_and_slot",
            SlotPairRule::Or => "generate_pyclass_or_slot",
            SlotPairRule::Xor => "generate_pyclass_xor_slot",
            SlotPairRule::MatMul => "generate_pyclass_matmul_slot",
            SlotPairRule::TrueDiv => "generate_pyclass_truediv_slot",
            SlotPairRule::FloorDiv => "generate_pyclass_floordiv_slot",
            SlotPairRule::Pow => "generate_pyclass_pow_slot",
        }
    }

    /// Writes the table entry of the pair's shared slot for the class `ty`.
    pub fn slot_entry(self, ty: &str) -> (code: String)
        ensures
            code@ == self.entry(ty@),
    {
        let mut code = String::from_str("_pyo3::class::impl_::");
        code.append(self.generator_name());
        code.append("!(");
        code.append(ty);
        code.append(")");
        code
    }
}

/// The length of a name and four of its characters: enough to tell the
/// names of the table apart.
spec fn name_key(name: Seq<char>) -> (nat, char, char, char, char) {
    (name.len(), name[2], name[3], name[4], name[5])
}

/// No name stands in the table twice.
pub proof fn lemma_names_distinct(a: SlotPairRule, b: SlotPairRule)
    ensures
        a.first() != b.second(),
        a != b ==> a.first() != b.first() && a.second() != b.second(),
{
    reveal_strlit("__setattr__");
    reveal_strlit("__delattr__");
    reveal_strlit("__set__");
    reveal_strlit("__delete__");
    reveal_strlit("__setitem__");
    reveal_strlit("__delitem__");
    reveal_strlit("__add__");
    reveal_strlit("__radd__");
    reveal_strlit("__sub__");
    reveal_strlit("__rsub__");
    reveal_strlit("__mul__");
    reveal_strlit("__rmul__");
    reveal_strlit("__mod__");
    reveal_strlit("__rmod__");
    reveal_strlit("__divmod__");
    reveal_strlit("__rdivmod__");
    reveal_strlit("__lshift__");
    reveal_strlit("__rlshift__");
    reveal_strlit("__rshift__");
    reveal_strlit("__rrshift__");
    reveal_strlit("__and__");
    reveal_strlit("__rand__");
    reveal_strlit("__or__");
    reveal_strlit("__ror__");
    reveal_strlit("__xor__");
    reveal_strlit("__rxor__");
    reveal_strlit("__matmul__");
    reveal_strlit("__rmatmul__");
    reveal_strlit("__truediv__");
    reveal_strlit("__rtruediv__");
    reveal_strlit("__floordiv__");
    reveal_strlit("__rfloordiv__");
    reveal_strlit("__pow__");
    reveal_strlit("__rpow__");
    assert(name_key(a.first()) != name_key(b.second()));
    if a != b {
        assert(name_key(a.first()) != name_key(b.first()));
        assert(name_key(a.second()) != name_key(b.second()));
    }
}


/// The names of the table: those that a fragment may bear.
pub open spec fn reserved_names() -> Set<Seq<char>> {
    Set::new(|name: Seq<char>| exists|rule: SlotPairRule| #[trigger] rule.names(name))
}

/// The names of the pairs that stand before place `k` of the table.
pub open spec fn names_before(k: int) -> Set<Seq<char>> {
    Set::new(
        |name: Seq<char>| exists|rule: SlotPairRule| rule.index() < k && #[trigger] rule.names(name),
    )
}

/// The pairs before place `k` of the table of which `fragments` holds a
/// name, in the order of the table.
pub open spec fn merged_rules_before(fragments: Set<Seq<char>>, k: int) -> Seq<SlotPairRule>
    decreases k,
{
    if k <= 0 {
        Seq::empty()
    } else if SlotPairRule::at(k - 1).touched(fragments) {
        merged_rules_before(fragments, k - 1).push(SlotPairRule::at(k - 1))
    } else {
        merged_rules_before(fragments, k - 1)
    }
}

/// The pairs of which `fragments` holds a name, in the order of the table.
pub open spec fn merged_rules(fragments: Set<Seq<char>>) -> Seq<SlotPairRule> {
    merged_rules_before(fragments, SLOT_PAIR_COUNT as int)
}

/// The table entries of `rules` for the class `ty`.
pub open spec fn entries_of(ty: Seq<char>, rules: Seq<SlotPairRule>) -> Seq<Seq<char>> {
    rules.map_values(|rule: SlotPairRule| rule.entry(ty))
}

/// The shared slots of a class `ty` that defines `fragments`: one entry for
/// each pair of which it defines a half.
pub open spec fn merged_entries(ty: Seq<char>, fragments: Set<Seq<char>>) -> Seq<Seq<char>> {
    entries_of(ty, merged_rules(fragments))
}

/// The fragment names that no pair of the table accounts for.
pub open spec fn residue(fragments: Set<Seq<char>>) -> Set<Seq<char>> {
    fragments.difference(reserved_names())
}

/// Appends to `proto_impls` one shared slot for each pair of which
/// `implemented_proto_fragments` holds a name, in the order of the table, and
/// returns the names that no pair accounts for.
pub fn merge_shared_slots(
    ty: &str,
    proto_impls: &mut Vec<String>,
    implemented_proto_fragments: FragmentSet,
) -> (rest: FragmentSet)
    ensures
        final(proto_impls).deep_view() == old(proto_impls).deep_view() + merged_entries(
            ty@,
            implemented_proto_fragments@,
        ),
        rest@ == residue(implemented_proto_fragments@),
{
    let ghost given = implemented_proto_fragments@;
    let ghost before = proto_impls.deep_view();
    let mut fragments = implemented_proto_fragments;
    let mut i: usize = 0;
    proof {
        assert(names_before(0) =~= Set::<Seq<char>>::empty());
        assert(given.difference(names_before(0)) =~= given);
        assert(before + entries_of(ty@, merged_rules_before(given, 0)) =~= before);
    }
    while i < SLOT_PAIR_COUNT
        invariant
            i <= SLOT_PAIR_COUNT,
            fragments@ == given.difference(names_before(i as int)),
            proto_impls.deep_view() == before + entries_of(
                ty@,
                merged_rules_before(given, i as int),
            ),
        decreases SLOT_PAIR_COUNT - i,
    {
        let rule = SlotPairRule::nth(i);
        proof {
            lemma_names_distinct(rule, rule);
            assert forall|other: SlotPairRule| other.index() < i implies !other.names(rule.first())
                && !other.names(rule.second()) by {
                lemma_names_distinct(rule, other);
                lemma_names_distinct(other, rule);
            }
            assert forall|name: Seq<char>| #[trigger]
                names_before(i + 1).contains(name) == (names_before(i as int).contains(name)
                    || rule.names(name)) by {
                if names_before(i + 1).contains(name) {
                    let r = choose|r: SlotPairRule| r.index() < i + 1 && #[trigger] r.names(name);
                    assert(r.index() < i || r == rule);
                }
                if names_before(i as int).contains(name) {
                    let r = choose|r: SlotPairRule| r.index() < i && #[trigger] r.names(name);
                    assert(r.index() < i + 1 && r.names(name));
                }
                if rule.names(name) {
                    assert(rule.index() < i + 1 && rule.names(name));
                }
            }
        }
        let first_implemented = fragments.remove(rule.first_name());
        let second_implemented = fragments.remove(rule.second_name());
        proof {
            assert(first_implemented == given.contains(rule.first()));
            assert(second_implemented == given.contains(rule.second()));
            assert(fragments@ =~= given.difference(names_before(i + 1)));
        }
        if first_implemented || second_implemented {
            let ghost entries = proto_impls.deep_view();
            proto_impls.push(rule.slot_entry(ty));
            proof {
                let rules = merged_rules_before(given, i as int);
                assert(proto_impls.deep_view() == entries.push(rule.entry(ty@)));
                assert(entries_of(ty@, rules.push(rule)) =~= entries_of(ty@, rules).push(
                    rule.entry(ty@),
                ));
                assert((before + entries_of(ty@, rules)).push(rule.entry(ty@)) =~= before
                    + entries_of(ty@, rules.push(rule)));
            }
        }
        i += 1;
    }
    proof {
        assert forall|name: Seq<char>| #[trigger]
            names_before(SLOT_PAIR_COUNT as int).contains(name) == reserved_names().contains(
                name,
            ) by {
            if reserved_names().contains(name) {
                let r = choose|r: SlotPairRule| #[trigger] r.names(name);
                assert(r.index() < SLOT_PAIR_COUNT && r.names(name));
            }
        }
        assert(names_before(SLOT_PAIR_COUNT as int) =~= reserved_names());
    }
    fragments
}

/// Appends to `proto_impls` one shared slot for each pair of which
/// `implemented_proto_fragments` holds a name, in the order of the table.
///
/// Every fragment name must be a name of the table: the classifier gives no
/// other, and the merger has no slot for one.
pub fn add_shared_proto_slots(
    ty: &str,
    proto_impls: &mut Vec<String>,
    implemented_proto_fragments: FragmentSet,
)
    requires
        residue(implemented_proto_fragments@) == Set::<Seq<char>>::empty(),
    ensures
        final(proto_impls).deep_view() == old(proto_impls).deep_view() + merged_entries(
            ty@,
            implemented_proto_fragments@,
        ),
{
    let _rest = merge_shared_slots(ty, proto_impls, implemented_proto_fragments);
}


/// How many times `rule` stands in `rules`.
pub open spec fn occurrences(rules: Seq<SlotPairRule>, rule: SlotPairRule) -> nat
    decreases rules.len(),
{
    if rules.len() == 0 {
        0
    } else if rules.last() == rule {
        occurrences(rules.drop_last(), rule) + 1
    } else {
        occurrences(rules.drop_last(), rule)
    }
}

proof fn lemma_occurrences_before(fragments: Set<Seq<char>>, rule: SlotPairRule, k: int)
    requires
        0 <= k <= SLOT_PAIR_COUNT,
    ensures
        occurrences(merged_rules_before(fragments, k), rule) == if rule.index() < k
            && rule.touched(fragments) {
            1nat
        } else {
            0nat
        },
    decreases k,
{
    if k > 0 {
        lemma_occurrences_before(fragments, rule, k - 1);
        let earlier = merged_rules_before(fragments, k - 1);
        if SlotPairRule::at(k - 1).touched(fragments) {
            assert(earlier.push(SlotPairRule::at(k - 1)).drop_last() == earlier);
        }
    }
}

/// A class that defines the first name of a pair, the second, or both, gets
/// exactly one shared slot for that pair; a class that defines neither gets
/// none. Every shared slot has one entry in the table.
pub proof fn lemma_merge_complete(ty: Seq<char>, fragments: Set<Seq<char>>, rule: SlotPairRule)
    ensures
        occurrences(merged_rules(fragments), rule) == if rule.touched(fragments) {
            1nat
        } else {
            0nat
        },
        merged_entries(ty, fragments).len() == merged_rules(fragments).len(),
{
    lemma_occurrences_before(fragments, rule, SLOT_PAIR_COUNT as int);
}

proof fn lemma_untouched_before(fragments: Set<Seq<char>>, k: int)
    requires
        0 <= k <= SLOT_PAIR_COUNT,
        fragments.disjoint(reserved_names()),
    ensures
        merged_rules_before(fragments, k) == Seq::<SlotPairRule>::empty(),
    decreases k,
{
    if k > 0 {
        lemma_untouched_before(fragments, k - 1);
        let rule = SlotPairRule::at(k - 1);
        assert(rule.names(rule.first()) && rule.names(rule.second()));
        assert(reserved_names().contains(rule.first()));
        assert(reserved_names().contains(rule.second()));
    }
}

/// A class that defines none of the names of the table gets no shared slot:
/// the merger leaves the protocol table as it was.
pub proof fn lemma_merge_empty(ty: Seq<char>, fragments: Set<Seq<char>>)
    requires
        fragments.disjoint(reserved_names()),
    ensures
        merged_rules(fragments) == Seq::<SlotPairRule>::empty(),
        merged_entries(ty, fragments) == Seq::<Seq<char>>::empty(),
{
    lemma_untouched_before(fragments, SLOT_PAIR_COUNT as int);
    assert(entries_of(ty, Seq::<SlotPairRule>::empty()) =~= Seq::<Seq<char>>::empty());
}

/// Nothing is left over after the merge exactly when every fragment name is
/// a name of the table; a name that is not stays in the residue.
pub proof fn lemma_residue(fragments: Set<Seq<char>>)
    ensures
        residue(fragments) == Set::<Seq<char>>::empty() <==> fragments.subset_of(
            reserved_names(),
        ),
        forall|name: Seq<char>|
            fragments.contains(name) && !reserved_names().contains(name) ==> #[trigger] residue(
                fragments,
            ).contains(name),
{
    if fragments.subset_of(reserved_names()) {
        assert(residue(fragments) =~= Set::<Seq<char>>::empty());
    }
    if residue(fragments) == Set::<Seq<char>>::empty() {
        assert forall|name: Seq<char>| fragments.contains(name) implies reserved_names().contains(
            name,
        ) by {
            if !reserved_names().contains(name) {
                assert(residue(fragments).contains(name));
            }
        }
    }
}

} // verus!
