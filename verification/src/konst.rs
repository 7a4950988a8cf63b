//! Class attributes: a constant of the block that the runtime sees as an
//! attribute of the class, through an accessor that takes no argument.

use vstd::prelude::*;
use crate::member::{ConstAttributes, ConstAttributesView};

verus! {

/// Whether an identifier bears the prefix that marks it as raw.
pub open spec fn is_raw(ident: Seq<char>) -> bool {
    ident.len() >= 2 && ident[0] == 'r' && ident[1] == '#'
}

/// An identifier without the prefix that marks it as raw.
pub open spec fn unraw_text(ident: Seq<char>) -> Seq<char> {
    if is_raw(ident) {
        ident.subrange(2, ident.len() as int)
    } else {
        ident
    }
}

/// Whether `ident` is a raw identifier.
pub fn has_raw_prefix(ident: &str) -> (raw: bool)
    ensures
        raw == is_raw(ident@),
{
    ident.unicode_len() >= 2 && ident.get_char(0) == 'r' && ident.get_char(1) == '#'
}

/// Takes the prefix off a raw identifier.
pub fn unraw(ident: &str) -> (name: String)
    ensures
        name@ == unraw_text(ident@),
{
    if has_raw_prefix(ident) {
        String::from_str(ident.substring_char(2, ident.unicode_len()))
    } else {
        String::from_str(ident)
    }
}

/// How one character stands in a string literal.
pub open spec fn escaped_char(c: char) -> Seq<char> {
    if c == '"' {
        seq!['\\', '"']
    } else if c == '\\' {
        seq!['\\', '\\']
    } else if c == '\n' {
        seq!['\\', 'n']
    } else if c == '\r' {
        seq!['\\', 'r']
    } else if c == '\t' {
        seq!['\\', 't']
    } else if c == '\0' {
        seq!['\\', '0']
    } else {
        seq![c]
    }
}

/// How the characters of `value` stand in a string literal.
pub open spec fn escaped(value: Seq<char>) -> Seq<char>
    decreases value.len(),
{
    if value.len() == 0 {
        Seq::empty()
    } else {
        escaped(value.drop_last()) + escaped_char(value.last())
    }
}

/// The string literal whose value is `value`.
pub open spec fn string_literal_text(value: Seq<char>) -> Seq<char> {
    seq!['"'] + escaped(value) + seq!['"']
}

/// Writes the string literal whose value is `value`.
pub fn string_literal(value: &str) -> (literal: String)
    ensures
        literal@ == string_literal_text(value@),
{
    proof {
        reveal_strlit("\"");
    }
    let mut literal = String::from_str("\"");
    assert(literal@ =~= seq!['"'] + escaped(value@.take(0)));
    let n = value.unicode_len();
    let mut i: usize = 0;
    while i < n
        invariant
            i <= n,
            n == value@.len(),
            literal@ == seq!['"'] + escaped(value@.take(i as int)),
        decreases n - i,
    {
        proof {
            assert(value@.take(i + 1).drop_last() == value@.take(i as int));
            assert(value@.take(i + 1).last() == value@[i as int]);
        }
        let ghost before = escaped(value@.take(i as int));
        let c = value.get_char(i);
        if c == '"' {
            literal.append("\\\"");
            proof {
                reveal_strlit("\\\"");
            }
            assert("\\\""@ =~= escaped_char(c));
        } else if c == '\\' {
            literal.append("\\\\");
            proof {
                reveal_strlit("\\\\");
            }
            assert("\\\\"@ =~= escaped_char(c));
        } else if c == '\n' {
            literal.append("\\n");
            proof {
                reveal_strlit("\\n");
            }
            assert("\\n"@ =~= escaped_char(c));
        } else if c == '\r' {
            literal.append("\\r");
            proof {
                reveal_strlit("\\r");
            }
            assert("\\r"@ =~= escaped_char(c));
        } else if c == '\t' {
            literal.append("\\t");
            proof {
                reveal_strlit("\\t");
            }
            assert("\\t"@ =~= escaped_char(c));
        } else if c == '\0' {
            literal.append("\\0");
            proof {
                reveal_strlit("\\0");
            }
            assert("\\0"@ =~= escaped_char(c));
        } else {
            let one = value.substring_char(i, i + 1);
            assert(one@ =~= escaped_char(c));
            literal.append(one);
        }
        assert(literal@ == seq!['"'] + (before + escaped_char(c)));
        i += 1;
    }
    proof {
        assert(value@.take(n as int) == value@);
    }
    literal.append("\"");
    assert("\""@ =~= seq!['"']);
    literal
}

/// A constant that is marked as a class attribute.
#[derive(Debug, PartialEq, Eq)]
pub struct ConstSpec {
    pub rust_ident: String,
    pub attributes: ConstAttributes,
}

pub struct ConstSpecView {
    pub rust_ident: Seq<char>,
    pub attributes: ConstAttributesView,
}

impl View for ConstSpec {
    type V = ConstSpecView;

    open spec fn view(&self) -> ConstSpecView {
        ConstSpecView { rust_ident: self.rust_ident@, attributes: self.attributes@ }
    }
}

impl ConstSpecView {
    /// The name under which the runtime sees the constant: the declared one,
    /// or else the identifier.
    pub open spec fn python_name(self) -> Seq<char> {
        match self.attributes.name {
            Some(name) => name,
            None => unraw_text(self.rust_ident),
        }
    }

    /// The accessor descriptor of the constant in the class `cls`: an entry
    /// of the method table.
    pub open spec fn class_attribute(self, cls: Seq<char>) -> Seq<char> {
        "_pyo3::class::PyMethodDefType::ClassAttribute({ _pyo3::class::PyClassAttributeDef::new("@
            + string_literal_text(self.python_name() + "\0"@)
            + ", _pyo3::class::methods::PyClassAttributeFactory({ fn __wrap(py: _pyo3::Python<'_>) -> _pyo3::PyObject { "@
            + self.attributes.deprecations + " _pyo3::IntoPy::into_py("@ + cls + "::"@
            + self.rust_ident + ", py) } __wrap })) })"@
    }
}

impl ConstSpec {
    /// The name under which the runtime sees the constant.
    pub fn python_name(&self) -> (name: String)
        ensures
            name@ == self@.python_name(),
    {
        match &self.attributes.name {
            Some(name) => name.clone(),
            None => unraw(self.rust_ident.as_str()),
        }
    }
}

/// Writes the accessor descriptor of a class attribute of `cls`.
pub fn gen_py_const(cls: &str, spec: &ConstSpec) -> (code: String)
    ensures
        code@ == spec@.class_attribute(cls@),
{
    let mut python_name = spec.python_name();
    python_name.append("\0");
    let mut code = String::from_str(
        "_pyo3::class::PyMethodDefType::ClassAttribute({ _pyo3::class::PyClassAttributeDef::new(",
    );
    code.append(string_literal(python_name.as_str()).as_str());
    code.append(
        ", _pyo3::class::methods::PyClassAttributeFactory({ fn __wrap(py: _pyo3::Python<'_>) -> _pyo3::PyObject { ",
    );
    code.append(spec.attributes.deprecations.as_str());
    code.append(" _pyo3::IntoPy::into_py(");
    code.append(cls);
    code.append("::");
    code.append(spec.rust_ident.as_str());
    code.append(", py) } __wrap })) })");
    code
}

} // verus!
