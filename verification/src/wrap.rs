//! References to the wrappers that are generated for functions and modules.
//!
//! The wrapper of a function, and the definition of a module, stand beside
//! the item under a name that is derived from the item's own. A path to the
//! item becomes a path to the wrapper when its last segment is renamed.

use vstd::prelude::*;
use crate::error::{UserConfigError, UserConfigErrorView};
use crate::konst::{has_raw_prefix, is_raw, unraw, unraw_text};
use crate::syntax::Span;
use crate::text::{join, joined};

verus! {

/// One segment of a path: an identifier, and the generic arguments that
/// follow it as they are written, if any do.
#[derive(Debug, PartialEq, Eq)]
pub struct PathSegment {
    pub ident: String,
    pub arguments: String,
}

pub struct PathSegmentView {
    pub ident: Seq<char>,
    pub arguments: Seq<char>,
}

impl View for PathSegment {
    type V = PathSegmentView;

    open spec fn view(&self) -> PathSegmentView {
        PathSegmentView { ident: self.ident@, arguments: self.arguments@ }
    }
}

impl DeepView for PathSegment {
    type V = PathSegmentView;

    open spec fn deep_view(&self) -> PathSegmentView {
        self@
    }
}

/// A path to an item.
#[derive(Debug, PartialEq, Eq)]
pub struct Path {
    pub span: Span,
    pub leading_colon: bool,
    pub segments: Vec<PathSegment>,
}

pub struct PathView {
    pub span: Span,
    pub leading_colon: bool,
    pub segments: Seq<PathSegmentView>,
}

impl View for Path {
    type V = PathView;

    open spec fn view(&self) -> PathView {
        PathView {
            span: self.span,
            leading_colon: self.leading_colon,
            segments: self.segments.deep_view(),
        }
    }
}

impl PathView {
    /// The path as it is written.
    pub open spec fn text(self) -> Seq<char> {
        (if self.leading_colon {
            "::"@
        } else {
            ""@
        }) + joined(
            Seq::new(self.segments.len(), |i: int| self.segments[i].ident + self.segments[i].arguments),
            "::"@,
        )
    }

    /// The path with the identifier of its last segment replaced.
    pub open spec fn with_last_ident(self, ident: Seq<char>) -> PathView
        recommends
            self.segments.len() > 0,
    {
        PathView {
            segments: self.segments.update(
                self.segments.len() - 1,
                PathSegmentView { ident, ..self.segments.last() },
            ),
            ..self
        }
    }
}

impl Path {
    /// Writes the path out.
    pub fn to_text(&self) -> (text: String)
        ensures
            text@ == self@.text(),
    {
        let mut pieces: Vec<String> = Vec::new();
        let mut i: usize = 0;
        while i < self.segments.len()
            invariant
                i <= self.segments.len(),
                pieces.deep_view() == Seq::new(
                    i as nat,
                    |j: int| self@.segments[j].ident + self@.segments[j].arguments,
                ),
            decreases self.segments.len() - i,
        {
            let ghost earlier = pieces.deep_view();
            let mut piece = self.segments[i].ident.clone();
            piece.append(self.segments[i].arguments.as_str());
            pieces.push(piece);
            assert(pieces.deep_view() == earlier.push(piece@));
            assert(self@.segments[i as int] == self.segments[i as int]@);
            assert(pieces.deep_view() =~= Seq::new(
                (i + 1) as nat,
                |j: int| self@.segments[j].ident + self@.segments[j].arguments,
            ));
            i += 1;
        }
        let mut text = String::from_str(if self.leading_colon {
            "::"
        } else {
            ""
        });
        text.append(join(&pieces, "::").as_str());
        text
    }
}

/// The arguments of a reference to a function's wrapper: the path of the
/// function and, where one is given, the expression to hand to the wrapper.
#[derive(Debug, PartialEq, Eq)]
pub struct WrapPyFunctionArgs {
    pub function: Path,
    pub comma_and_arg: Option<String>,
}

/// The name of the wrapper of the function `name`.
pub open spec fn function_wrapper_name(name: Seq<char>) -> Seq<char> {
    "__pyo3_get_function_"@ + unraw_text(name)
}

/// The upper-case form of a text, as `str::to_uppercase` gives it.
pub uninterp spec fn uppercase(text: Seq<char>) -> Seq<char>;

/// The name of the definition of the module `name`.
pub open spec fn module_def_name(name: Seq<char>) -> Seq<char> {
    "__PYO3_PYMODULE_DEF_"@ + uppercase(name)
}

/// The error for a path without a segment: it points at the path.
pub open spec fn empty_path(span: Span) -> UserConfigErrorView {
    UserConfigErrorView { span, message: "expected non-empty path"@ }
}

/// The reference to the wrapper of the function at `function`: a call of the
/// wrapper on `arg` where an argument is given, a closure that calls it
/// otherwise.
pub open spec fn wrapped_function_text(function: PathView, arg: Option<Seq<char>>) -> Seq<char> {
    let wrapper = function.with_last_ident(function_wrapper_name(function.segments.last().ident));
    match arg {
        Some(arg) => wrapper.text() + "("@ + arg + ")"@,
        None => "&|arg| "@ + wrapper.text() + "(arg)"@,
    }
}

/// The reference to the module at `module`: a closure that makes the
/// module from its definition.
pub open spec fn wrapped_module_text(module: PathView) -> Seq<char> {
    "&|py| unsafe { "@ + module.with_last_ident(
        module_def_name(module.segments.last().ident),
    ).text() + ".make_module(py).expect(\"failed to wrap pymodule\") }"@
}

/// `str::to_uppercase` of the standard library, which maps each character by
/// the Unicode tables that the library is built with, whatever the locale:
/// the result is a function of the text.
#[verifier::external_body]
fn to_uppercase(text: &str) -> (upper: String)
    ensures
        upper@ == uppercase(text@),
{
    text.to_uppercase()
}

/// The name of the wrapper of the function `name`. A raw identifier gives
/// the name that the plain one gives.
pub fn function_wrapper_ident(name: &str) -> (ident: String)
    ensures
        ident@ == function_wrapper_name(name@),
{
    let mut ident = String::from_str("__pyo3_get_function_");
    ident.append(unraw(name).as_str());
    ident
}

/// The name of the definition of the module `name`.
///
/// A raw identifier has no upper-case form that is an identifier, so `name`
/// must not be one.
pub fn module_def_ident(name: &str) -> (ident: String)
    requires
        !is_raw(name@),
    ensures
        ident@ == module_def_name(name@),
{
    let mut ident = String::from_str("__PYO3_PYMODULE_DEF_");
    ident.append(to_uppercase(name).as_str());
    ident
}

/// Replaces the identifier of the last segment of `path`.
fn rename_last(path: &mut Path, ident: String)
    requires
        old(path)@.segments.len() > 0,
    ensures
        final(path)@ == old(path)@.with_last_ident(ident@),
{
    let last = path.segments.len() - 1;
    let ghost before = path.segments.deep_view();
    let segment = &mut path.segments[last];
    segment.ident = ident;
    assert(path.segments.deep_view() =~= before.update(
        last as int,
        PathSegmentView { ident: ident@, ..before.last() },
    ));
}

/// Writes the reference to the wrapper of a function.
pub fn wrap_pyfunction_impl(args: WrapPyFunctionArgs) -> (wrapped: Result<String, UserConfigError>)
    ensures
        match wrapped {
            Ok(code) => args.function@.segments.len() > 0 && code@ == wrapped_function_text(
                args.function@,
                args.comma_and_arg.deep_view(),
            ),
            Err(error) => args.function@.segments.len() == 0 && error@ == empty_path(
                args.function.span,
            ),
        },
{
    let WrapPyFunctionArgs { mut function, comma_and_arg } = args;
    let span = function.span;
    if function.segments.len() == 0 {
        return Err(UserConfigError::new(span, "expected non-empty path"));
    }
    let last = function.segments.len() - 1;
    let ident = function_wrapper_ident(function.segments[last].ident.as_str());
    assert(function.segments[last as int]@ == function@.segments.last());
    rename_last(&mut function, ident);
    let output = if let Some(arg) = comma_and_arg {
        let mut output = function.to_text();
        output.append("(");
        output.append(arg.as_str());
        output.append(")");
        output
    } else {
        let mut output = String::from_str("&|arg| ");
        output.append(function.to_text().as_str());
        output.append("(arg)");
        output
    };
    Ok(output)
}

/// Writes the reference to a module.
///
/// The last segment of the path must not be a raw identifier.
pub fn wrap_pymodule_impl(module: Path) -> (wrapped: Result<String, UserConfigError>)
    requires
        module@.segments.len() > 0 ==> !is_raw(module@.segments.last().ident),
    ensures
        match wrapped {
            Ok(code) => module@.segments.len() > 0 && code@ == wrapped_module_text(
                module@,
            ),
            Err(error) => module@.segments.len() == 0 && error@ == empty_path(
                module.span,
            ),
        },
{
    let mut module = module;
    let span = module.span;
    if module.segments.len() == 0 {
        return Err(UserConfigError::new(span, "expected non-empty path"));
    }
    let last = module.segments.len() - 1;
    assert(module.segments[last as int]@ == module@.segments.last());
    let ident = module_def_ident(module.segments[last].ident.as_str());
    rename_last(&mut module, ident);
    let mut output = String::from_str("&|py| unsafe { ");
    output.append(module.to_text().as_str());
    output.append(".make_module(py).expect(\"failed to wrap pymodule\") }");
    Ok(output)
}

/// Writes the reference to a module, unless the last segment of its path is
/// a raw identifier: then there is no name for the module's definition, and
/// nothing is written.
pub fn try_wrap_pymodule_impl(module: Path) -> (wrapped: Option<
    Result<String, UserConfigError>,
>)
    ensures
        match wrapped {
            None => module@.segments.len() > 0 && is_raw(module@.segments.last().ident),
            Some(Ok(code)) => module@.segments.len() > 0 && !is_raw(
                module@.segments.last().ident,
            ) && code@ == wrapped_module_text(module@),
            Some(Err(error)) => module@.segments.len() == 0 && error@ == empty_path(
                module.span,
            ),
        },
{
    let n = module.segments.len();
    if n > 0 {
        assert(module.segments[n - 1]@ == module@.segments.last());
        if has_raw_prefix(module.segments[n - 1].ident.as_str()) {
            return None;
        }
    }
    Some(wrap_pymodule_impl(module))
}

} // verus!
