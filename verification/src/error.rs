//! The two kinds of failure: a block that its author must correct, and a
//! defect of the generator itself.

use vstd::prelude::*;
use crate::syntax::Span;

verus! {

/// A block or a configuration that the generator does not accept, with the
/// place in the source that is at fault.
#[derive(Debug, PartialEq, Eq)]
pub struct UserConfigError {
    pub span: Span,
    pub message: String,
}

pub struct UserConfigErrorView {
    pub span: Span,
    pub message: Seq<char>,
}

impl View for UserConfigError {
    type V = UserConfigErrorView;

    open spec fn view(&self) -> UserConfigErrorView {
        UserConfigErrorView { span: self.span, message: self.message@ }
    }
}

impl DeepView for UserConfigError {
    type V = UserConfigErrorView;

    open spec fn deep_view(&self) -> UserConfigErrorView {
        self@
    }
}

impl UserConfigError {
    pub fn new(span: Span, message: &str) -> (error: UserConfigError)
        ensures
            error@ == (UserConfigErrorView { span, message: message@ }),
    {
        UserConfigError { span, message: String::from_str(message) }
    }
}

/// A state that the generator cannot be in unless the classifier and the
/// table of slot pairs disagree. It is fatal: there is nothing for the
/// author of a block to correct.
#[derive(Clone, Copy, Debug, PartialEq, Eq, Structural)]
pub enum InternalConsistencyError {
    /// A fragment bears a name that no pair of the table accounts for.
    UnknownFragment,
    /// A built-in slot was given as a fragment.
    FragmentDefault,
    /// A built-in slot was given as an ordinary method or a trait
    /// implementation.
    NonProtocolDefault,
}

impl InternalConsistencyError {
    pub open spec fn message_text(self) -> Seq<char> {
        match self {
            InternalConsistencyError::UnknownFragment => "a slot fragment was left unmerged"@,
            InternalConsistencyError::FragmentDefault => "SlotFragment methods cannot have default implementation!"@,
            InternalConsistencyError::NonProtocolDefault => "Only protocol methods can have default implementation!"@,
        }
    }

    /// The words to abort with.
    pub fn message(&self) -> (text: String)
        ensures
            text@ == self.message_text(),
    {
        match self {
            InternalConsistencyError::UnknownFragment => String::from_str(
                "a slot fragment was left unmerged",
            ),
            InternalConsistencyError::FragmentDefault => String::from_str(
                "SlotFragment methods cannot have default implementation!",
            ),
            InternalConsistencyError::NonProtocolDefault => String::from_str(
                "Only protocol methods can have default implementation!",
            ),
        }
    }
}

/// Why no code was generated for a block.
#[derive(Debug, PartialEq, Eq)]
pub enum PyImplError {
    UserConfig(UserConfigError),
    InternalConsistency(InternalConsistencyError),
}

pub enum PyImplErrorView {
    UserConfig(UserConfigErrorView),
    InternalConsistency(InternalConsistencyError),
}

impl View for PyImplError {
    type V = PyImplErrorView;

    open spec fn view(&self) -> PyImplErrorView {
        match self {
            PyImplError::UserConfig(e) => PyImplErrorView::UserConfig(e@),
            PyImplError::InternalConsistency(e) => PyImplErrorView::InternalConsistency(*e),
        }
    }
}

} // verus!
