//! Diagnostics with which generation is abandoned.

use vstd::prelude::*;

verus! {

/// The options that an annotation on a type may set.
#[derive(Clone, Copy, Debug, PartialEq, Eq, Structural)]
pub enum OptionKey {
    Validator,
    Bounds,
}

/// What the annotation grammar wanted at the place where it gave up.
#[derive(Clone, Copy, Debug, PartialEq, Eq, Structural)]
pub enum Expectation {
    /// A delimited argument list after the annotation's name.
    Arguments,
    /// One of the keywords `validator` and `bounds`.
    Keyword,
    /// The sign `=`.
    Assign,
    /// An identifier.
    Identifier,
    /// A string literal.
    StringLiteral,
    /// The end of the argument list.
    End,
}

/// Why no implementation was generated.
#[derive(Clone, Debug, PartialEq, Eq)]
pub enum GenerationError {
    /// The declaration is an enum.
    EnumShape,
    /// The declaration is a union.
    UnionShape,
    /// The declaration has a const generic parameter.
    ConstGeneric,
    /// An option was set a second time.
    SetTwice(OptionKey),
    /// An annotation does not follow the grammar. `annotation` counts the
    /// annotations of the item, `position` the tokens of its argument list;
    /// a position equal to the number of tokens is the end of the list.
    Malformed { annotation: usize, position: usize, expected: Expectation },
    /// The text given to `bounds` is no where-predicate; `message` is what
    /// the parser said against it.
    InvalidBounds { annotation: usize, position: usize, message: String },
    /// The text given to `bounds` has to be parsed, and the caller brought
    /// no answer of the parser for it.
    BoundsUnread { annotation: usize, position: usize, text: String },
}

/// The mathematical value of a [`GenerationError`].
pub enum GenerationErrorView {
    EnumShape,
    UnionShape,
    ConstGeneric,
    SetTwice(OptionKey),
    Malformed { annotation: int, position: int, expected: Expectation },
    InvalidBounds { annotation: int, position: int, message: Seq<char> },
    BoundsUnread { annotation: int, position: int, text: Seq<char> },
}

impl View for GenerationError {
    type V = GenerationErrorView;

    open spec fn view(&self) -> GenerationErrorView {
        match self {
            GenerationError::EnumShape => GenerationErrorView::EnumShape,
            GenerationError::UnionShape => GenerationErrorView::UnionShape,
            GenerationError::ConstGeneric => GenerationErrorView::ConstGeneric,
            GenerationError::SetTwice(key) => GenerationErrorView::SetTwice(*key),
            GenerationError::Malformed { annotation, position, expected } => GenerationErrorView::Malformed {
                annotation: *annotation as int,
                position: *position as int,
                expected: *expected,
            },
            GenerationError::InvalidBounds { annotation, position, message } => GenerationErrorView::InvalidBounds {
                annotation: *annotation as int,
                position: *position as int,
                message: message@,
            },
            GenerationError::BoundsUnread { annotation, position, text } => GenerationErrorView::BoundsUnread {
                annotation: *annotation as int,
                position: *position as int,
                text: text@,
            },
        }
    }
}

/// The keyword that names an option.
pub open spec fn key_word(key: OptionKey) -> Seq<char> {
    match key {
        OptionKey::Validator => "validator"@,
        OptionKey::Bounds => "bounds"@,
    }
}

/// The text that says what was expected.
pub open spec fn expectation_text(expected: Expectation) -> Seq<char> {
    match expected {
        Expectation::Arguments => "expected attribute arguments in parentheses"@,
        Expectation::Keyword => "expected `validator` or `bounds`"@,
        Expectation::Assign => "expected `=`"@,
        Expectation::Identifier => "expected identifier"@,
        Expectation::StringLiteral => "expected string literal"@,
        Expectation::End => "unexpected token"@,
    }
}

/// The message of an error.
pub open spec fn message_text(error: GenerationErrorView) -> Seq<char> {
    match error {
        GenerationErrorView::EnumShape => "cannot derive for enums"@,
        GenerationErrorView::UnionShape => "cannot derive for unions"@,
        GenerationErrorView::ConstGeneric => "const generics not supported"@,
        GenerationErrorView::SetTwice(key) => "set "@ + key_word(key) + " twice"@,
        GenerationErrorView::Malformed { expected, .. } => expectation_text(expected),
        GenerationErrorView::InvalidBounds { message, .. } => message,
        GenerationErrorView::BoundsUnread { .. } => "the text given to `bounds` was not parsed"@,
    }
}

impl OptionKey {
    /// The keyword that names this option.
    pub fn word(&self) -> (r: &'static str)
        ensures
            r@ == key_word(*self),
    {
        match self {
            OptionKey::Validator => "validator",
            OptionKey::Bounds => "bounds",
        }
    }
}

impl Expectation {
    /// The text that says what was expected.
    pub fn text(&self) -> (r: &'static str)
        ensures
            r@ == expectation_text(*self),
    {
        match self {
            Expectation::Arguments => "expected attribute arguments in parentheses",
            Expectation::Keyword => "expected `validator` or `bounds`",
            Expectation::Assign => "expected `=`",
            Expectation::Identifier => "expected identifier",
            Expectation::StringLiteral => "expected string literal",
            Expectation::End => "unexpected token",
        }
    }
}

impl GenerationError {
    /// The message with which generation is abandoned.
    pub fn message(&self) -> (r: String)
        ensures
            r@ == message_text(self@),
    {
        match self {
            GenerationError::EnumShape => "cannot derive for enums".to_owned(),
            GenerationError::UnionShape => "cannot derive for unions".to_owned(),
            GenerationError::ConstGeneric => "const generics not supported".to_owned(),
            GenerationError::SetTwice(key) => {
                let mut text = "set ".to_owned();
                text.append(key.word());
                text.append(" twice");
                text
            },
            GenerationError::Malformed { expected, .. } => expected.text().to_owned(),
            GenerationError::InvalidBounds { message, .. } => message.clone(),
            GenerationError::BoundsUnread { .. } => "the text given to `bounds` was not parsed".to_owned(),
        }
    }
}

} // verus!
