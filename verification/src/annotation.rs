//! Annotations as the host parser hands them over: a name and the tokens of
//! the argument list.

use vstd::prelude::*;

verus! {

/// One token of an annotation's argument list.
#[derive(Clone, Debug, PartialEq, Eq)]
pub enum Token {
    /// An identifier that is no reserved word of the language.
    Ident(String),
    /// One punctuation character.
    Punct(char),
    /// A string literal, by its value.
    Str(String),
    /// Anything else.
    Other,
}

/// The mathematical value of a [`Token`].
pub enum TokenView {
    Ident(Seq<char>),
    Punct(char),
    Str(Seq<char>),
    Other,
}

impl View for Token {
    type V = TokenView;

    open spec fn view(&self) -> TokenView {
        match self {
            Token::Ident(word) => TokenView::Ident(word@),
            Token::Punct(sign) => TokenView::Punct(*sign),
            Token::Str(value) => TokenView::Str(value@),
            Token::Other => TokenView::Other,
        }
    }
}

/// An annotation on a type or on a field. `arguments` is `None` where the
/// name is not followed by exactly one delimited list.
#[derive(Clone, Debug, PartialEq, Eq)]
pub struct Annotation {
    pub name: String,
    pub arguments: Option<Vec<Token>>,
}

/// The mathematical value of an [`Annotation`].
pub struct AnnotationView {
    pub name: Seq<char>,
    pub arguments: Option<Seq<TokenView>>,
}

/// The values of a list of tokens.
pub open spec fn tokens_view(tokens: Seq<Token>) -> Seq<TokenView> {
    tokens.map_values(|token: Token| token@)
}

/// The values of a list of annotations.
pub open spec fn annotations_view(annotations: Seq<Annotation>) -> Seq<AnnotationView> {
    annotations.map_values(|annotation: Annotation| annotation@)
}

impl View for Annotation {
    type V = AnnotationView;

    open spec fn view(&self) -> AnnotationView {
        AnnotationView {
            name: self.name@,
            arguments: match self.arguments {
                Some(tokens) => Some(tokens_view(tokens@)),
                None => None,
            },
        }
    }
}

/// The name of the annotations that this crate reads.
pub open spec fn freeze_word() -> Seq<char> {
    "freeze"@
}

/// Whether a text is the given word.
pub fn is_word(text: &String, word: &str) -> (r: bool)
    ensures
        r == (text@ == word@),
{
    let owned = word.to_owned();
    *text == owned
}

} // verus!
