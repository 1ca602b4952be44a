//! The annotation grammar: the options of a type and the identity mark of a
//! field.

use vstd::prelude::*;
use crate::annotation::{annotations_view, freeze_word, is_word, tokens_view, Annotation, AnnotationView, Token, TokenView};
use crate::error::{Expectation, GenerationError, GenerationErrorView, OptionKey};

verus! {

/// What the annotations of a type configure.
#[derive(Clone, Debug, PartialEq, Eq)]
pub struct FreezeOptions {
    /// The procedure that checks a value before any field is frozen.
    pub validator: Option<String>,
    /// The where-predicate that replaces the bounds added per type
    /// parameter, as the parser read it.
    pub bounds: Option<String>,
}

/// The mathematical value of a [`FreezeOptions`].
pub struct FreezeOptionsView {
    pub validator: Option<Seq<char>>,
    pub bounds: Option<Seq<char>>,
}

/// The value of a text that may be absent.
pub open spec fn optional_text(text: Option<String>) -> Option<Seq<char>> {
    match text {
        Some(text) => Some(text@),
        None => None,
    }
}

impl View for FreezeOptions {
    type V = FreezeOptionsView;

    open spec fn view(&self) -> FreezeOptionsView {
        FreezeOptionsView { validator: optional_text(self.validator), bounds: optional_text(self.bounds) }
    }
}

/// The options of a type without annotations.
pub open spec fn no_options() -> FreezeOptionsView {
    FreezeOptionsView { validator: None, bounds: None }
}

/// What the parser of the host language says of a text given to `bounds`.
/// The parser is the caller's: this crate reads no predicate itself.
#[derive(Debug, PartialEq, Eq)]
pub struct PredicateAnswer {
    /// The text that was parsed.
    pub text: String,
    /// The predicate as the parser read it, or what the parser said against
    /// the text.
    pub reading: Result<String, String>,
}

/// The mathematical value of a [`PredicateAnswer`].
pub struct PredicateAnswerView {
    pub text: Seq<char>,
    pub reading: Result<Seq<char>, Seq<char>>,
}

impl View for PredicateAnswer {
    type V = PredicateAnswerView;

    open spec fn view(&self) -> PredicateAnswerView {
        PredicateAnswerView {
            text: self.text@,
            reading: match self.reading {
                Ok(predicate) => Ok(predicate@),
                Err(message) => Err(message@),
            },
        }
    }
}

/// The value of an answer that may be absent.
pub open spec fn optional_answer(answer: Option<PredicateAnswer>) -> Option<PredicateAnswerView> {
    match answer {
        Some(answer) => Some(answer@),
        None => None,
    }
}

/// The error of an annotation that leaves the grammar.
pub open spec fn malformed(annotation: int, position: int, expected: Expectation) -> GenerationErrorView {
    GenerationErrorView::Malformed { annotation, position, expected }
}

/// Whether the token at `position` is the identifier `word`.
pub open spec fn word_at(tokens: Seq<TokenView>, position: int, word: Seq<char>) -> bool {
    0 <= position < tokens.len() && tokens[position] == TokenView::Ident(word)
}

/// Whether the token at `position` is the punctuation character `sign`.
pub open spec fn punct_at(tokens: Seq<TokenView>, position: int, sign: char) -> bool {
    0 <= position < tokens.len() && tokens[position] == TokenView::Punct(sign)
}

/// Whether the token at `position` is an identifier.
pub open spec fn ident_at(tokens: Seq<TokenView>, position: int) -> bool {
    0 <= position < tokens.len() && tokens[position] is Ident
}

/// Whether the token at `position` is a string literal.
pub open spec fn str_at(tokens: Seq<TokenView>, position: int) -> bool {
    0 <= position < tokens.len() && tokens[position] is Str
}

/// The options after `bounds` was given `text`. Where the answer is one for
/// this text, the predicate that the parser read becomes the option, or the
/// parser's message the error; without such an answer the text is unread.
pub open spec fn accepted_bounds(
    options: FreezeOptionsView,
    text: Seq<char>,
    answer: Option<PredicateAnswerView>,
    annotation: int,
    position: int,
) -> Result<FreezeOptionsView, GenerationErrorView> {
    if answer is Some && answer->0.text == text {
        match answer->0.reading {
            Ok(predicate) => Ok(FreezeOptionsView { validator: options.validator, bounds: Some(predicate) }),
            Err(message) => Err(GenerationErrorView::InvalidBounds { annotation, position, message }),
        }
    } else {
        Err(GenerationErrorView::BoundsUnread { annotation, position, text })
    }
}

/// One entry of an option list, read at `position`: `validator = <identifier>`
/// or `bounds = <string literal>`. Gives the position behind the entry and the
/// options with the entry added. The parser's answer is looked at only where
/// `bounds` is set for the first time.
pub open spec fn entry_at(
    tokens: Seq<TokenView>,
    position: int,
    options: FreezeOptionsView,
    annotation: int,
    answer: Option<PredicateAnswerView>,
) -> Result<(int, FreezeOptionsView), GenerationErrorView> {
    if word_at(tokens, position, "validator"@) {
        if !punct_at(tokens, position + 1, '=') {
            Err(malformed(annotation, position + 1, Expectation::Assign))
        } else if options.validator is Some {
            Err(GenerationErrorView::SetTwice(OptionKey::Validator))
        } else if !ident_at(tokens, position + 2) {
            Err(malformed(annotation, position + 2, Expectation::Identifier))
        } else {
            Ok(
                (
                    position + 3,
                    FreezeOptionsView {
                        validator: Some(tokens[position + 2]->Ident_0),
                        bounds: options.bounds,
                    },
                ),
            )
        }
    } else if word_at(tokens, position, "bounds"@) {
        if !punct_at(tokens, position + 1, '=') {
            Err(malformed(annotation, position + 1, Expectation::Assign))
        } else if !str_at(tokens, position + 2) {
            Err(malformed(annotation, position + 2, Expectation::StringLiteral))
        } else if options.bounds is Some {
            Err(GenerationErrorView::SetTwice(OptionKey::Bounds))
        } else {
            let text = tokens[position + 2]->Str_0;
            match accepted_bounds(options, text, answer, annotation, position + 2) {
                Ok(next) => Ok((position + 3, next)),
                Err(error) => Err(error),
            }
        }
    } else {
        Err(malformed(annotation, position, Expectation::Keyword))
    }
}

/// The entries of an option list from `position` on: entries separated by
/// commas, the last one followed by nothing.
pub open spec fn entries_from(
    tokens: Seq<TokenView>,
    position: int,
    options: FreezeOptionsView,
    annotation: int,
    answer: Option<PredicateAnswerView>,
) -> Result<FreezeOptionsView, GenerationErrorView>
    decreases tokens.len() - position,
{
    match entry_at(tokens, position, options, annotation, answer) {
        Err(error) => Err(error),
        Ok((next, added)) => {
            if next >= tokens.len() {
                Ok(added)
            } else if tokens[next] == TokenView::Punct(',') {
                entries_from(tokens, next + 1, added, annotation, answer)
            } else {
                Err(malformed(annotation, next, Expectation::End))
            }
        },
    }
}

/// The options that the annotations from `start` on add to `options`. Only
/// annotations named `freeze` are read.
pub open spec fn options_from(
    annotations: Seq<AnnotationView>,
    start: int,
    options: FreezeOptionsView,
    answer: Option<PredicateAnswerView>,
) -> Result<FreezeOptionsView, GenerationErrorView>
    decreases annotations.len() - start,
{
    if start < 0 || start >= annotations.len() {
        Ok(options)
    } else if annotations[start].name != freeze_word() {
        options_from(annotations, start + 1, options, answer)
    } else {
        match annotations[start].arguments {
            None => Err(malformed(start, 0, Expectation::Arguments)),
            Some(tokens) => match entries_from(tokens, 0, options, start, answer) {
                Err(error) => Err(error),
                Ok(added) => options_from(annotations, start + 1, added, answer),
            },
        }
    }
}

/// The options that the annotations of a type configure, given what the
/// parser answered.
pub open spec fn declared_options(
    annotations: Seq<AnnotationView>,
    answer: Option<PredicateAnswerView>,
) -> Result<FreezeOptionsView, GenerationErrorView> {
    options_from(annotations, 0, no_options(), answer)
}

/// The text that the parser has to be asked about before the annotations of
/// a type can be read to their end: the first text given to `bounds` that
/// the reading comes to.
pub open spec fn question(annotations: Seq<AnnotationView>) -> Option<Seq<char>> {
    match declared_options(annotations, None) {
        Err(GenerationErrorView::BoundsUnread { text, .. }) => Some(text),
        _ => None,
    }
}

/// What one argument list says of the identity mark: nothing, the mark, or
/// something that the grammar does not know.
pub open spec fn identity_in(tokens: Seq<TokenView>, annotation: int) -> Result<
    bool,
    GenerationErrorView,
> {
    if tokens.len() == 0 {
        Ok(false)
    } else if tokens[0] != TokenView::Ident("identity"@) {
        Err(malformed(annotation, 0, Expectation::End))
    } else if tokens.len() > 1 {
        Err(malformed(annotation, 1, Expectation::End))
    } else {
        Ok(true)
    }
}

/// Whether the annotations from `start` on mark a field as identity. The
/// first mark decides; what follows it is not read.
pub open spec fn identity_from(annotations: Seq<AnnotationView>, start: int) -> Result<
    bool,
    GenerationErrorView,
>
    decreases annotations.len() - start,
{
    if start < 0 || start >= annotations.len() {
        Ok(false)
    } else if annotations[start].name != freeze_word() {
        identity_from(annotations, start + 1)
    } else {
        match annotations[start].arguments {
            None => Err(malformed(start, 0, Expectation::Arguments)),
            Some(tokens) => match identity_in(tokens, start) {
                Err(error) => Err(error),
                Ok(true) => Ok(true),
                Ok(false) => identity_from(annotations, start + 1),
            },
        }
    }
}

/// Whether the annotations of a field mark it as identity.
pub open spec fn marked_identity(annotations: Seq<AnnotationView>) -> Result<
    bool,
    GenerationErrorView,
> {
    identity_from(annotations, 0)
}

impl FreezeOptions {
    /// The options of a type without annotations.
    pub fn new() -> (r: FreezeOptions)
        ensures
            r@ == no_options(),
    {
        FreezeOptions { validator: None, bounds: None }
    }

    /// Sets `bounds` from the text given to it and the parser's answer.
    pub fn accept_bounds(
        self,
        text: &String,
        answer: &Option<PredicateAnswer>,
        annotation: usize,
        position: usize,
    ) -> (r: Result<FreezeOptions, GenerationError>)
        ensures
            match r {
                Ok(next) => accepted_bounds(
                    self@,
                    text@,
                    optional_answer(*answer),
                    annotation as int,
                    position as int,
                ) == Ok::<FreezeOptionsView, GenerationErrorView>(next@),
                Err(error) => accepted_bounds(
                    self@,
                    text@,
                    optional_answer(*answer),
                    annotation as int,
                    position as int,
                ) == Err::<FreezeOptionsView, GenerationErrorView>(error@),
            },
    {
        match answer {
            Some(given) => {
                if given.text == *text {
                    return match &given.reading {
                        Ok(predicate) => Ok(
                            FreezeOptions { validator: self.validator, bounds: Some(predicate.clone()) },
                        ),
                        Err(message) => Err(
                            GenerationError::InvalidBounds { annotation, position, message: message.clone() },
                        ),
                    };
                }
            },
            None => {},
        }
        Err(GenerationError::BoundsUnread { annotation, position, text: text.clone() })
    }
}

/// Whether the token at `position` is the identifier `word`.
fn has_word(tokens: &Vec<Token>, position: usize, word: &str) -> (r: bool)
    ensures
        r == word_at(tokens_view(tokens@), position as int, word@),
{
    if position < tokens.len() {
        match &tokens[position] {
            Token::Ident(found) => is_word(found, word),
            _ => false,
        }
    } else {
        false
    }
}

/// Whether the token at `position` is the punctuation character `sign`.
fn has_punct(tokens: &Vec<Token>, position: usize, sign: char) -> (r: bool)
    ensures
        r == punct_at(tokens_view(tokens@), position as int, sign),
{
    if position < tokens.len() {
        match &tokens[position] {
            Token::Punct(found) => *found == sign,
            _ => false,
        }
    } else {
        false
    }
}

/// Reads one entry of an option list at `position`.
fn read_entry(
    tokens: &Vec<Token>,
    position: usize,
    options: FreezeOptions,
    annotation: usize,
    answer: &Option<PredicateAnswer>,
) -> (r: Result<(usize, FreezeOptions), GenerationError>)
    ensures
        match r {
            Ok((next, added)) => entry_at(
                tokens_view(tokens@),
                position as int,
                options@,
                annotation as int,
                optional_answer(*answer),
            ) == Ok::<(int, FreezeOptionsView), GenerationErrorView>((next as int, added@)),
            Err(error) => entry_at(
                tokens_view(tokens@),
                position as int,
                options@,
                annotation as int,
                optional_answer(*answer),
            ) == Err::<(int, FreezeOptionsView), GenerationErrorView>(error@),
        },
{
    let count = tokens.len();
    if has_word(tokens, position, "validator") {
        if !has_punct(tokens, position + 1, '=') {
            return Err(
                GenerationError::Malformed {
                    annotation,
                    position: position + 1,
                    expected: Expectation::Assign,
                },
            );
        }
        if options.validator.is_some() {
            return Err(GenerationError::SetTwice(OptionKey::Validator));
        }
        if position + 2 < count {
            if let Token::Ident(name) = &tokens[position + 2] {
                return Ok(
                    (position + 3, FreezeOptions { validator: Some(name.clone()), bounds: options.bounds }),
                );
            }
        }
        Err(
            GenerationError::Malformed {
                annotation,
                position: position + 2,
                expected: Expectation::Identifier,
            },
        )
    } else if has_word(tokens, position, "bounds") {
        if !has_punct(tokens, position + 1, '=') {
            return Err(
                GenerationError::Malformed {
                    annotation,
                    position: position + 1,
                    expected: Expectation::Assign,
                },
            );
        }
        if position + 2 < count {
            if let Token::Str(text) = &tokens[position + 2] {
                if options.bounds.is_some() {
                    return Err(GenerationError::SetTwice(OptionKey::Bounds));
                }
                return match options.accept_bounds(text, answer, annotation, position + 2) {
                    Ok(added) => Ok((position + 3, added)),
                    Err(error) => Err(error),
                };
            }
        }
        Err(
            GenerationError::Malformed {
                annotation,
                position: position + 2,
                expected: Expectation::StringLiteral,
            },
        )
    } else {
        Err(GenerationError::Malformed { annotation, position, expected: Expectation::Keyword })
    }
}

/// Reads the option list of one annotation and adds its entries to `options`.
fn read_entries(
    tokens: &Vec<Token>,
    options: FreezeOptions,
    annotation: usize,
    answer: &Option<PredicateAnswer>,
) -> (r: Result<FreezeOptions, GenerationError>)
    ensures
        match r {
            Ok(added) => entries_from(
                tokens_view(tokens@),
                0,
                options@,
                annotation as int,
                optional_answer(*answer),
            ) == Ok::<FreezeOptionsView, GenerationErrorView>(added@),
            Err(error) => entries_from(
                tokens_view(tokens@),
                0,
                options@,
                annotation as int,
                optional_answer(*answer),
            ) == Err::<FreezeOptionsView, GenerationErrorView>(error@),
        },
{
    let ghost list = tokens_view(tokens@);
    let ghost given = optional_answer(*answer);
    let ghost whole = entries_from(list, 0, options@, annotation as int, given);
    let mut position: usize = 0;
    let mut current = options;
    loop
        invariant
            list == tokens_view(tokens@),
            position <= tokens.len(),
            given == optional_answer(*answer),
            whole == entries_from(list, 0, options@, annotation as int, given),
            whole == entries_from(list, position as int, current@, annotation as int, given),
        decreases tokens.len() - position,
    {
        match read_entry(tokens, position, current, annotation, answer) {
            Err(error) => {
                return Err(error);
            },
            Ok((next, added)) => {
                if next >= tokens.len() {
                    return Ok(added);
                }
                if !has_punct(tokens, next, ',') {
                    return Err(
                        GenerationError::Malformed {
                            annotation,
                            position: next,
                            expected: Expectation::End,
                        },
                    );
                }
                position = next + 1;
                current = added;
            },
        }
    }
}

/// Reads the annotations of a type: a comma-separated list of
/// `validator = <identifier>` and `bounds = <string literal>` in each
/// annotation named `freeze`. Each option may be set once. The text given to
/// `bounds` is not parsed here: `answer` holds what the parser said of it.
pub fn extract_options(annotations: &Vec<Annotation>, answer: &Option<PredicateAnswer>) -> (r: Result<
    FreezeOptions,
    GenerationError,
>)
    ensures
        match r {
            Ok(options) => declared_options(annotations_view(annotations@), optional_answer(*answer))
                == Ok::<FreezeOptionsView, GenerationErrorView>(options@),
            Err(error) => declared_options(annotations_view(annotations@), optional_answer(*answer))
                == Err::<FreezeOptionsView, GenerationErrorView>(error@),
        },
{
    let ghost list = annotations_view(annotations@);
    let mut options = FreezeOptions::new();
    let mut index: usize = 0;
    while index < annotations.len()
        invariant
            list == annotations_view(annotations@),
            index <= annotations.len(),
            declared_options(list, optional_answer(*answer)) == options_from(
                list,
                index as int,
                options@,
                optional_answer(*answer),
            ),
        decreases annotations.len() - index,
    {
        let annotation = &annotations[index];
        if is_word(&annotation.name, "freeze") {
            match &annotation.arguments {
                None => {
                    return Err(
                        GenerationError::Malformed {
                            annotation: index,
                            position: 0,
                            expected: Expectation::Arguments,
                        },
                    );
                },
                Some(tokens) => {
                    match read_entries(tokens, options, index, answer) {
                        Err(error) => {
                            return Err(error);
                        },
                        Ok(added) => {
                            options = added;
                        },
                    }
                },
            }
        }
        index += 1;
    }
    Ok(options)
}

/// Says which text the parser has to be asked about before the annotations
/// can be read to their end; nothing where they can be read without.
pub fn bounds_in_question(annotations: &Vec<Annotation>) -> (r: Option<String>)
    ensures
        optional_text(r) == question(annotations_view(annotations@)),
{
    match extract_options(annotations, &None) {
        Err(GenerationError::BoundsUnread { text, .. }) => Some(text),
        _ => None,
    }
}

/// Reads one argument list for the identity mark.
fn read_identity(tokens: &Vec<Token>, annotation: usize) -> (r: Result<bool, GenerationError>)
    ensures
        match r {
            Ok(mark) => identity_in(tokens_view(tokens@), annotation as int) == Ok::<
                bool,
                GenerationErrorView,
            >(mark),
            Err(error) => identity_in(tokens_view(tokens@), annotation as int) == Err::<
                bool,
                GenerationErrorView,
            >(error@),
        },
{
    if tokens.len() == 0 {
        Ok(false)
    } else if !has_word(tokens, 0, "identity") {
        Err(GenerationError::Malformed { annotation, position: 0, expected: Expectation::End })
    } else if tokens.len() > 1 {
        Err(GenerationError::Malformed { annotation, position: 1, expected: Expectation::End })
    } else {
        Ok(true)
    }
}

/// Reads the annotations of a field: an annotation named `freeze` holds the
/// bare keyword `identity` or nothing.
pub fn is_identity(annotations: &Vec<Annotation>) -> (r: Result<bool, GenerationError>)
    ensures
        match r {
            Ok(mark) => marked_identity(annotations_view(annotations@)) == Ok::<
                bool,
                GenerationErrorView,
            >(mark),
            Err(error) => marked_identity(annotations_view(annotations@)) == Err::<
                bool,
                GenerationErrorView,
            >(error@),
        },
{
    let ghost list = annotations_view(annotations@);
    let mut index: usize = 0;
    while index < annotations.len()
        invariant
            list == annotations_view(annotations@),
            index <= annotations.len(),
            marked_identity(list) == identity_from(list, index as int),
        decreases annotations.len() - index,
    {
        let annotation = &annotations[index];
        if is_word(&annotation.name, "freeze") {
            match &annotation.arguments {
                None => {
                    return Err(
                        GenerationError::Malformed {
                            annotation: index,
                            position: 0,
                            expected: Expectation::Arguments,
                        },
                    );
                },
                Some(tokens) => {
                    match read_identity(tokens, index) {
                        Err(error) => {
                            return Err(error);
                        },
                        Ok(true) => {
                            return Ok(true);
                        },
                        Ok(false) => {},
                    }
                },
            }
        }
        index += 1;
    }
    Ok(false)
}

} // verus!
