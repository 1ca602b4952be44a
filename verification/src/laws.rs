//! What holds of every declaration and of every run of the generated
//! procedure.

use vstd::prelude::*;
use crate::annotation::{freeze_word, AnnotationView, TokenView};
use crate::declaration::{GenericParameterView, TypeDeclarationView};
use crate::error::{key_word, message_text, GenerationErrorView, OptionKey};
use crate::fields::{fragment_value, lemma_fragments_of, member_of};
use crate::generics::{
    call_lifetime,
    has_const,
    impl_parameter,
    input_parameter,
    output_parameter,
    parameter_lists,
};
use crate::options::{
    declared_options,
    entries_from,
    entry_at,
    marked_identity,
    no_options,
    options_from,
    question,
    FreezeOptionsView,
    PredicateAnswerView,
};
use crate::semantics::{field_step, lemma_run_fields, run, run_fields, Outcome};
use crate::synthesis::{generated, GeneratedImplementationView};

verus! {

/// The three parameter lists run in parallel. The implementation declares
/// the lifetime of the call and then one parameter for each declared one, in
/// the declared order; the type before freezing and the frozen type take one
/// argument for each declared parameter, in the same order. A lifetime
/// becomes `'static` in the frozen type, a type parameter its frozen form.
pub proof fn law_parameter_lists_run_in_parallel(generics: Seq<GenericParameterView>, capable: bool)
    requires
        !has_const(generics),
    ensures
        parameter_lists(generics, capable) is Ok,
        ({
            let lists = parameter_lists(generics, capable)->Ok_0;
            &&& lists.impl_params.len() == generics.len() + 1
            &&& lists.input_params.len() == generics.len()
            &&& lists.output_params.len() == generics.len()
            &&& lists.impl_params[0] == call_lifetime()
            &&& forall|i: int|
                0 <= i < generics.len() ==> {
                    &&& lists.impl_params[i + 1] == impl_parameter(#[trigger] generics[i], capable)
                    &&& lists.input_params[i] == input_parameter(generics[i])
                    &&& lists.output_params[i] == output_parameter(generics[i])
                    &&& generics[i] is Lifetime ==> lists.output_params[i] == "'static"@
                    &&& generics[i] is Type ==> lists.output_params[i] == generics[i]->Type_name
                        + "::Frozen"@
                }
        }),
{
}

/// For a struct without a const parameter, with well-formed annotations on
/// the type and no field marked as identity, an implementation is generated.
/// It has one fragment per field, in declaration order. A run in which the
/// validator finds nothing and every field freezes gives the frozen values
/// of the fields, as many as there are fields and in their order.
pub proof fn law_every_field_is_frozen_in_order<V, E>(
    declaration: TypeDeclarationView,
    answer: Option<PredicateAnswerView>,
    input: Seq<V>,
    verdict: Option<E>,
    freeze: spec_fn(V) -> Result<V, E>,
)
    requires
        declaration.shape.is_struct(),
        !has_const(declaration.generics),
        declared_options(declaration.annotations, answer) is Ok,
        forall|i: int|
            0 <= i < declaration.shape.fields().len() ==> marked_identity(
                (#[trigger] declaration.shape.fields()[i]).annotations,
            ) == Ok::<bool, GenerationErrorView>(false),
        input.len() == declaration.shape.fields().len(),
        declared_options(declaration.annotations, answer)->Ok_0.validator is None || verdict is None,
        forall|i: int| 0 <= i < input.len() ==> (#[trigger] freeze(input[i])) is Ok,
    ensures
        generated(declaration, answer) is Ok,
        ({
            let fields = declaration.shape.fields();
            let fragments = generated(declaration, answer)->Ok_0.body.fragments();
            let outcome = run(generated(declaration, answer)->Ok_0, input, verdict, freeze);
            &&& fragments.len() == fields.len()
            &&& forall|i: int|
                0 <= i < fields.len() ==> (#[trigger] fragments[i]).member == member_of(
                    fields[i],
                    i,
                    declaration.shape is NamedFields,
                )
            &&& outcome.result is Ok
            &&& outcome.result->Ok_0.len() == fields.len()
            &&& forall|i: int|
                0 <= i < fields.len() ==> freeze(input[i]) == Ok::<V, E>(#[trigger] outcome.result->Ok_0[i])
        }),
{
    let fields = declaration.shape.fields();
    let named = declaration.shape is NamedFields;
    lemma_fragments_of(fields, named, fields.len() as int);
    let implementation = generated(declaration, answer)->Ok_0;
    let fragments = implementation.body.fragments();
    lemma_run_fields(fragments, input, freeze, fragments.len() as int);
    let outcome = run_fields(fragments, input, freeze, fragments.len() as int);
    assert forall|i: int| 0 <= i < fragments.len() implies field_step(
        #[trigger] fragments[i],
        input[i],
        freeze,
    ) == freeze(input[i]) by {
        assert(marked_identity(fields[i].annotations) == Ok::<bool, GenerationErrorView>(false));
    }
    assert forall|i: int| 0 <= i < fields.len() implies freeze(input[i]) == Ok::<V, E>(
        #[trigger] outcome.result->Ok_0[i],
    ) by {
        assert(field_step(fragments[i], input[i], freeze) == Ok::<V, E>(outcome.result->Ok_0[i]));
    }
}

/// A field marked as identity is not frozen. The expression for its new
/// value is the field itself, no run tries to freeze it, and where a run
/// succeeds the field has the value that it had before.
pub proof fn law_identity_field_passes_through<V, E>(
    declaration: TypeDeclarationView,
    answer: Option<PredicateAnswerView>,
    index: int,
    input: Seq<V>,
    verdict: Option<E>,
    freeze: spec_fn(V) -> Result<V, E>,
)
    requires
        generated(declaration, answer) is Ok,
        0 <= index < declaration.shape.fields().len(),
        marked_identity(declaration.shape.fields()[index].annotations) == Ok::<bool, GenerationErrorView>(
            true,
        ),
    ensures
        ({
            let fragments = generated(declaration, answer)->Ok_0.body.fragments();
            let outcome = run(generated(declaration, answer)->Ok_0, input, verdict, freeze);
            &&& fragments.len() == declaration.shape.fields().len()
            &&& fragments[index].action is Identity
            &&& fragment_value(fragments[index], declaration.shape is NamedFields) == "self."@
                + fragments[index].member
            &&& !outcome.attempts.contains(index)
            &&& outcome.result is Ok ==> outcome.result->Ok_0[index] == input[index]
        }),
{
    let fields = declaration.shape.fields();
    let named = declaration.shape is NamedFields;
    lemma_fragments_of(fields, named, fields.len() as int);
    let implementation = generated(declaration, answer)->Ok_0;
    let fragments = implementation.body.fragments();
    lemma_run_fields(fragments, input, freeze, fragments.len() as int);
}

/// Where a validator is configured and finds a failure in the value, the run
/// ends with that failure and no field is frozen.
pub proof fn law_validator_comes_first<V, E>(
    declaration: TypeDeclarationView,
    answer: Option<PredicateAnswerView>,
    input: Seq<V>,
    failure: E,
    freeze: spec_fn(V) -> Result<V, E>,
)
    requires
        generated(declaration, answer) is Ok,
        declared_options(declaration.annotations, answer)->Ok_0.validator is Some,
    ensures
        generated(declaration, answer)->Ok_0.validator == declared_options(declaration.annotations, answer)->Ok_0.validator,
        run(generated(declaration, answer)->Ok_0, input, Some(failure), freeze) == (Outcome::<V, E> {
            result: Err(failure),
            attempts: Seq::empty(),
        }),
{
}

/// Where the validator finds nothing, the first field whose freezing fails
/// ends the run with its failure, and no later field is frozen.
pub proof fn law_first_failure_ends_the_run<V, E>(
    implementation: GeneratedImplementationView,
    index: int,
    input: Seq<V>,
    verdict: Option<E>,
    freeze: spec_fn(V) -> Result<V, E>,
)
    requires
        implementation.validator is None || verdict is None,
        0 <= index < implementation.body.fragments().len(),
        field_step(implementation.body.fragments()[index], input[index], freeze) is Err,
        forall|k: int|
            0 <= k < index ==> field_step(
                #[trigger] implementation.body.fragments()[k],
                input[k],
                freeze,
            ) is Ok,
    ensures
        ({
            let outcome = run(implementation, input, verdict, freeze);
            &&& outcome.result is Err
            &&& outcome.result->Err_0 == field_step(
                implementation.body.fragments()[index],
                input[index],
                freeze,
            )->Err_0
            &&& forall|k: int| 0 <= k < outcome.attempts.len() ==> (#[trigger] outcome.attempts[k]) <= index
        }),
{
    let fragments = implementation.body.fragments();
    lemma_run_fields(fragments, input, freeze, fragments.len() as int);
}

/// The tokens that set an option again behind a complete option list: a
/// comma, the keyword, `=` and, for `bounds`, a string literal; anything may
/// follow.
pub open spec fn sets_again(tail: Seq<TokenView>, key: OptionKey) -> bool {
    &&& tail.len() >= 3
    &&& tail[0] == TokenView::Punct(',')
    &&& tail[1] == TokenView::Ident(key_word(key))
    &&& tail[2] == TokenView::Punct('=')
    &&& key == OptionKey::Bounds ==> tail.len() >= 4 && tail[3] is Str
}

/// Whether the options hold a value for the key.
pub open spec fn is_set(options: FreezeOptionsView, key: OptionKey) -> bool {
    match key {
        OptionKey::Validator => options.validator is Some,
        OptionKey::Bounds => options.bounds is Some,
    }
}

/// An option list that is read to its end is read in the same way where
/// more entries follow it.
proof fn lemma_entries_continue(
    head: Seq<TokenView>,
    tail: Seq<TokenView>,
    position: int,
    options: FreezeOptionsView,
    annotation: int,
    answer: Option<PredicateAnswerView>,
)
    requires
        0 <= position,
        entries_from(head, position, options, annotation, answer) is Ok,
        tail.len() > 0,
        tail[0] == TokenView::Punct(','),
    ensures
        entries_from(head + tail, position, options, annotation, answer) == entries_from(
            head + tail,
            head.len() as int + 1,
            entries_from(head, position, options, annotation, answer)->Ok_0,
            annotation,
            answer,
        ),
    decreases head.len() - position,
{
    let (next, added) = entry_at(head, position, options, annotation, answer)->Ok_0;
    if next < head.len() {
        lemma_entries_continue(head, tail, next + 1, added, annotation, answer);
    }
}

/// The annotations before `index` add the same options whether or not more
/// annotations follow them.
proof fn lemma_options_continue(
    annotations: Seq<AnnotationView>,
    index: int,
    start: int,
    options: FreezeOptionsView,
    answer: Option<PredicateAnswerView>,
)
    requires
        0 <= start <= index <= annotations.len(),
        options_from(annotations.take(index), start, options, answer) is Ok,
    ensures
        options_from(annotations, start, options, answer) == options_from(
            annotations,
            index,
            options_from(annotations.take(index), start, options, answer)->Ok_0,
            answer,
        ),
    decreases index - start,
{
    if start < index {
        if annotations[start].name != freeze_word() {
            lemma_options_continue(annotations, index, start + 1, options, answer);
        } else {
            let tokens = annotations[start].arguments->0;
            let added = entries_from(tokens, 0, options, start, answer)->Ok_0;
            lemma_options_continue(annotations, index, start + 1, added, answer);
        }
    }
}

/// Setting `validator` or `bounds` a second time on one type ends
/// generation with the error for that option, whatever the generic
/// parameters, the shape and the fields are, and whatever the parser
/// answered; a second `bounds` is refused before its text is looked at. The
/// second setting may stand
/// in the annotation of the first or in a later one: `earlier` is what the
/// annotations before `index` configure, `head` the entries of the
/// annotation at `index` that are read without error, `tail` what follows
/// them.
pub proof fn law_option_set_twice(
    declaration: TypeDeclarationView,
    answer: Option<PredicateAnswerView>,
    index: int,
    head: Seq<TokenView>,
    tail: Seq<TokenView>,
    key: OptionKey,
)
    requires
        0 <= index < declaration.annotations.len(),
        declaration.annotations[index].name == freeze_word(),
        declaration.annotations[index].arguments == Some(head + tail),
        declared_options(declaration.annotations.take(index), answer) is Ok,
        entries_from(
            head,
            0,
            declared_options(declaration.annotations.take(index), answer)->Ok_0,
            index,
            answer,
        ) is Ok,
        is_set(
            entries_from(
                head,
                0,
                declared_options(declaration.annotations.take(index), answer)->Ok_0,
                index,
                answer,
            )->Ok_0,
            key,
        ),
        sets_again(tail, key),
    ensures
        declared_options(declaration.annotations, answer) == Err::<FreezeOptionsView, GenerationErrorView>(
            GenerationErrorView::SetTwice(key),
        ),
        generated(declaration, answer) == Err::<GeneratedImplementationView, GenerationErrorView>(
            GenerationErrorView::SetTwice(key),
        ),
{
    let annotations = declaration.annotations;
    let earlier = declared_options(annotations.take(index), answer)->Ok_0;
    let whole = head + tail;
    lemma_options_continue(annotations, index, 0, no_options(), answer);
    lemma_entries_continue(head, tail, 0, earlier, index, answer);
    let set = entries_from(head, 0, earlier, index, answer)->Ok_0;
    let again: int = head.len() as int + 1;
    reveal_strlit("validator");
    reveal_strlit("bounds");
    assert("validator"@.len() == 9 && "bounds"@.len() == 6);
    assert(entry_at(whole, again, set, index, answer) == Err::<(int, FreezeOptionsView), GenerationErrorView>(
        GenerationErrorView::SetTwice(key),
    ));
}

/// Whether a reading ended because the text for `bounds` had no answer.
pub open spec fn is_unread(reading: Result<FreezeOptionsView, GenerationErrorView>) -> bool {
    reading is Err && reading->Err_0 is BoundsUnread
}

/// Once `bounds` is set, the parser's answer plays no part in what is read
/// from a position on, and no text is left unread.
proof fn lemma_settled_entries(
    tokens: Seq<TokenView>,
    position: int,
    options: FreezeOptionsView,
    annotation: int,
    one: Option<PredicateAnswerView>,
    other: Option<PredicateAnswerView>,
)
    requires
        options.bounds is Some,
    ensures
        entries_from(tokens, position, options, annotation, one) == entries_from(
            tokens,
            position,
            options,
            annotation,
            other,
        ),
        !is_unread(entries_from(tokens, position, options, annotation, one)),
        entries_from(tokens, position, options, annotation, one) is Ok ==> entries_from(
            tokens,
            position,
            options,
            annotation,
            one,
        )->Ok_0.bounds is Some,
    decreases tokens.len() - position,
{
    match entry_at(tokens, position, options, annotation, one) {
        Err(_) => {},
        Ok((next, added)) => {
            if next < tokens.len() && tokens[next] == TokenView::Punct(',') {
                lemma_settled_entries(tokens, next + 1, added, annotation, one, other);
            }
        },
    }
}

/// The same over the annotations from `start` on.
proof fn lemma_settled_options(
    annotations: Seq<AnnotationView>,
    start: int,
    options: FreezeOptionsView,
    one: Option<PredicateAnswerView>,
    other: Option<PredicateAnswerView>,
)
    requires
        options.bounds is Some,
    ensures
        options_from(annotations, start, options, one) == options_from(annotations, start, options, other),
        !is_unread(options_from(annotations, start, options, one)),
    decreases annotations.len() - start,
{
    if 0 <= start < annotations.len() {
        if annotations[start].name != freeze_word() {
            lemma_settled_options(annotations, start + 1, options, one, other);
        } else if annotations[start].arguments is Some {
            let tokens = annotations[start].arguments->0;
            lemma_settled_entries(tokens, 0, options, start, one, other);
            if entries_from(tokens, 0, options, start, one) is Ok {
                let added = entries_from(tokens, 0, options, start, one)->Ok_0;
                lemma_settled_options(annotations, start + 1, added, one, other);
            }
        }
    }
}

/// While `bounds` is not set, a reading without an answer and a reading with
/// one agree up to the first text for `bounds`; there the one without stops,
/// and the one with an answer for that text goes on and leaves no text
/// unread.
proof fn lemma_answered_entries(
    tokens: Seq<TokenView>,
    position: int,
    options: FreezeOptionsView,
    annotation: int,
    answer: PredicateAnswerView,
)
    requires
        options.bounds is None,
    ensures
        ({
            let without = entries_from(tokens, position, options, annotation, None);
            let with = entries_from(tokens, position, options, annotation, Some(answer));
            &&& without is Ok ==> without->Ok_0.bounds is None
            &&& !is_unread(without) ==> with == without
            &&& is_unread(without) && without->Err_0->BoundsUnread_text == answer.text ==> !is_unread(with)
            &&& without is Err && with is Ok ==> with->Ok_0.bounds is Some
        }),
    decreases tokens.len() - position,
{
    match entry_at(tokens, position, options, annotation, None) {
        Err(_) => {
            match entry_at(tokens, position, options, annotation, Some(answer)) {
                Err(_) => {},
                Ok((next, added)) => {
                    if next < tokens.len() && tokens[next] == TokenView::Punct(',') {
                        lemma_settled_entries(tokens, next + 1, added, annotation, Some(answer), None);
                    }
                },
            }
        },
        Ok((next, added)) => {
            if next < tokens.len() && tokens[next] == TokenView::Punct(',') {
                lemma_answered_entries(tokens, next + 1, added, annotation, answer);
            }
        },
    }
}

/// The same over the annotations from `start` on.
proof fn lemma_answered_options(
    annotations: Seq<AnnotationView>,
    start: int,
    options: FreezeOptionsView,
    answer: PredicateAnswerView,
)
    requires
        options.bounds is None,
    ensures
        ({
            let without = options_from(annotations, start, options, None);
            let with = options_from(annotations, start, options, Some(answer));
            &&& !is_unread(without) ==> with == without
            &&& is_unread(without) && without->Err_0->BoundsUnread_text == answer.text ==> !is_unread(with)
        }),
    decreases annotations.len() - start,
{
    if 0 <= start < annotations.len() {
        if annotations[start].name != freeze_word() {
            lemma_answered_options(annotations, start + 1, options, answer);
        } else if annotations[start].arguments is Some {
            let tokens = annotations[start].arguments->0;
            lemma_answered_entries(tokens, 0, options, start, answer);
            let without = entries_from(tokens, 0, options, start, None);
            let with = entries_from(tokens, 0, options, start, Some(answer));
            if without is Ok {
                lemma_answered_options(annotations, start + 1, without->Ok_0, answer);
            } else if with is Ok {
                lemma_settled_options(annotations, start + 1, with->Ok_0, Some(answer), None);
            }
        }
    }
}

/// One answer is enough. Where the annotations of a type cannot be read
/// without the parser, the text in question is the only one that the
/// reading ever asks about: with an answer for it, no text is left unread.
/// Where they can be read without, the answer plays no part.
pub proof fn law_one_answer_is_enough(annotations: Seq<AnnotationView>, answer: PredicateAnswerView)
    ensures
        question(annotations) == Some(answer.text) ==> !is_unread(
            declared_options(annotations, Some(answer)),
        ),
        question(annotations) is None ==> declared_options(annotations, Some(answer)) == declared_options(
            annotations,
            None,
        ),
{
    lemma_answered_options(annotations, 0, no_options(), answer);
}

/// A declaration with well-formed annotations on the type is refused with a
/// fixed message where it has a const parameter and, where it has none,
/// where it is an enum or a union. The fields play no part in it.
pub proof fn law_unsupported_declarations_are_refused(
    declaration: TypeDeclarationView,
    answer: Option<PredicateAnswerView>,
)
    requires
        declared_options(declaration.annotations, answer) is Ok,
    ensures
        has_const(declaration.generics) ==> generated(declaration, answer) == Err::<
            GeneratedImplementationView,
            GenerationErrorView,
        >(GenerationErrorView::ConstGeneric),
        !has_const(declaration.generics) && declaration.shape is EnumVariants ==> generated(declaration, answer)
            == Err::<GeneratedImplementationView, GenerationErrorView>(GenerationErrorView::EnumShape),
        !has_const(declaration.generics) && declaration.shape is UnionFields ==> generated(declaration, answer)
            == Err::<GeneratedImplementationView, GenerationErrorView>(GenerationErrorView::UnionShape),
        message_text(GenerationErrorView::ConstGeneric) == "const generics not supported"@,
        message_text(GenerationErrorView::EnumShape) == "cannot derive for enums"@,
        message_text(GenerationErrorView::UnionShape) == "cannot derive for unions"@,
{
}

/// Generation gives an implementation or an error and nothing in between:
/// an implementation exists exactly where the annotations of the type are
/// well-formed, no parameter is a const parameter, the declaration is a
/// struct and the annotations of every field are well-formed.
pub proof fn law_generation_succeeds_or_fails_whole(
    declaration: TypeDeclarationView,
    answer: Option<PredicateAnswerView>,
)
    ensures
        generated(declaration, answer) is Ok <==> {
            &&& declared_options(declaration.annotations, answer) is Ok
            &&& !has_const(declaration.generics)
            &&& declaration.shape.is_struct()
            &&& forall|i: int|
                0 <= i < declaration.shape.fields().len() ==> marked_identity(
                    (#[trigger] declaration.shape.fields()[i]).annotations,
                ) is Ok
        },
{
    let fields = declaration.shape.fields();
    let named = declaration.shape is NamedFields;
    lemma_fragments_of(fields, named, fields.len() as int);
}

} // verus!
