//! The normalized request side of one field invocation, and the annotation
//! classifier that partitions its arguments.

use vstd::prelude::*;
use crate::annotation::{
    Annotation, UniqueIdentifierComponent, is_missing_mapping_annotation,
    is_model_argument_annotation, is_unique_identifier_annotation,
};
use crate::error::Error;
use crate::permissions::NamespaceAnnotation;
use crate::types::{TypeContainer, Value};

verus! {

/// One supplied argument of a field call, with the annotation the schema
/// build attached to its formal argument.
#[derive(Debug, PartialEq, Eq)]
pub struct ArgumentValue {
    pub name: String,
    pub value: Value,
    pub annotation: Annotation,
}

impl Clone for ArgumentValue {
    fn clone(&self) -> (res: Self)
        ensures
            res == *self,
    {
        ArgumentValue {
            name: self.name.clone(),
            value: self.value.clone(),
            annotation: self.annotation.clone(),
        }
    }
}

/// One client-requested field call: its name, its supplied arguments in
/// order, and the permission annotation the normalizer attached for the
/// caller's role.
#[derive(Debug, PartialEq, Eq)]
pub struct FieldCall {
    pub name: String,
    pub arguments: Vec<ArgumentValue>,
    pub namespaced: Option<NamespaceAnnotation>,
}

/// The selected field as normalized: its output type and the names of the
/// nested fields it requests. Nested selection resolution is an external
/// collaborator; the selection set is carried through unread.
#[derive(Debug, PartialEq, Eq)]
pub struct Field {
    pub type_container: TypeContainer,
    pub selection_set: Vec<String>,
}

/// The unique-identifier component an argument classifies to. Meaningful
/// only for an argument whose annotation is a unique-identifier annotation
/// with its connector mapping present.
pub open spec fn spec_component_of(a: ArgumentValue) -> UniqueIdentifierComponent {
    match a.annotation {
        Annotation::Input(crate::annotation::InputAnnotation::Model(
            crate::annotation::ModelInputAnnotation::ModelUniqueIdentifierArgument {
                field_name,
                ndc_column,
            },
        )) => UniqueIdentifierComponent {
            ndc_column: ndc_column->Some_0,
            field_name: field_name,
            value: a.value,
        },
        _ => UniqueIdentifierComponent {
            ndc_column: arbitrary(),
            field_name: arbitrary(),
            value: a.value,
        },
    }
}

/// The plain model arguments among `args`, in order.
pub open spec fn spec_model_arguments(args: Seq<ArgumentValue>) -> Seq<ArgumentValue>
    decreases args.len(),
{
    if args.len() == 0 {
        Seq::empty()
    } else {
        let rest = spec_model_arguments(args.drop_last());
        if is_model_argument_annotation(args.last().annotation) {
            rest.push(args.last())
        } else {
            rest
        }
    }
}

/// The unique-identifier components among `args`, in order.
pub open spec fn spec_unique_identifier_components(args: Seq<ArgumentValue>) -> Seq<
    UniqueIdentifierComponent,
>
    decreases args.len(),
{
    if args.len() == 0 {
        Seq::empty()
    } else {
        let rest = spec_unique_identifier_components(args.drop_last());
        if is_unique_identifier_annotation(args.last().annotation) {
            rest.push(spec_component_of(args.last()))
        } else {
            rest
        }
    }
}

/// The classification failure one argument raises, if any.
pub open spec fn spec_argument_error(a: ArgumentValue, field_name: String) -> Option<Error> {
    if is_model_argument_annotation(a.annotation) || is_unique_identifier_annotation(a.annotation) {
        None
    } else if is_missing_mapping_annotation(a.annotation) {
        Some(Error::MissingNdcColumnMapping { argument_name: a.name, field_name: field_name })
    } else {
        Some(Error::UnexpectedAnnotation { annotation: a.annotation })
    }
}

/// The first classification failure among `args`, if any.
pub open spec fn spec_classify_error(args: Seq<ArgumentValue>, field_name: String) -> Option<Error>
    decreases args.len(),
{
    if args.len() == 0 {
        None
    } else if spec_argument_error(args.first(), field_name) is Some {
        spec_argument_error(args.first(), field_name)
    } else {
        spec_classify_error(args.drop_first(), field_name)
    }
}

/// Every argument classifies: each is a plain model argument or a complete
/// unique-identifier component.
pub open spec fn spec_classify_ok(args: Seq<ArgumentValue>) -> bool {
    forall|i: int|
        0 <= i < args.len() ==> is_model_argument_annotation(#[trigger] args[i].annotation)
            || is_unique_identifier_annotation(args[i].annotation)
}

/// Classification raises no failure exactly when every argument classifies.
pub proof fn lemma_classify_error_none_iff_ok(args: Seq<ArgumentValue>, field_name: String)
    ensures
        spec_classify_error(args, field_name) is None <==> spec_classify_ok(args),
    decreases args.len(),
{
    if args.len() > 0 {
        lemma_classify_error_none_iff_ok(args.drop_first(), field_name);
        let rest = args.drop_first();
        assert(forall|i: int| 0 <= i < rest.len() ==> rest[i] == args[i + 1]);
        if spec_argument_error(args.first(), field_name) is None {
            if spec_classify_error(rest, field_name) is None {
                assert forall|i: int|
                    0 <= i < args.len() implies is_model_argument_annotation(
                    #[trigger] args[i].annotation,
                ) || is_unique_identifier_annotation(args[i].annotation) by {
                    if i == 0 {
                        assert(args[0] == args.first());
                    } else {
                        assert(rest[i - 1] == args[i]);
                        assert(is_model_argument_annotation(rest[i - 1].annotation)
                            || is_unique_identifier_annotation(rest[i - 1].annotation));
                    }
                }
            } else {
                assert(!spec_classify_ok(rest));
                let j = choose|j: int|
                    0 <= j < rest.len() && !(is_model_argument_annotation(
                        #[trigger] rest[j].annotation,
                    ) || is_unique_identifier_annotation(rest[j].annotation));
                assert(args[j + 1] == rest[j]);
                assert(!spec_classify_ok(args));
            }
        } else {
            assert(args[0] == args.first());
            assert(!spec_classify_ok(args));
        }
    }
}

/// Partitions a field call's arguments: each plain model argument is
/// forwarded as-is, each unique-identifier argument becomes a lookup
/// component with its connector column mapping, and the first argument of
/// any other shape fails the whole classification — an unexpected
/// annotation, or a unique-identifier annotation whose connector mapping
/// the schema build failed to emit.
#[verifier::loop_isolation(false)]
pub fn classify_field_arguments(field_call: &FieldCall) -> (res: Result<
    (Vec<ArgumentValue>, Vec<UniqueIdentifierComponent>),
    Error,
>)
    ensures
        match res {
            Ok(parts) => spec_classify_error(field_call.arguments@, field_call.name) is None
                && parts.0@ == spec_model_arguments(field_call.arguments@) && parts.1@
                == spec_unique_identifier_components(field_call.arguments@),
            Err(e) => spec_classify_error(field_call.arguments@, field_call.name) == Some(e),
        },
{
    let ghost args = field_call.arguments@;
    let mut model_argument_fields: Vec<ArgumentValue> = Vec::new();
    let mut unique_identifier_arguments: Vec<UniqueIdentifierComponent> = Vec::new();
    let mut i: usize = 0;
    proof {
        assert(args.skip(0) =~= args);
    }
    while i < field_call.arguments.len()
        invariant
            i <= args.len(),
            spec_classify_error(args, field_call.name) == spec_classify_error(
                args.skip(i as int),
                field_call.name,
            ),
            model_argument_fields@ == spec_model_arguments(args.subrange(0, i as int)),
            unique_identifier_arguments@ == spec_unique_identifier_components(
                args.subrange(0, i as int),
            ),
        decreases args.len() - i,
    {
        let argument = &field_call.arguments[i];
        proof {
            assert(args.skip(i as int).first() == args[i as int]);
            assert(args.skip(i as int).drop_first() =~= args.skip(i as int + 1));
            assert(args.subrange(0, i as int + 1).drop_last() =~= args.subrange(0, i as int));
        }
        match &argument.annotation {
            Annotation::Input(crate::annotation::InputAnnotation::Model(model_input_annotation)) => {
                match model_input_annotation {
                    crate::annotation::ModelInputAnnotation::ModelArgument => {
                        model_argument_fields.push(argument.clone());
                    },
                    crate::annotation::ModelInputAnnotation::ModelUniqueIdentifierArgument {
                        field_name,
                        ndc_column,
                    } => {
                        match ndc_column {
                            Some(column) => {
                                unique_identifier_arguments.push(
                                    UniqueIdentifierComponent {
                                        ndc_column: column.clone(),
                                        field_name: field_name.clone(),
                                        value: argument.value.clone(),
                                    },
                                );
                            },
                            None => {
                                return Err(Error::MissingNdcColumnMapping {
                                    argument_name: argument.name.clone(),
                                    field_name: field_call.name.clone(),
                                });
                            },
                        }
                    },
                    _ => {
                        return Err(Error::UnexpectedAnnotation {
                            annotation: argument.annotation.clone(),
                        });
                    },
                }
            },
            _ => {
                return Err(Error::UnexpectedAnnotation {
                    annotation: argument.annotation.clone(),
                });
            },
        }
        i = i + 1;
    }
    proof {
        assert(args.subrange(0, args.len() as int) =~= args);
        assert(args.skip(args.len() as int) =~= Seq::<ArgumentValue>::empty());
        lemma_classify_error_none_iff_ok(args, field_call.name);
    }
    Ok((model_argument_fields, unique_identifier_arguments))
}

} // verus!
