//! Generates Django model, serializer and viewset source text from terse
//! field descriptions such as `name:string:index`.

pub mod entity;
pub mod error;
pub mod fields;
pub mod model;
pub mod model_serializer;
pub mod model_viewset;
pub mod naming;
pub mod parser;
pub mod serializer;
pub mod text;
pub mod viewset;

use vstd::prelude::*;

pub use entity::EntityModel;
pub use error::{ErrorModel, GenerationError};
pub use fields::{
    match_field, BooleanField, CharField, Field, FieldKind, FieldModel, ForeignKey, IntegerField,
    TextField,
};
pub use model::DjangoModel;
pub use model_serializer::DRFModelSerializer;
pub use model_viewset::DRFModelViewSet;
pub use naming::upper_camel_case;
pub use parser::{parse_field, FieldSpec};
pub use serializer::{generate_model_serializer_code, DRFSerializer};
pub use viewset::Generator;

use crate::entity::{entity, lemma_failing_field_fails_all, lemma_first_failure_reported};
use crate::fields::{field_of, is_known_type};
use crate::model::model_text;
use crate::naming::is_identifier;
use crate::parser::{parse_spec, string_views};
use crate::serializer::{model_serializer_of, serializer_text};
use crate::viewset::viewset_text;

verus! {

/// Which class to generate.
#[derive(Clone, Copy, Debug, PartialEq, Eq)]
pub enum Component {
    Model,
    Serializer,
    ModelViewset,
    ModelSerializer,
}

/// The source that a request produces, or the error that stops it.
pub open spec fn generated(component: Component, name: Seq<char>, tokens: Seq<Seq<char>>) -> Result<
    Seq<char>,
    ErrorModel,
> {
    match component {
        Component::Model => match entity(name, tokens) {
            Ok(e) => Ok(model_text(e)),
            Err(e) => Err(e),
        },
        Component::Serializer => match entity(name, tokens) {
            Ok(e) => Ok(serializer_text(e)),
            Err(e) => Err(e),
        },
        Component::ModelSerializer => model_serializer_of(name, tokens),
        Component::ModelViewset => if is_identifier(name) {
            Ok(viewset_text(name))
        } else {
            Err(ErrorModel::InvalidName(name))
        },
    }
}

/// A request that reads fields never yields text when one of its field
/// descriptions fails.
pub proof fn lemma_failing_field_fails_request(
    component: Component,
    name: Seq<char>,
    tokens: Seq<Seq<char>>,
    i: int,
)
    requires
        component != Component::ModelViewset,
        0 <= i < tokens.len(),
        field_of(tokens[i]) is Err,
    ensures
        generated(component, name, tokens) is Err,
{
    lemma_failing_field_fails_all(tokens, i);
}

/// A field whose type word is unknown fails a request that reads fields with
/// `UnsupportedFieldType` and that word, where the name and the fields before
/// it are accepted.
pub proof fn lemma_unsupported_type_fails(
    component: Component,
    name: Seq<char>,
    tokens: Seq<Seq<char>>,
    i: int,
)
    requires
        component != Component::ModelViewset,
        is_identifier(name),
        0 <= i < tokens.len(),
        forall|j: int| 0 <= j < i ==> field_of(#[trigger] tokens[j]) is Ok,
        parse_spec(tokens[i]) is Ok,
        !is_known_type(parse_spec(tokens[i])->Ok_0.field_type),
    ensures
        generated(component, name, tokens) == Err::<Seq<char>, ErrorModel>(
            ErrorModel::UnsupportedFieldType(parse_spec(tokens[i])->Ok_0.field_type),
        ),
{
    lemma_first_failure_reported(tokens, i);
}

/// Generates the class that `component` selects for the entity `name` with
/// the field descriptions `fields`; a viewset does not use the fields.
pub fn run_generator(component: Component, name: String, fields: Vec<String>) -> (r: Result<
    String,
    GenerationError,
>)
    ensures
        match r {
            Ok(code) => generated(component, name@, string_views(fields@)) == Ok::<
                Seq<char>,
                ErrorModel,
            >(code@),
            Err(e) => generated(component, name@, string_views(fields@)) == Err::<
                Seq<char>,
                ErrorModel,
            >(e@),
        },
{
    match component {
        Component::Model => match DjangoModel::new(name, fields) {
            Ok(model) => Ok(model.code()),
            Err(e) => Err(e),
        },
        Component::Serializer => match DRFSerializer::new(name, fields) {
            Ok(serializer) => Ok(serializer.code()),
            Err(e) => Err(e),
        },
        Component::ModelViewset => match DRFModelViewSet::new(name) {
            Ok(viewset) => Ok(viewset.code()),
            Err(e) => Err(e),
        },
        Component::ModelSerializer => generate_model_serializer_code(name.as_str(), &fields),
    }
}

} // verus!
