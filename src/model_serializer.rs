//! A model serializer for a model named on its own, with no declared fields.

use vstd::prelude::*;

use crate::entity::{field_views, EntityModel};
use crate::error::{ErrorModel, GenerationError};
use crate::fields::{FieldKind, FieldModel};
use crate::naming::{is_identifier, is_valid_name};
use crate::serializer::{model_serializer_code, model_serializer_text};

verus! {

/// A DRF model serializer for the model named `name`; it lists the implicit
/// model fields.
pub struct DRFModelSerializer {
    name: String,
}

impl View for DRFModelSerializer {
    type V = Seq<char>;

    closed spec fn view(&self) -> Seq<char> {
        self.name@
    }
}

impl DRFModelSerializer {
    /// Fails with `InvalidName` where `name` is not an identifier.
    pub fn new(name: String) -> (r: Result<DRFModelSerializer, GenerationError>)
        ensures
            match r {
                Ok(s) => is_identifier(name@) && s@ == name@,
                Err(e) => !is_identifier(name@) && e@ == ErrorModel::InvalidName(name@),
            },
    {
        if is_valid_name(name.as_str()) {
            Ok(DRFModelSerializer { name })
        } else {
            Err(GenerationError::InvalidName(name))
        }
    }

    /// The model serializer source of an entity with no declared fields.
    pub fn code(&self) -> (r: String)
        ensures
            r@ == model_serializer_text(EntityModel { name: self@, fields: Seq::empty() }),
    {
        let fields: Vec<FieldKind> = Vec::new();
        let r = model_serializer_code(self.name.as_str(), &fields);
        proof {
            assert(field_views(fields@) =~= Seq::<FieldModel>::empty());
        }
        r
    }
}

} // verus!
