use vstd::prelude::*;

use super::{Field, FieldModel};
use crate::error::{ErrorModel, GenerationError};
use crate::naming::{camel, is_identifier, is_valid_name};

verus! {

/// A reference to another model, deleted in cascade with it.
pub struct ForeignKey {
    name: String,
    /// The referenced entity's name as written; always an identifier, and
    /// rendered in upper camel case.
    reference: String,
}

impl ForeignKey {
    #[verifier::type_invariant]
    spec fn reference_is_name(&self) -> bool {
        is_identifier(self.reference@)
    }

    /// The referenced entity's name.
    pub closed spec fn reference_view(&self) -> Seq<char> {
        self.reference@
    }

    /// Fails with `InvalidName` where `reference` is not an identifier.
    pub fn new(name: String, reference: String) -> (r: Result<ForeignKey, GenerationError>)
        ensures
            match r {
                Ok(f) => is_identifier(reference@) && f.model() == (FieldModel::ForeignKey {
                    name: name@,
                    reference: reference@,
                }),
                Err(e) => !is_identifier(reference@) && e@ == ErrorModel::InvalidName(reference@),
            },
    {
        if is_valid_name(reference.as_str()) {
            Ok(ForeignKey { name, reference })
        } else {
            Err(GenerationError::InvalidName(reference))
        }
    }

    pub fn name(&self) -> (r: &str)
        ensures
            r@ == self.model().name(),
    {
        self.name.as_str()
    }

    /// The referenced entity's name, which is always an identifier.
    pub fn reference(&self) -> (r: &str)
        ensures
            r@ == self.reference_view(),
            is_identifier(r@),
    {
        proof {
            use_type_invariant(self);
        }
        self.reference.as_str()
    }
}

impl Field for ForeignKey {
    closed spec fn model(&self) -> FieldModel {
        FieldModel::ForeignKey { name: self.name@, reference: self.reference_view() }
    }

    fn model_field_code(&self) -> (r: String) {
        let mut code = self.name.clone();
        code.append(" = models.ForeignKey(\"");
        let other = camel(self.reference.as_str());
        code.append(other.as_str());
        code.append("\", on_delete=models.CASCADE, )");
        code
    }

    fn serializer_field_code(&self) -> (r: String) {
        let mut code = self.name.clone();
        code.append(" = serializers.IntegerField()");
        code
    }
}

} // verus!
