//! A model viewset for a named model.

use vstd::prelude::*;

use crate::error::{ErrorModel, GenerationError};
use crate::naming::{is_identifier, is_valid_name};
use crate::viewset::{viewset_code, viewset_text};

verus! {

/// A DRF model viewset for the model named `name`.
pub struct DRFModelViewSet {
    name: String,
}

impl View for DRFModelViewSet {
    type V = Seq<char>;

    closed spec fn view(&self) -> Seq<char> {
        self.name@
    }
}

impl DRFModelViewSet {
    /// Fails with `InvalidName` where `name` is not an identifier.
    pub fn new(name: String) -> (r: Result<DRFModelViewSet, GenerationError>)
        ensures
            match r {
                Ok(v) => is_identifier(name@) && v@ == name@,
                Err(e) => !is_identifier(name@) && e@ == ErrorModel::InvalidName(name@),
            },
    {
        if is_valid_name(name.as_str()) {
            Ok(DRFModelViewSet { name })
        } else {
            Err(GenerationError::InvalidName(name))
        }
    }

    /// The viewset class source.
    pub fn code(&self) -> (r: String)
        ensures
            r@ == viewset_text(self@),
    {
        viewset_code(self.name.as_str())
    }
}

} // verus!
