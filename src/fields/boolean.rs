use vstd::prelude::*;

use super::{Field, FieldModel};

verus! {

/// A boolean column with an optional default value.
pub struct BooleanField {
    pub name: String,
    pub default: Option<bool>,
}

impl BooleanField {
    pub fn new(name: String) -> (r: BooleanField)
        ensures
            r.model() == (FieldModel::Boolean { name: name@, default: None }),
    {
        BooleanField { name, default: None }
    }

    pub fn set_default(&mut self, default: bool)
        ensures
            final(self).name == old(self).name,
            final(self).default == Some(default),
    {
        self.default = Some(default);
    }
}

impl Field for BooleanField {
    open spec fn model(&self) -> FieldModel {
        FieldModel::Boolean { name: self.name@, default: self.default }
    }

    fn model_field_code(&self) -> (r: String) {
        let mut code = self.name.clone();
        code.append(" = models.BooleanField(");
        match self.default {
            Some(true) => code.append("default=True, "),
            Some(false) => code.append("default=False, "),
            None => {},
        }
        code.append(")");
        code
    }

    fn serializer_field_code(&self) -> (r: String) {
        let mut code = self.name.clone();
        code.append(" = serializers.BooleanField()");
        code
    }
}

} // verus!
