use vstd::prelude::*;

use super::{append_flags, Field, FieldModel};

verus! {

/// An unbounded text column, optionally indexed or unique.
pub struct TextField {
    pub name: String,
    pub index: bool,
    pub unique: bool,
}

impl TextField {
    pub fn new(name: String) -> (r: TextField)
        ensures
            r.model() == (FieldModel::Text { name: name@, index: false, unique: false }),
    {
        TextField { name, index: false, unique: false }
    }

    pub fn set_index(&mut self)
        ensures
            final(self).name == old(self).name,
            final(self).index,
            final(self).unique == old(self).unique,
    {
        self.index = true;
    }

    pub fn set_unique(&mut self)
        ensures
            final(self).name == old(self).name,
            final(self).index == old(self).index,
            final(self).unique,
    {
        self.unique = true;
    }
}

impl Field for TextField {
    open spec fn model(&self) -> FieldModel {
        FieldModel::Text { name: self.name@, index: self.index, unique: self.unique }
    }

    fn model_field_code(&self) -> (r: String) {
        let mut code = self.name.clone();
        code.append(" = models.TextField(");
        append_flags(&mut code, self.index, self.unique);
        code.append(")");
        code
    }

    fn serializer_field_code(&self) -> (r: String) {
        let mut code = self.name.clone();
        code.append(" = serializers.CharField()");
        code
    }
}

} // verus!
