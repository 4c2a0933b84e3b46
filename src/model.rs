//! The Django model synthesizer.

use vstd::prelude::*;

use crate::entity::{
    append_model_lines, entity, field_views, indented, model_lines, resolve_fields, EntityModel,
};
use crate::error::{ErrorModel, GenerationError};
use crate::fields::FieldKind;
use crate::naming::{camel, camel_case, is_valid_name};
use crate::parser::string_views;

verus! {

/// The model class of an entity: a header, a docstring, the three implicit
/// fields, then one declaration per field in input order.
pub open spec fn model_text(e: EntityModel) -> Seq<char> {
    let class_name = camel_case(e.name);
    "class "@ + class_name + "(models.Model):\n"@ + "    \"\"\""@ + class_name + " model\n\n"@
        + "    auto generated code.\n"@ + "    \"\"\"\n"@ + "    id = models.AutoField(primary_key=True, )\n"@
        + "    created_at = models.DateTimeField(editable=False, auto_add=True, )\n"@
        + "    updated_at = models.DateTimeField(editable=False, auto_add_now=True, )\n"@ + indented(
        model_lines(e.fields),
    )
}

/// A Django model: an entity name and its typed fields.
pub struct DjangoModel {
    name: String,
    fields: Vec<FieldKind>,
}

impl View for DjangoModel {
    type V = EntityModel;

    closed spec fn view(&self) -> EntityModel {
        EntityModel { name: self.name@, fields: field_views(self.fields@) }
    }
}

impl DjangoModel {
    /// Checks the name and resolves the field descriptions, failing on the
    /// first error.
    pub fn new(name: String, fields: Vec<String>) -> (r: Result<DjangoModel, GenerationError>)
        ensures
            match r {
                Ok(m) => entity(name@, string_views(fields@)) == Ok::<EntityModel, ErrorModel>(m@),
                Err(e) => entity(name@, string_views(fields@)) == Err::<EntityModel, ErrorModel>(
                    e@,
                ),
            },
    {
        if !is_valid_name(name.as_str()) {
            return Err(GenerationError::InvalidName(name));
        }
        match resolve_fields(&fields) {
            Ok(typed) => Ok(DjangoModel { name, fields: typed }),
            Err(e) => Err(e),
        }
    }

    /// The model class source.
    pub fn code(&self) -> (r: String)
        ensures
            r@ == model_text(self@),
    {
        let class_name = camel(self.name.as_str());
        let mut code = String::from_str("class ");
        code.append(class_name.as_str());
        code.append("(models.Model):\n");
        code.append("    \"\"\"");
        code.append(class_name.as_str());
        code.append(" model\n\n");
        code.append("    auto generated code.\n");
        code.append("    \"\"\"\n");
        code.append("    id = models.AutoField(primary_key=True, )\n");
        code.append("    created_at = models.DateTimeField(editable=False, auto_add=True, )\n");
        code.append("    updated_at = models.DateTimeField(editable=False, auto_add_now=True, )\n");
        append_model_lines(&mut code, &self.fields);
        code
    }
}

} // verus!
