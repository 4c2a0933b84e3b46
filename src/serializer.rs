//! The serializer synthesizers: a plain serializer with one declaration per
//! field, and a model serializer that lists the field names.

use vstd::prelude::*;

use crate::entity::{
    append_serializer_lines, entity, field_views, indented, resolve_fields, serializer_lines,
    EntityModel,
};
use crate::error::{ErrorModel, GenerationError};
use crate::fields::{FieldKind, FieldModel};
use crate::naming::{camel, camel_case, is_valid_name};
use crate::parser::string_views;

verus! {

/// The serializer class of an entity: a header, a docstring, then one
/// serializer-field declaration per field in input order.
pub open spec fn serializer_text(e: EntityModel) -> Seq<char> {
    let class_name = camel_case(e.name);
    "class "@ + class_name + "Serializer(serializers.Serializer):\n"@ + "    \"\"\""@ + class_name
        + " serializer\n\n"@ + "    auto generated code.\n"@ + "    \"\"\"\n"@ + indented(
        serializer_lines(e.fields),
    )
}

/// A DRF serializer: an entity name and its typed fields.
pub struct DRFSerializer {
    name: String,
    fields: Vec<FieldKind>,
}

impl View for DRFSerializer {
    type V = EntityModel;

    closed spec fn view(&self) -> EntityModel {
        EntityModel { name: self.name@, fields: field_views(self.fields@) }
    }
}

impl DRFSerializer {
    /// Checks the name and resolves the field descriptions, failing on the
    /// first error.
    pub fn new(name: String, fields: Vec<String>) -> (r: Result<DRFSerializer, GenerationError>)
        ensures
            match r {
                Ok(s) => entity(name@, string_views(fields@)) == Ok::<EntityModel, ErrorModel>(s@),
                Err(e) => entity(name@, string_views(fields@)) == Err::<EntityModel, ErrorModel>(
                    e@,
                ),
            },
    {
        if !is_valid_name(name.as_str()) {
            return Err(GenerationError::InvalidName(name));
        }
        match resolve_fields(&fields) {
            Ok(typed) => Ok(DRFSerializer { name, fields: typed }),
            Err(e) => Err(e),
        }
    }

    /// The serializer class source.
    pub fn code(&self) -> (r: String)
        ensures
            r@ == serializer_text(self@),
    {
        let class_name = camel(self.name.as_str());
        let mut code = String::from_str("class ");
        code.append(class_name.as_str());
        code.append("Serializer(serializers.Serializer):\n");
        code.append("    \"\"\"");
        code.append(class_name.as_str());
        code.append(" serializer\n\n");
        code.append("    auto generated code.\n");
        code.append("    \"\"\"\n");
        append_serializer_lines(&mut code, &self.fields);
        code
    }
}

/// The names that a model serializer lists: every declared field name in
/// input order, then the three implicit model fields.
pub open spec fn listed_names(fields: Seq<FieldModel>) -> Seq<Seq<char>> {
    fields.map_values(|f: FieldModel| f.name()) + seq!["id"@, "created_at"@, "updated_at"@]
}

/// The names that a model serializer lists are the declared field names in
/// their order, duplicates included, followed by exactly `id`, `created_at`
/// and `updated_at`.
pub proof fn lemma_listed_names_end_with_implicit(fields: Seq<FieldModel>)
    ensures
        listed_names(fields).len() == fields.len() + 3,
        forall|i: int| 0 <= i < fields.len() ==> #[trigger] listed_names(fields)[i] == fields[i].name(),
        listed_names(fields).subrange(fields.len() as int, fields.len() as int + 3) == seq![
            "id"@,
            "created_at"@,
            "updated_at"@,
        ],
{
    let names = listed_names(fields);
    assert(names.subrange(fields.len() as int, fields.len() as int + 3) =~= seq![
        "id"@,
        "created_at"@,
        "updated_at"@,
    ]);
}

/// Each name quoted and followed by a comma and a space.
pub open spec fn quoted_names(names: Seq<Seq<char>>) -> Seq<char>
    decreases names.len(),
{
    if names.len() == 0 {
        Seq::empty()
    } else {
        quoted_names(names.drop_last()) + "\""@ + names.last() + "\", "@
    }
}

/// The model serializer class of an entity: a header, a docstring, and a
/// `Meta` block naming the model and listing its fields.
pub open spec fn model_serializer_text(e: EntityModel) -> Seq<char> {
    let class_name = camel_case(e.name);
    "class "@ + class_name + "ModelSerializer(serializers.ModelSerializer):\n"@ + "    \"\"\""@
        + class_name + " model serializer\n\n"@ + "    auto generated code.\n"@ + "    \"\"\"\n"@
        + "    class Meta:\n"@ + "        model = "@ + class_name + "\n"@ + "        fields = ("@
        + quoted_names(listed_names(e.fields)) + ")\n"@
}

/// The model serializer source for an entity, or the error that stops it.
pub open spec fn model_serializer_of(name: Seq<char>, tokens: Seq<Seq<char>>) -> Result<
    Seq<char>,
    ErrorModel,
> {
    match entity(name, tokens) {
        Ok(e) => Ok(model_serializer_text(e)),
        Err(e) => Err(e),
    }
}

fn append_quoted(code: &mut String, name: &str)
    ensures
        final(code)@ == old(code)@ + "\""@ + name@ + "\", "@,
{
    code.append("\"");
    code.append(name);
    code.append("\", ");
}

/// Appends the quoted list of the names that a model serializer lists.
fn append_listed_names(code: &mut String, fields: &Vec<FieldKind>)
    ensures
        final(code)@ == old(code)@ + quoted_names(listed_names(field_views(fields@))),
{
    let ghost start = code@;
    let ghost names = listed_names(field_views(fields@));
    let mut i: usize = 0;
    assert(names.take(0) =~= Seq::<Seq<char>>::empty());
    assert(start + quoted_names(names.take(0)) =~= start);
    while i < fields.len()
        invariant
            names == listed_names(field_views(fields@)),
            names.len() == fields.len() + 3,
            i <= fields.len(),
            code@ == start + quoted_names(names.take(i as int)),
        decreases fields.len() - i,
    {
        let name = field_name(&fields[i]);
        append_quoted(code, name);
        assert(names.take(i + 1).drop_last() =~= names.take(i as int));
        assert(names[i as int] == name@);
        assert(code@ =~= start + quoted_names(names.take(i + 1)));
        i = i + 1;
    }
    let n = fields.len();
    append_quoted(code, "id");
    assert(names.take(n + 1).drop_last() =~= names.take(n as int));
    assert(code@ =~= start + quoted_names(names.take(n + 1)));
    append_quoted(code, "created_at");
    assert(names.take(n + 2).drop_last() =~= names.take(n + 1));
    assert(code@ =~= start + quoted_names(names.take(n + 2)));
    append_quoted(code, "updated_at");
    assert(names.take(n + 3).drop_last() =~= names.take(n + 2));
    assert(names.take(n + 3) =~= names);
    assert(code@ =~= start + quoted_names(names));
}

/// The name of a typed field.
pub fn field_name(k: &FieldKind) -> (r: &str)
    ensures
        r@ == k@.name(),
{
    match k {
        FieldKind::Integer(f) => f.name.as_str(),
        FieldKind::Char(f) => f.name.as_str(),
        FieldKind::Text(f) => f.name.as_str(),
        FieldKind::Boolean(f) => f.name.as_str(),
        FieldKind::ForeignKey(f) => f.name(),
    }
}

/// The model serializer source for the entity `name` with typed `fields`.
pub(crate) fn model_serializer_code(name: &str, fields: &Vec<FieldKind>) -> (r: String)
    ensures
        r@ == model_serializer_text(EntityModel { name: name@, fields: field_views(fields@) }),
{
    let class_name = camel(name);
    let mut code = String::from_str("class ");
    code.append(class_name.as_str());
    code.append("ModelSerializer(serializers.ModelSerializer):\n");
    code.append("    \"\"\"");
    code.append(class_name.as_str());
    code.append(" model serializer\n\n");
    code.append("    auto generated code.\n");
    code.append("    \"\"\"\n");
    code.append("    class Meta:\n");
    code.append("        model = ");
    code.append(class_name.as_str());
    code.append("\n");
    code.append("        fields = (");
    append_listed_names(&mut code, fields);
    code.append(")\n");
    code
}

/// The model serializer class for the entity `name` with the field
/// descriptions `fields`. Fails on an invalid name first, then on the first
/// field that does not resolve.
pub fn generate_model_serializer_code(name: &str, fields: &Vec<String>) -> (r: Result<
    String,
    GenerationError,
>)
    ensures
        match r {
            Ok(code) => model_serializer_of(name@, string_views(fields@)) == Ok::<
                Seq<char>,
                ErrorModel,
            >(code@),
            Err(e) => model_serializer_of(name@, string_views(fields@)) == Err::<
                Seq<char>,
                ErrorModel,
            >(e@),
        },
{
    if !is_valid_name(name) {
        return Err(GenerationError::InvalidName(name.to_string()));
    }
    let typed = match resolve_fields(fields) {
        Ok(typed) => typed,
        Err(e) => return Err(e),
    };
    Ok(model_serializer_code(name, &typed))
}

} // verus!
