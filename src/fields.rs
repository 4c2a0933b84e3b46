//! Field descriptions: their grammar, the typed fields they resolve to, and
//! how each typed field is rendered.

pub mod boolean;
pub mod chars;
pub mod foreign;
pub mod integer;
pub mod text;

use vstd::prelude::*;

use crate::error::{ErrorModel, GenerationError};
use crate::naming::{camel_case, is_identifier};
use crate::parser::{option_view, parse_field, parse_spec, FieldSpec, FieldSpecModel};
use crate::text::str_eq;

pub use self::boolean::BooleanField;
pub use self::chars::CharField;
pub use self::foreign::ForeignKey;
pub use self::integer::IntegerField;
pub use self::text::TextField;

verus! {

/// A typed field, as the contracts see it.
pub enum FieldModel {
    Integer { name: Seq<char>, index: bool, unique: bool },
    Char { name: Seq<char>, index: bool, unique: bool },
    Text { name: Seq<char>, index: bool, unique: bool },
    Boolean { name: Seq<char>, default: Option<bool> },
    ForeignKey { name: Seq<char>, reference: Seq<char> },
}

impl FieldModel {
    pub open spec fn name(self) -> Seq<char> {
        match self {
            FieldModel::Integer { name, .. } => name,
            FieldModel::Char { name, .. } => name,
            FieldModel::Text { name, .. } => name,
            FieldModel::Boolean { name, .. } => name,
            FieldModel::ForeignKey { name, .. } => name,
        }
    }
}

/// The keyword arguments that the index and unique flags add, index first.
pub open spec fn flags_text(index: bool, unique: bool) -> Seq<char> {
    (if index {
        "index=True, "@
    } else {
        Seq::empty()
    }) + (if unique {
        "unique=True, "@
    } else {
        Seq::empty()
    })
}

/// The keyword argument that a boolean default adds.
pub open spec fn default_text(default: Option<bool>) -> Seq<char> {
    match default {
        Some(true) => "default=True, "@,
        Some(false) => "default=False, "@,
        None => Seq::empty(),
    }
}

/// The model-field declaration of a field.
pub open spec fn model_line(f: FieldModel) -> Seq<char> {
    match f {
        FieldModel::Integer { name, index, unique } => name + " = models.IntegerField("@
            + flags_text(index, unique) + ")"@,
        FieldModel::Char { name, index, unique } => name + " = models.CharField(max_length=200, "@
            + flags_text(index, unique) + ")"@,
        FieldModel::Text { name, index, unique } => name + " = models.TextField("@ + flags_text(
            index,
            unique,
        ) + ")"@,
        FieldModel::Boolean { name, default } => name + " = models.BooleanField("@ + default_text(
            default,
        ) + ")"@,
        FieldModel::ForeignKey { name, reference } => name + " = models.ForeignKey(\""@
            + camel_case(reference) + "\", on_delete=models.CASCADE, )"@,
    }
}

/// The serializer-field declaration of a field; a foreign key is serialized
/// by its numeric id.
pub open spec fn serializer_line(f: FieldModel) -> Seq<char> {
    match f {
        FieldModel::Integer { name, .. } => name + " = serializers.IntegerField()"@,
        FieldModel::Char { name, .. } => name + " = serializers.CharField()"@,
        FieldModel::Text { name, .. } => name + " = serializers.CharField()"@,
        FieldModel::Boolean { name, .. } => name + " = serializers.BooleanField()"@,
        FieldModel::ForeignKey { name, .. } => name + " = serializers.IntegerField()"@,
    }
}

/// A field that can render itself as a model field and as a serializer field.
pub trait Field {
    spec fn model(&self) -> FieldModel;

    fn model_field_code(&self) -> (r: String)
        ensures
            r@ == model_line(self.model()),
    ;

    fn serializer_field_code(&self) -> (r: String)
        ensures
            r@ == serializer_line(self.model()),
    ;
}

/// One typed field of an entity.
pub enum FieldKind {
    Integer(IntegerField),
    Char(CharField),
    Text(TextField),
    Boolean(BooleanField),
    ForeignKey(ForeignKey),
}

impl View for FieldKind {
    type V = FieldModel;

    open spec fn view(&self) -> FieldModel {
        match self {
            FieldKind::Integer(f) => f.model(),
            FieldKind::Char(f) => f.model(),
            FieldKind::Text(f) => f.model(),
            FieldKind::Boolean(f) => f.model(),
            FieldKind::ForeignKey(f) => f.model(),
        }
    }
}

impl Field for FieldKind {
    open spec fn model(&self) -> FieldModel {
        self@
    }

    fn model_field_code(&self) -> (r: String) {
        match self {
            FieldKind::Integer(f) => f.model_field_code(),
            FieldKind::Char(f) => f.model_field_code(),
            FieldKind::Text(f) => f.model_field_code(),
            FieldKind::Boolean(f) => f.model_field_code(),
            FieldKind::ForeignKey(f) => f.model_field_code(),
        }
    }

    fn serializer_field_code(&self) -> (r: String) {
        match self {
            FieldKind::Integer(f) => f.serializer_field_code(),
            FieldKind::Char(f) => f.serializer_field_code(),
            FieldKind::Text(f) => f.serializer_field_code(),
            FieldKind::Boolean(f) => f.serializer_field_code(),
            FieldKind::ForeignKey(f) => f.serializer_field_code(),
        }
    }
}

/// The index flag that a modifier sets on an integer or text column.
pub open spec fn index_flag(modifier: Option<Seq<char>>) -> bool {
    modifier == Some("index"@)
}

/// Any modifier other than `index` asks for a unique column.
pub open spec fn unique_flag(modifier: Option<Seq<char>>) -> bool {
    modifier is Some && modifier != Some("index"@)
}

/// The default that a modifier sets on a boolean column; other words are ignored.
pub open spec fn default_flag(modifier: Option<Seq<char>>) -> Option<bool> {
    if modifier == Some("true"@) {
        Some(true)
    } else if modifier == Some("false"@) {
        Some(false)
    } else {
        None
    }
}

/// The type words that the registry knows.
pub open spec fn is_known_type(t: Seq<char>) -> bool {
    t == "int"@ || t == "string"@ || t == "text"@ || t == "bool"@ || t == "references"@
}

/// The typed field that a field description stands for.
pub open spec fn resolve(spec: FieldSpecModel) -> Result<FieldModel, ErrorModel> {
    let name = spec.name;
    let t = spec.field_type;
    let m = spec.modifier;
    if t == "int"@ {
        Ok(FieldModel::Integer { name, index: index_flag(m), unique: unique_flag(m) })
    } else if t == "string"@ {
        Ok(FieldModel::Char { name, index: index_flag(m), unique: unique_flag(m) })
    } else if t == "text"@ {
        Ok(FieldModel::Text { name, index: index_flag(m), unique: unique_flag(m) })
    } else if t == "bool"@ {
        Ok(FieldModel::Boolean { name, default: default_flag(m) })
    } else if t == "references"@ {
        match m {
            Some(reference) => if is_identifier(reference) {
                Ok(FieldModel::ForeignKey { name, reference })
            } else {
                Err(ErrorModel::InvalidName(reference))
            },
            None => Err(ErrorModel::InvalidFieldFormat(name + ":"@ + t)),
        }
    } else {
        Err(ErrorModel::UnsupportedFieldType(t))
    }
}

/// The typed field that a raw field description stands for.
pub open spec fn field_of(token: Seq<char>) -> Result<FieldModel, ErrorModel> {
    match parse_spec(token) {
        Ok(spec) => resolve(spec),
        Err(e) => Err(e),
    }
}

fn modifier_flags(modifier: &Option<String>) -> (r: (bool, bool))
    ensures
        r.0 == index_flag(option_view(*modifier)),
        r.1 == unique_flag(option_view(*modifier)),
{
    match modifier {
        Some(m) => if str_eq(m.as_str(), "index") {
            (true, false)
        } else {
            (false, true)
        },
        None => (false, false),
    }
}

/// Resolves a field description into a typed field. A modifier `index` makes
/// an integer or text column indexed, any other one makes it unique; `true`
/// and `false` set a boolean default. A reference needs its target as third
/// segment, and that target must be an identifier.
pub fn match_field(spec: &FieldSpec) -> (r: Result<FieldKind, GenerationError>)
    ensures
        match r {
            Ok(k) => resolve(spec@) == Ok::<FieldModel, ErrorModel>(k@),
            Err(e) => resolve(spec@) == Err::<FieldModel, ErrorModel>(e@),
        },
{
    let name = spec.name.clone();
    let t = spec.field_type.as_str();
    if str_eq(t, "int") || str_eq(t, "string") || str_eq(t, "text") {
        let (index, unique) = modifier_flags(&spec.modifier);
        if str_eq(t, "int") {
            let mut f = IntegerField::new(name);
            if index {
                f.set_index();
            }
            if unique {
                f.set_unique();
            }
            Ok(FieldKind::Integer(f))
        } else if str_eq(t, "string") {
            let mut f = CharField::new(name);
            if index {
                f.set_index();
            }
            if unique {
                f.set_unique();
            }
            Ok(FieldKind::Char(f))
        } else {
            let mut f = TextField::new(name);
            if index {
                f.set_index();
            }
            if unique {
                f.set_unique();
            }
            Ok(FieldKind::Text(f))
        }
    } else if str_eq(t, "bool") {
        let mut f = BooleanField::new(name);
        match &spec.modifier {
            Some(m) => if str_eq(m.as_str(), "true") {
                f.set_default(true);
            } else if str_eq(m.as_str(), "false") {
                f.set_default(false);
            },
            None => {},
        }
        Ok(FieldKind::Boolean(f))
    } else if str_eq(t, "references") {
        match &spec.modifier {
            Some(reference) => match ForeignKey::new(name, reference.clone()) {
                Ok(f) => Ok(FieldKind::ForeignKey(f)),
                Err(e) => Err(e),
            },
            None => {
                let mut token = name;
                token.append(":");
                token.append(t);
                Err(GenerationError::InvalidFieldFormat(token))
            },
        }
    } else {
        Err(GenerationError::UnsupportedFieldType(spec.field_type.clone()))
    }
}

/// Parses and resolves one raw field description.
pub fn resolve_field(token: &str) -> (r: Result<FieldKind, GenerationError>)
    ensures
        match r {
            Ok(k) => field_of(token@) == Ok::<FieldModel, ErrorModel>(k@),
            Err(e) => field_of(token@) == Err::<FieldModel, ErrorModel>(e@),
        },
{
    match parse_field(token) {
        Ok(spec) => match_field(&spec),
        Err(e) => Err(e),
    }
}

/// Appends the index and unique keyword arguments.
pub(crate) fn append_flags(code: &mut String, index: bool, unique: bool)
    ensures
        final(code)@ == old(code)@ + flags_text(index, unique),
{
    let ghost start = code@;
    if index {
        code.append("index=True, ");
    }
    if unique {
        code.append("unique=True, ");
    }
    assert(code@ =~= start + flags_text(index, unique));
}

} // verus!
