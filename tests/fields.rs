use django_codegen::{
    match_field, parse_field, BooleanField, CharField, Field, FieldKind, FieldSpec, ForeignKey,
    GenerationError, IntegerField, TextField,
};

#[test]
fn bool_test_char_field() {
    let mut field = BooleanField::new(String::from("name"));
    assert_eq!(
        field.model_field_code(),
        String::from("name = models.BooleanField()")
    );
    field.set_default(true);
    assert_eq!(
        field.model_field_code(),
        String::from("name = models.BooleanField(default=True, )")
    );
    field.set_default(false);
    assert_eq!(
        field.model_field_code(),
        String::from("name = models.BooleanField(default=False, )")
    );
}

#[test]
fn char_test_char_field() {
    let field = CharField {
        name: String::from("name"),
        index: true,
        unique: false,
    };
    assert_eq!(
        field.model_field_code(),
        String::from("name = models.CharField(max_length=200, index=True, )")
    );
}

#[test]
fn test_foreign_key() {
    let field = ForeignKey::new(String::from("owner"), String::from("user")).unwrap();
    assert_eq!(
        field.model_field_code(),
        String::from("owner = models.ForeignKey(\"User\", on_delete=models.CASCADE, )")
    );
}

#[test]
fn test_integer_field() {
    let field = IntegerField {
        name: String::from("age"),
        index: false,
        unique: true,
    };
    assert_eq!(
        field.model_field_code(),
        String::from("age = models.IntegerField(unique=True, )")
    );
}

#[test]
fn test_text_field() {
    let field = TextField {
        name: String::from("name"),
        index: true,
        unique: false,
    };
    assert_eq!(
        field.model_field_code(),
        String::from("name = models.TextField(index=True, )")
    );
}

fn resolve(token: &str) -> Result<FieldKind, GenerationError> {
    let spec = parse_field(token)?;
    match_field(&spec)
}

fn model_line(token: &str) -> String {
    resolve(token).unwrap().model_field_code()
}

fn serializer_line(token: &str) -> String {
    resolve(token).unwrap().serializer_field_code()
}

#[test]
fn parse_name_and_type() {
    let spec = parse_field("name:string").unwrap();
    assert_eq!(spec.name, "name");
    assert_eq!(spec.field_type, "string");
    assert_eq!(spec.modifier, None);
}

#[test]
fn parse_with_modifier() {
    let spec = parse_field("id:string:other").unwrap();
    assert_eq!(spec.name, "id");
    assert_eq!(spec.field_type, "string");
    assert_eq!(spec.modifier, Some(String::from("other")));
}

#[test]
fn parse_rejects_single_segment() {
    assert_eq!(
        parse_field("id").err(),
        Some(GenerationError::InvalidFieldFormat(String::from("id")))
    );
}

#[test]
fn parse_rejects_four_segments() {
    assert_eq!(
        parse_field("a:int:index:x").err(),
        Some(GenerationError::InvalidFieldFormat(String::from("a:int:index:x")))
    );
}

#[test]
fn parse_rejects_empty_name_or_type() {
    assert_eq!(
        parse_field(":int").err(),
        Some(GenerationError::InvalidFieldFormat(String::from(":int")))
    );
    assert_eq!(
        parse_field("age:").err(),
        Some(GenerationError::InvalidFieldFormat(String::from("age:")))
    );
    assert_eq!(
        parse_field("").err(),
        Some(GenerationError::InvalidFieldFormat(String::from("")))
    );
}

#[test]
fn parse_keeps_empty_modifier() {
    let spec = parse_field("age:int:").unwrap();
    assert_eq!(spec.modifier, Some(String::from("")));
    assert_eq!(model_line("age:int:"), "age = models.IntegerField(unique=True, )");
}

#[test]
fn int_with_index_modifier() {
    assert_eq!(model_line("age:int:index"), "age = models.IntegerField(index=True, )");
}

#[test]
fn int_with_other_modifier_is_unique() {
    assert_eq!(
        model_line("age:int:anything-else"),
        "age = models.IntegerField(unique=True, )"
    );
}

#[test]
fn int_without_modifier() {
    assert_eq!(model_line("age:int"), "age = models.IntegerField()");
}

#[test]
fn string_and_text_fields() {
    assert_eq!(
        model_line("title:string"),
        "title = models.CharField(max_length=200, )"
    );
    assert_eq!(
        model_line("card_id:string:unique"),
        "card_id = models.CharField(max_length=200, unique=True, )"
    );
    assert_eq!(model_line("body:text:index"), "body = models.TextField(index=True, )");
    assert_eq!(model_line("body:text"), "body = models.TextField()");
}

#[test]
fn bool_defaults() {
    assert_eq!(
        model_line("flag:bool:false"),
        "flag = models.BooleanField(default=False, )"
    );
    assert_eq!(
        model_line("flag:bool:true"),
        "flag = models.BooleanField(default=True, )"
    );
    assert_eq!(model_line("flag:bool"), "flag = models.BooleanField()");
    assert_eq!(model_line("flag:bool:maybe"), "flag = models.BooleanField()");
}

#[test]
fn reference_renders_camel_case_target() {
    assert_eq!(
        model_line("leader:references:task_manager"),
        "leader = models.ForeignKey(\"TaskManager\", on_delete=models.CASCADE, )"
    );
}

#[test]
fn reference_without_target_fails() {
    assert_eq!(
        resolve("leader:references").err(),
        Some(GenerationError::InvalidFieldFormat(String::from(
            "leader:references"
        )))
    );
}

#[test]
fn foreign_key_rejects_invalid_reference() {
    assert_eq!(
        ForeignKey::new(String::from("o"), String::from("1 x")).err(),
        Some(GenerationError::InvalidName(String::from("1 x")))
    );
}

#[test]
fn reference_to_invalid_name_fails() {
    assert_eq!(
        resolve("leader:references:1user").err(),
        Some(GenerationError::InvalidName(String::from("1user")))
    );
}

#[test]
fn unsupported_type_fails() {
    assert_eq!(
        resolve("ratio:float").err(),
        Some(GenerationError::UnsupportedFieldType(String::from("float")))
    );
    assert_eq!(
        resolve("data:json").err(),
        Some(GenerationError::UnsupportedFieldType(String::from("json")))
    );
}

#[test]
fn serializer_lines_by_kind() {
    assert_eq!(serializer_line("age:int"), "age = serializers.IntegerField()");
    assert_eq!(serializer_line("name:string"), "name = serializers.CharField()");
    assert_eq!(serializer_line("body:text"), "body = serializers.CharField()");
    assert_eq!(serializer_line("ok:bool:true"), "ok = serializers.BooleanField()");
    assert_eq!(
        serializer_line("leader:references:user"),
        "leader = serializers.IntegerField()"
    );
}

#[test]
fn setters_keep_other_flag() {
    let mut field = IntegerField::new(String::from("n"));
    field.set_index();
    field.set_unique();
    assert_eq!(
        field.model_field_code(),
        "n = models.IntegerField(index=True, unique=True, )"
    );
    let mut field = CharField::new(String::from("c"));
    field.set_unique();
    assert_eq!(
        field.model_field_code(),
        "c = models.CharField(max_length=200, unique=True, )"
    );
    let mut field = TextField::new(String::from("t"));
    field.set_unique();
    assert_eq!(field.model_field_code(), "t = models.TextField(unique=True, )");
    let field = ForeignKey::new(String::from("o"), String::from("__user")).unwrap();
    assert_eq!(field.name(), "o");
    assert_eq!(field.reference(), "__user");
    assert_eq!(
        field.model_field_code(),
        "o = models.ForeignKey(\"User\", on_delete=models.CASCADE, )"
    );
}

#[test]
fn match_field_on_built_spec() {
    let spec = FieldSpec {
        name: String::from("flag"),
        field_type: String::from("bool"),
        modifier: Some(String::from("false")),
    };
    assert_eq!(
        match_field(&spec).unwrap().model_field_code(),
        "flag = models.BooleanField(default=False, )"
    );
}
