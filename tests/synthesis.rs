use django_codegen::{
    generate_model_serializer_code, run_generator, Component, DRFModelSerializer,
    DRFModelViewSet, DRFSerializer, DjangoModel, GenerationError, Generator,
};

fn person_fields() -> Vec<String> {
    vec![
        String::from("name:string:index"),
        String::from("age:int"),
        String::from("leader:references:user"),
        String::from("card_id:string:unique"),
        String::from("can_swim:bool:false"),
    ]
}

const PERSON_MODEL: &str = "class Person(models.Model):
    \"\"\"Person model

    auto generated code.
    \"\"\"
    id = models.AutoField(primary_key=True, )
    created_at = models.DateTimeField(editable=False, auto_add=True, )
    updated_at = models.DateTimeField(editable=False, auto_add_now=True, )
    name = models.CharField(max_length=200, index=True, )
    age = models.IntegerField()
    leader = models.ForeignKey(\"User\", on_delete=models.CASCADE, )
    card_id = models.CharField(max_length=200, unique=True, )
    can_swim = models.BooleanField(default=False, )
";

const USER_VIEWSET: &str = "
class UserModelViewSet(viewsets.ModelViewSet):
    \"\"\"User model viewset

    auto generated code.
    \"\"\"
    queryset = User.objects.all()
    serializer_class = UserModelSerializer

    def list(self, request, *args, **kwargs):
        \"\"\"list user
        \"\"\"
        return super().list(request, *args, **kwargs)

    def retrieve(self, request, *args, **kwargs):
        \"\"\"retrieve user
        \"\"\"
        return super().retrieve(request, *args, **kwargs)

    def update(self, request, *args, **kwargs):
        \"\"\"update user
        \"\"\"
        return super().update(request, *args, **kwargs)

    def destroy(self, request, *args, **kwargs):
        \"\"\"destroy user
        \"\"\"
        return super().destroy(request, *args, **kwargs)

";

#[test]
fn test_django_model() {
    let fields = vec![
        String::from("name:string:index"),
        String::from("age:int"),
        String::from("leader:references:user"),
        String::from("card_id:string:unique"),
        String::from("can_swim:bool:false"),
    ];
    let model = DjangoModel::new(String::from("person"), fields).unwrap();
    let want = String::from(
        "class Person(models.Model):
    \"\"\"Person model

    auto generated code.
    \"\"\"
    id = models.AutoField(primary_key=True, )
    created_at = models.DateTimeField(editable=False, auto_add=True, )
    updated_at = models.DateTimeField(editable=False, auto_add_now=True, )
    name = models.CharField(max_length=200, index=True, )
    age = models.IntegerField()
    leader = models.ForeignKey(\"User\", on_delete=models.CASCADE, )
    card_id = models.CharField(max_length=200, unique=True, )
    can_swim = models.BooleanField(default=False, )
",
    );
    assert_eq!(want, model.code());
}

#[test]
fn test_drf_model_serializer() {
    let viewset = DRFModelSerializer::new(String::from("user")).unwrap();
    let want = String::from(
        "class UserModelSerializer(serializers.ModelSerializer):
    \"\"\"User model serializer

    auto generated code.
    \"\"\"
    class Meta:
        model = User
        fields = (\"id\", \"created_at\", \"updated_at\", )
",
    );
    assert_eq!(want, viewset.code());
}

#[test]
fn test_drf_model_viewset() {
    let viewset = DRFModelViewSet::new(String::from("user")).unwrap();
    let want = String::from(USER_VIEWSET);
    assert_eq!(want, viewset.code());
}

#[test]
fn test_drf_serializer() {
    let fields = vec![
        String::from("name:string:index"),
        String::from("age:int"),
        String::from("leader:references:user"),
        String::from("card_id:string:unique"),
        String::from("can_swim:bool:false"),
    ];
    let serializer = DRFSerializer::new(String::from("person"), fields).unwrap();
    let want = String::from(
        "class PersonSerializer(serializers.Serializer):
    \"\"\"Person serializer

    auto generated code.
    \"\"\"
    name = serializers.CharField()
    age = serializers.IntegerField()
    leader = serializers.IntegerField()
    card_id = serializers.CharField()
    can_swim = serializers.BooleanField()
",
    );
    assert_eq!(want, serializer.code());
}

#[test]
fn model_without_fields_has_implicit_fields_only() {
    let model = DjangoModel::new(String::from("task_manager"), vec![]).unwrap();
    assert_eq!(
        model.code(),
        "class TaskManager(models.Model):
    \"\"\"TaskManager model

    auto generated code.
    \"\"\"
    id = models.AutoField(primary_key=True, )
    created_at = models.DateTimeField(editable=False, auto_add=True, )
    updated_at = models.DateTimeField(editable=False, auto_add_now=True, )
"
    );
}

#[test]
fn model_keeps_duplicate_fields() {
    let model = DjangoModel::new(
        String::from("a"),
        vec![String::from("x:int"), String::from("x:int")],
    )
    .unwrap();
    assert!(model
        .code()
        .ends_with("    x = models.IntegerField()\n    x = models.IntegerField()\n"));
}

#[test]
fn model_rejects_invalid_name_first() {
    let err = DjangoModel::new(String::from("0a"), vec![String::from("x:float")]).err();
    assert_eq!(err, Some(GenerationError::InvalidName(String::from("0a"))));
}

#[test]
fn model_reports_first_bad_field() {
    let err = DjangoModel::new(
        String::from("a"),
        vec![
            String::from("x:int"),
            String::from("y"),
            String::from("z:float"),
        ],
    )
    .err();
    assert_eq!(
        err,
        Some(GenerationError::InvalidFieldFormat(String::from("y")))
    );
}

#[test]
fn serializer_rejects_unsupported_type() {
    let err = DRFSerializer::new(
        String::from("a"),
        vec![String::from("x:int"), String::from("ratio:float")],
    )
    .err();
    assert_eq!(
        err,
        Some(GenerationError::UnsupportedFieldType(String::from("float")))
    );
}

#[test]
fn plain_serializer_and_viewset_reject_invalid_names() {
    assert_eq!(
        DRFModelSerializer::new(String::from("a-b")).err(),
        Some(GenerationError::InvalidName(String::from("a-b")))
    );
    assert_eq!(
        DRFModelViewSet::new(String::from("")).err(),
        Some(GenerationError::InvalidName(String::from("")))
    );
}

#[test]
fn model_serializer_lists_fields_then_implicit_ones() {
    let code = generate_model_serializer_code("person", &person_fields()).unwrap();
    assert_eq!(
        code,
        "class PersonModelSerializer(serializers.ModelSerializer):
    \"\"\"Person model serializer

    auto generated code.
    \"\"\"
    class Meta:
        model = Person
        fields = (\"name\", \"age\", \"leader\", \"card_id\", \"can_swim\", \"id\", \"created_at\", \"updated_at\", )
"
    );
}

#[test]
fn model_serializer_keeps_order_and_duplicates() {
    let fields = vec![
        String::from("b:int"),
        String::from("a:bool"),
        String::from("b:int"),
    ];
    let code = generate_model_serializer_code("x", &fields).unwrap();
    assert!(code.ends_with(
        "        fields = (\"b\", \"a\", \"b\", \"id\", \"created_at\", \"updated_at\", )\n"
    ));
    let code = generate_model_serializer_code("x", &vec![]).unwrap();
    assert!(code.ends_with("        fields = (\"id\", \"created_at\", \"updated_at\", )\n"));
}

#[test]
fn model_serializer_rejects_unsupported_type() {
    assert_eq!(
        generate_model_serializer_code("x", &vec![String::from("r:float")]),
        Err(GenerationError::UnsupportedFieldType(String::from("float")))
    );
}

#[test]
fn viewset_generator_output() {
    let generator = Generator::new();
    assert_eq!(
        generator.generate_model_viewset_code("user"),
        Ok(String::from(USER_VIEWSET))
    );
}

#[test]
fn viewset_generator_rejects_invalid_name() {
    assert_eq!(
        Generator::new().generate_model_viewset_code("9lives"),
        Err(GenerationError::InvalidName(String::from("9lives")))
    );
}

#[test]
fn run_generator_model_end_to_end() {
    assert_eq!(
        run_generator(Component::Model, String::from("person"), person_fields()),
        Ok(String::from(PERSON_MODEL))
    );
}

#[test]
fn run_generator_each_component() {
    let serializer = run_generator(Component::Serializer, String::from("person"), person_fields())
        .unwrap();
    assert!(serializer.starts_with("class PersonSerializer(serializers.Serializer):\n"));
    let model_serializer = run_generator(
        Component::ModelSerializer,
        String::from("person"),
        person_fields(),
    )
    .unwrap();
    assert!(model_serializer.starts_with("class PersonModelSerializer("));
    assert_eq!(
        run_generator(Component::ModelViewset, String::from("user"), vec![]),
        Ok(String::from(USER_VIEWSET))
    );
}

#[test]
fn run_generator_unsupported_type_gives_no_text() {
    for component in [
        Component::Model,
        Component::Serializer,
        Component::ModelSerializer,
    ] {
        assert_eq!(
            run_generator(
                component,
                String::from("person"),
                vec![String::from("age:int"), String::from("ratio:float")],
            ),
            Err(GenerationError::UnsupportedFieldType(String::from("float")))
        );
    }
}
