//! The viewset synthesizer: a model viewset whose operations delegate to the
//! base class.

use vstd::prelude::*;

use crate::error::{ErrorModel, GenerationError};
use crate::naming::{camel, camel_case, is_identifier, is_valid_name};

verus! {

/// A method that documents the operation and delegates it to the base class.
pub open spec fn method_stub(method: Seq<char>, name: Seq<char>) -> Seq<char> {
    "    def "@ + method + "(self, request, *args, **kwargs):\n"@ + "        \"\"\""@ + method
        + " "@ + name + "\n"@ + "        \"\"\"\n"@ + "        return super()."@ + method
        + "(request, *args, **kwargs)\n\n"@
}

/// The viewset class source for the entity `name`: a docstring, the query set,
/// the serializer class, then the list, retrieve, update and destroy methods.
pub open spec fn viewset_text(name: Seq<char>) -> Seq<char> {
    let class_name = camel_case(name);
    "\nclass "@ + class_name + "ModelViewSet(viewsets.ModelViewSet):\n"@ + "    \"\"\""@
        + class_name + " model viewset\n\n"@ + "    auto generated code.\n"@ + "    \"\"\"\n"@
        + "    queryset = "@ + class_name + ".objects.all()\n"@ + "    serializer_class = "@
        + class_name + "ModelSerializer\n\n"@ + method_stub("list"@, name) + method_stub(
        "retrieve"@,
        name,
    ) + method_stub("update"@, name) + method_stub("destroy"@, name)
}

fn append_method_stub(code: &mut String, method: &str, name: &str)
    ensures
        final(code)@ == old(code)@ + method_stub(method@, name@),
{
    let ghost start = code@;
    code.append("    def ");
    code.append(method);
    code.append("(self, request, *args, **kwargs):\n");
    code.append("        \"\"\"");
    code.append(method);
    code.append(" ");
    code.append(name);
    code.append("\n");
    code.append("        \"\"\"\n");
    code.append("        return super().");
    code.append(method);
    code.append("(request, *args, **kwargs)\n\n");
    assert(code@ =~= start + method_stub(method@, name@));
}

/// The viewset class source for the entity `name`.
pub(crate) fn viewset_code(name: &str) -> (r: String)
    ensures
        r@ == viewset_text(name@),
{
    let class_name = camel(name);
    let mut code = String::from_str("\nclass ");
    code.append(class_name.as_str());
    code.append("ModelViewSet(viewsets.ModelViewSet):\n");
    code.append("    \"\"\"");
    code.append(class_name.as_str());
    code.append(" model viewset\n\n");
    code.append("    auto generated code.\n");
    code.append("    \"\"\"\n");
    code.append("    queryset = ");
    code.append(class_name.as_str());
    code.append(".objects.all()\n");
    code.append("    serializer_class = ");
    code.append(class_name.as_str());
    code.append("ModelSerializer\n\n");
    append_method_stub(&mut code, "list", name);
    append_method_stub(&mut code, "retrieve", name);
    append_method_stub(&mut code, "update", name);
    append_method_stub(&mut code, "destroy", name);
    code
}

/// Generator of DRF viewset classes.
pub struct Generator;

impl Generator {
    pub fn new() -> Generator {
        Generator
    }

    /// The model viewset source for the entity `name`. Fails with
    /// `InvalidName` where `name` is not an identifier.
    pub fn generate_model_viewset_code(&self, name: &str) -> (r: Result<String, GenerationError>)
        ensures
            match r {
                Ok(code) => is_identifier(name@) && code@ == viewset_text(name@),
                Err(e) => !is_identifier(name@) && e@ == ErrorModel::InvalidName(name@),
            },
    {
        if !is_valid_name(name) {
            return Err(GenerationError::InvalidName(name.to_string()));
        }
        Ok(viewset_code(name))
    }
}

} // verus!
