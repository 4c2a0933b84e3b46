//! An entity: its name and the typed fields that its raw field descriptions
//! resolve to, and the text pieces that several synthesizers share.

use vstd::prelude::*;

use crate::error::{ErrorModel, GenerationError};
use crate::fields::{field_of, model_line, resolve_field, serializer_line, Field, FieldKind, FieldModel};
use crate::naming::is_identifier;
use crate::parser::string_views;

verus! {

/// What an entity holds, as the contracts see it.
pub struct EntityModel {
    pub name: Seq<char>,
    pub fields: Seq<FieldModel>,
}

pub open spec fn field_views(v: Seq<FieldKind>) -> Seq<FieldModel> {
    v.map_values(|k: FieldKind| k@)
}

/// The typed fields of `tokens` in order, or the error of the first one that fails.
pub open spec fn resolve_all(tokens: Seq<Seq<char>>) -> Result<Seq<FieldModel>, ErrorModel>
    decreases tokens.len(),
{
    if tokens.len() == 0 {
        Ok(Seq::empty())
    } else {
        match resolve_all(tokens.drop_last()) {
            Ok(fs) => match field_of(tokens.last()) {
                Ok(f) => Ok(fs.push(f)),
                Err(e) => Err(e),
            },
            Err(e) => Err(e),
        }
    }
}

/// The entity named `name` with fields `tokens`: the name is checked first,
/// then each field in order.
pub open spec fn entity(name: Seq<char>, tokens: Seq<Seq<char>>) -> Result<EntityModel, ErrorModel> {
    if !is_identifier(name) {
        Err(ErrorModel::InvalidName(name))
    } else {
        match resolve_all(tokens) {
            Ok(fields) => Ok(EntityModel { name, fields }),
            Err(e) => Err(e),
        }
    }
}

/// Once a prefix of the tokens fails, the whole list fails with its error.
pub proof fn lemma_prefix_error_persists(tokens: Seq<Seq<char>>, i: int)
    requires
        0 <= i <= tokens.len(),
        resolve_all(tokens.take(i)) is Err,
    ensures
        resolve_all(tokens) == resolve_all(tokens.take(i)),
    decreases tokens.len(),
{
    if i == tokens.len() {
        assert(tokens.take(i) =~= tokens);
    } else {
        assert(tokens.drop_last().take(i) =~= tokens.take(i));
        lemma_prefix_error_persists(tokens.drop_last(), i);
    }
}

/// Fields keep the order and the number of their descriptions: nothing is
/// reordered, merged or dropped.
pub proof fn lemma_fields_in_input_order(tokens: Seq<Seq<char>>)
    requires
        resolve_all(tokens) is Ok,
    ensures
        resolve_all(tokens)->Ok_0.len() == tokens.len(),
        forall|i: int|
            0 <= i < tokens.len() ==> field_of(#[trigger] tokens[i]) == Ok::<FieldModel, ErrorModel>(
                resolve_all(tokens)->Ok_0[i],
            ),
    decreases tokens.len(),
{
    if tokens.len() > 0 {
        let prev = tokens.drop_last();
        lemma_fields_in_input_order(prev);
        assert forall|i: int| 0 <= i < tokens.len() implies field_of(#[trigger] tokens[i]) == Ok::<
            FieldModel,
            ErrorModel,
        >(resolve_all(tokens)->Ok_0[i]) by {
            if i < tokens.len() - 1 {
                assert(tokens[i] == prev[i]);
            }
        }
    }
}

/// A field description that fails makes the whole list fail: no partial
/// result is ever produced.
pub proof fn lemma_failing_field_fails_all(tokens: Seq<Seq<char>>, i: int)
    requires
        0 <= i < tokens.len(),
        field_of(tokens[i]) is Err,
    ensures
        resolve_all(tokens) is Err,
    decreases tokens.len(),
{
    if i < tokens.len() - 1 {
        assert(tokens.drop_last()[i] == tokens[i]);
        lemma_failing_field_fails_all(tokens.drop_last(), i);
    }
}

/// Where every description before position `i` resolves, the list fails
/// exactly when the one at `i` fails, and with its error.
pub proof fn lemma_first_failure_reported(tokens: Seq<Seq<char>>, i: int)
    requires
        0 <= i < tokens.len(),
        forall|j: int| 0 <= j < i ==> field_of(#[trigger] tokens[j]) is Ok,
        field_of(tokens[i]) is Err,
    ensures
        resolve_all(tokens) == Err::<Seq<FieldModel>, ErrorModel>(field_of(tokens[i])->Err_0),
{
    lemma_prefix_resolves(tokens.take(i));
    assert(tokens.take(i + 1).drop_last() =~= tokens.take(i));
    lemma_prefix_error_persists(tokens, i + 1);
}

proof fn lemma_prefix_resolves(tokens: Seq<Seq<char>>)
    requires
        forall|j: int| 0 <= j < tokens.len() ==> field_of(#[trigger] tokens[j]) is Ok,
    ensures
        resolve_all(tokens) is Ok,
    decreases tokens.len(),
{
    if tokens.len() > 0 {
        let prev = tokens.drop_last();
        assert forall|j: int| 0 <= j < prev.len() implies field_of(#[trigger] prev[j]) is Ok by {
            assert(prev[j] == tokens[j]);
        }
        lemma_prefix_resolves(prev);
    }
}

/// Parses and resolves every field description, stopping at the first failure.
pub fn resolve_fields(tokens: &Vec<String>) -> (r: Result<Vec<FieldKind>, GenerationError>)
    ensures
        match r {
            Ok(v) => resolve_all(string_views(tokens@)) == Ok::<Seq<FieldModel>, ErrorModel>(
                field_views(v@),
            ),
            Err(e) => resolve_all(string_views(tokens@)) == Err::<Seq<FieldModel>, ErrorModel>(
                e@,
            ),
        },
{
    let ghost all = string_views(tokens@);
    let mut out: Vec<FieldKind> = Vec::new();
    let mut i: usize = 0;
    assert(all.take(0) =~= Seq::<Seq<char>>::empty());
    assert(field_views(out@) =~= Seq::<FieldModel>::empty());
    while i < tokens.len()
        invariant
            all == string_views(tokens@),
            i <= tokens.len(),
            resolve_all(all.take(i as int)) == Ok::<Seq<FieldModel>, ErrorModel>(field_views(out@)),
        decreases tokens.len() - i,
    {
        assert(all.take(i + 1).drop_last() =~= all.take(i as int));
        assert(all.take(i + 1).last() == tokens@[i as int]@);
        match resolve_field(tokens[i].as_str()) {
            Ok(k) => {
                let ghost before = out@;
                out.push(k);
                assert(field_views(out@) =~= field_views(before).push(k@));
            },
            Err(e) => {
                proof {
                    lemma_prefix_error_persists(all, i + 1);
                }
                return Err(e);
            },
        }
        i = i + 1;
    }
    assert(all.take(i as int) =~= all);
    Ok(out)
}

/// The lines of a class body: each indented by four spaces and ended by a newline.
pub open spec fn indented(lines: Seq<Seq<char>>) -> Seq<char>
    decreases lines.len(),
{
    if lines.len() == 0 {
        Seq::empty()
    } else {
        indented(lines.drop_last()) + "    "@ + lines.last() + "\n"@
    }
}

pub open spec fn model_lines(fields: Seq<FieldModel>) -> Seq<Seq<char>> {
    fields.map_values(|f: FieldModel| model_line(f))
}

pub open spec fn serializer_lines(fields: Seq<FieldModel>) -> Seq<Seq<char>> {
    fields.map_values(|f: FieldModel| serializer_line(f))
}

/// Appends the model-field declaration of each field, one per line.
pub fn append_model_lines(code: &mut String, fields: &Vec<FieldKind>)
    ensures
        final(code)@ == old(code)@ + indented(model_lines(field_views(fields@))),
{
    let ghost start = code@;
    let ghost lines = model_lines(field_views(fields@));
    let mut i: usize = 0;
    assert(lines.take(0) =~= Seq::<Seq<char>>::empty());
    assert(start + indented(lines.take(0)) =~= start);
    while i < fields.len()
        invariant
            lines == model_lines(field_views(fields@)),
            lines.len() == fields.len(),
            i <= fields.len(),
            code@ == start + indented(lines.take(i as int)),
        decreases fields.len() - i,
    {
        let line = fields[i].model_field_code();
        code.append("    ");
        code.append(line.as_str());
        code.append("\n");
        assert(lines.take(i + 1).drop_last() =~= lines.take(i as int));
        assert(lines[i as int] == line@);
        assert(code@ =~= start + indented(lines.take(i + 1)));
        i = i + 1;
    }
    assert(lines.take(i as int) =~= lines);
}

/// Appends the serializer-field declaration of each field, one per line.
pub fn append_serializer_lines(code: &mut String, fields: &Vec<FieldKind>)
    ensures
        final(code)@ == old(code)@ + indented(serializer_lines(field_views(fields@))),
{
    let ghost start = code@;
    let ghost lines = serializer_lines(field_views(fields@));
    let mut i: usize = 0;
    assert(lines.take(0) =~= Seq::<Seq<char>>::empty());
    assert(start + indented(lines.take(0)) =~= start);
    while i < fields.len()
        invariant
            lines == serializer_lines(field_views(fields@)),
            lines.len() == fields.len(),
            i <= fields.len(),
            code@ == start + indented(lines.take(i as int)),
        decreases fields.len() - i,
    {
        let line = fields[i].serializer_field_code();
        code.append("    ");
        code.append(line.as_str());
        code.append("\n");
        assert(lines.take(i + 1).drop_last() =~= lines.take(i as int));
        assert(lines[i as int] == line@);
        assert(code@ =~= start + indented(lines.take(i + 1)));
        i = i + 1;
    }
    assert(lines.take(i as int) =~= lines);
}

} // verus!
