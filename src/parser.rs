//! The field grammar: `name:type` or `name:type:modifier`.

use vstd::prelude::*;

use crate::error::{ErrorModel, GenerationError};

verus! {

/// A field description split into its segments.
pub struct FieldSpec {
    pub name: String,
    pub field_type: String,
    pub modifier: Option<String>,
}

/// What a [`FieldSpec`] holds, as sequences of characters.
pub struct FieldSpecModel {
    pub name: Seq<char>,
    pub field_type: Seq<char>,
    pub modifier: Option<Seq<char>>,
}

pub open spec fn option_view(o: Option<String>) -> Option<Seq<char>> {
    match o {
        Some(s) => Some(s@),
        None => None,
    }
}

impl View for FieldSpec {
    type V = FieldSpecModel;

    open spec fn view(&self) -> FieldSpecModel {
        FieldSpecModel {
            name: self.name@,
            field_type: self.field_type@,
            modifier: option_view(self.modifier),
        }
    }
}

/// The pieces of `s` between colons, in order; there is always at least one.
pub open spec fn split_colons(s: Seq<char>) -> Seq<Seq<char>>
    decreases s.len(),
{
    if s.len() == 0 {
        seq![Seq::empty()]
    } else {
        let prev = split_colons(s.drop_last());
        if s.last() == ':' {
            prev.push(Seq::empty())
        } else {
            prev.update(prev.len() - 1, prev.last().push(s.last()))
        }
    }
}

/// The field description that `token` holds: two or three segments, of which
/// the name and the type are not empty.
pub open spec fn parse_spec(token: Seq<char>) -> Result<FieldSpecModel, ErrorModel> {
    let segs = split_colons(token);
    if (segs.len() == 2 || segs.len() == 3) && segs[0].len() > 0 && segs[1].len() > 0 {
        Ok(
            FieldSpecModel {
                name: segs[0],
                field_type: segs[1],
                modifier: if segs.len() == 3 {
                    Some(segs[2])
                } else {
                    None
                },
            },
        )
    } else {
        Err(ErrorModel::InvalidFieldFormat(token))
    }
}

pub open spec fn string_views(v: Seq<String>) -> Seq<Seq<char>> {
    v.map_values(|s: String| s@)
}

/// Splits `token` at every colon.
pub fn split_segments(token: &str) -> (r: Vec<String>)
    ensures
        string_views(r@) == split_colons(token@),
{
    let n = token.unicode_len();
    let mut segs: Vec<String> = Vec::new();
    let mut start: usize = 0;
    let mut i: usize = 0;
    assert(token@.subrange(0, 0) =~= Seq::<char>::empty());
    assert(string_views(segs@).push(token@.subrange(0, 0)) =~= split_colons(token@.subrange(0, 0)));
    while i < n
        invariant
            n == token@.len(),
            start <= i <= n,
            string_views(segs@).push(token@.subrange(start as int, i as int)) == split_colons(
                token@.subrange(0, i as int),
            ),
        decreases n - i,
    {
        let ghost prefix = token@.subrange(0, i + 1);
        assert(prefix.drop_last() =~= token@.subrange(0, i as int));
        let c = token.get_char(i);
        if c == ':' {
            let seg = token.substring_char(start, i).to_string();
            let ghost before = segs@;
            segs.push(seg);
            assert(string_views(segs@) =~= string_views(before).push(seg@));
            start = i + 1;
            assert(token@.subrange(start as int, i + 1) =~= Seq::<char>::empty());
        } else {
            assert(token@.subrange(start as int, i + 1) =~= token@.subrange(start as int, i as int).push(c));
        }
        i = i + 1;
        assert(string_views(segs@).push(token@.subrange(start as int, i as int)) =~= split_colons(
            token@.subrange(0, i as int),
        ));
    }
    assert(token@.subrange(0, n as int) =~= token@);
    assert(string_views(segs@).push(token@.subrange(start as int, n as int)) == split_colons(token@));
    let last = token.substring_char(start, n).to_string();
    let ghost before = segs@;
    segs.push(last);
    assert(string_views(segs@) =~= string_views(before).push(last@));
    assert(string_views(segs@) =~= split_colons(token@));
    segs
}

/// Parses a field description. Fails with `InvalidFieldFormat`, carrying the
/// token, where it has fewer than two or more than three segments, or an empty
/// name or type.
pub fn parse_field(token: &str) -> (r: Result<FieldSpec, GenerationError>)
    ensures
        match r {
            Ok(spec) => parse_spec(token@) == Ok::<FieldSpecModel, ErrorModel>(spec@),
            Err(e) => parse_spec(token@) == Err::<FieldSpecModel, ErrorModel>(e@),
        },
{
    let segs = split_segments(token);
    let count = segs.len();
    proof {
        assert(string_views(segs@).len() == count);
        if count >= 2 {
            assert(string_views(segs@)[0] == segs@[0]@);
            assert(string_views(segs@)[1] == segs@[1]@);
        }
        if count == 3 {
            assert(string_views(segs@)[2] == segs@[2]@);
        }
    }
    if (count == 2 || count == 3) && !segs[0].as_str().is_empty() && !segs[1].as_str().is_empty() {
        let modifier = if count == 3 {
            Some(segs[2].clone())
        } else {
            None
        };
        Ok(FieldSpec { name: segs[0].clone(), field_type: segs[1].clone(), modifier })
    } else {
        Err(GenerationError::InvalidFieldFormat(token.to_string()))
    }
}

} // verus!
