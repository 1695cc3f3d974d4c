use vstd::prelude::*;

use crate::code::{FieldInit, FieldValue, Member, StructExpression, StructPath};

verus! {

/// A field of a struct or of an enum variant, as the derive reads it: its identifier (none for
/// a tuple field) and whether it carries `#[standard_distribution(skip)]`.
#[derive(Clone, Debug, PartialEq, Eq)]
pub struct DeriveField {
    pub ident: Option<String>,
    pub skip: bool,
}

impl DeriveField {
    /// A skipped field is filled from `Default`, every other field randomly.
    pub open spec fn spec_rng_call(self) -> FieldInit {
        if self.skip {
            FieldInit::DefaultValue
        } else {
            FieldInit::Random
        }
    }

    /// The member under which the field at position `i` is written.
    pub open spec fn spec_member(self, i: int) -> Member {
        match self.ident {
            Some(name) => Member::Named(name),
            None => Member::Index(i as usize),
        }
    }

    /// The initialiser of this field in the generated code.
    pub fn make_rng_call(&self) -> (r: FieldInit)
        ensures
            r == self.spec_rng_call(),
    {
        if self.skip {
            FieldInit::DefaultValue
        } else {
            FieldInit::Random
        }
    }

    /// The member of this field when it stands at position `i`.
    pub fn member(&self, i: usize) -> (r: Member)
        ensures
            r == self.spec_member(i as int),
    {
        match &self.ident {
            Some(name) => Member::Named(name.clone()),
            None => Member::Index(i),
        }
    }
}

/// `e` is the struct expression at `path` that fills each of `fields` in order, the value of
/// field `i` given by `init(fields[i])`.
pub open spec fn fills_fields_with(
    e: StructExpression,
    path: StructPath,
    fields: Seq<DeriveField>,
    honor_skip: bool,
) -> bool {
    &&& e.path == path
    &&& e.fields@.len() == fields.len()
    &&& forall|i: int|
        0 <= i < fields.len() ==> #[trigger] e.fields@[i] == (FieldValue {
            member: fields[i].spec_member(i),
            init: if honor_skip {
                fields[i].spec_rng_call()
            } else {
                FieldInit::Random
            },
        })
}

fn struct_expression(fields: &Vec<DeriveField>, path: StructPath, honor_skip: bool) -> (e:
    StructExpression)
    ensures
        fills_fields_with(e, path, fields@, honor_skip),
{
    let mut values: Vec<FieldValue> = Vec::new();
    for i in 0..fields.len()
        invariant
            values@.len() == i,
            forall|j: int|
                0 <= j < i ==> #[trigger] values@[j] == (FieldValue {
                    member: fields@[j].spec_member(j),
                    init: if honor_skip {
                        fields@[j].spec_rng_call()
                    } else {
                        FieldInit::Random
                    },
                }),
    {
        let init = if honor_skip {
            fields[i].make_rng_call()
        } else {
            FieldInit::Random
        };
        values.push(FieldValue { member: fields[i].member(i), init });
    }
    StructExpression { path, fields: values }
}

/// The struct expression at `path` that fills every field: skipped fields from `Default`, the
/// others randomly.
pub fn to_struct_expression(fields: &Vec<DeriveField>, path: StructPath) -> (e: StructExpression)
    ensures
        fills_fields_with(e, path, fields@, true),
{
    struct_expression(fields, path, true)
}

/// The struct expression at `path` that fills every field randomly, whatever its attributes
/// say.
pub fn fields_to_struct_expression(fields: &Vec<DeriveField>, path: StructPath) -> (e:
    StructExpression)
    ensures
        fills_fields_with(e, path, fields@, false),
{
    struct_expression(fields, path, false)
}

} // verus!
