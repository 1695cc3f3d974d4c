use vstd::prelude::*;

use crate::code::{SampleCode, StructExpression, StructPath, VariantChooser};
use crate::derive_field::{fields_to_struct_expression, fills_fields_with};
use crate::derive_standard_distribution::{Data, DeriveData};

verus! {

/// `code` picks a variant uniformly over all variants and fills every field randomly, or fills
/// every field of a struct randomly.
pub open spec fn is_uniform_code_for(code: SampleCode, data: Data, ident: String) -> bool {
    match data {
        Data::Struct(fs) => code matches SampleCode::Struct(e) && fills_fields_with(
            e,
            StructPath { ty_name: ident, variant: None },
            fs@,
            false,
        ),
        Data::Enum(vs) => {
            &&& code matches SampleCode::Enum { chooser, arms }
            &&& chooser == VariantChooser::Uniform(vs@.len() as usize)
            &&& arms@.len() == vs@.len()
            &&& forall|i: int|
                0 <= i < vs@.len() ==> fills_fields_with(
                    #[trigger] arms@[i],
                    StructPath { ty_name: ident, variant: Some(vs@[i].ident) },
                    vs@[i].fields@,
                    false,
                )
        },
    }
}

/// Adds `Standard: Distribution<T>` to the where clause for every type parameter `T`.
pub fn prepare(data: &mut DeriveData)
    ensures
        final(data).ident == old(data).ident,
        final(data).data == old(data).data,
        final(data).generics.type_params@ == old(data).generics.type_params@,
        final(data).generics.bounded_params@ == old(data).generics.bounded_params@
            + old(data).generics.type_params@,
{
    data.generics.prepare_where_clause();
}

/// The body of `sample` that ignores `skip` and `weight`: a variant chosen uniformly, every
/// field random.
pub fn make_code(data: &DeriveData) -> (code: SampleCode)
    ensures
        is_uniform_code_for(code, data.data, data.ident),
{
    match &data.data {
        Data::Enum(variants) => {
            let mut arms: Vec<StructExpression> = Vec::new();
            for i in 0..variants.len()
                invariant
                    arms@.len() == i,
                    forall|j: int|
                        0 <= j < i ==> fills_fields_with(
                            #[trigger] arms@[j],
                            StructPath { ty_name: data.ident, variant: Some(variants@[j].ident) },
                            variants@[j].fields@,
                            false,
                        ),
            {
                let path = StructPath {
                    ty_name: data.ident.clone(),
                    variant: Some(variants[i].ident.clone()),
                };
                arms.push(fields_to_struct_expression(&variants[i].fields, path));
            }
            SampleCode::Enum { chooser: VariantChooser::Uniform(variants.len()), arms }
        },
        Data::Struct(fields) => {
            let path = StructPath { ty_name: data.ident.clone(), variant: None };
            SampleCode::Struct(fields_to_struct_expression(fields, path))
        },
    }
}

} // verus!
