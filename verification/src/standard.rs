use vstd::prelude::*;

use crate::code::{DistributionImpl, SampleCode, StructExpression, StructPath};
use crate::derive_field::{fields_to_struct_expression, fills_fields_with};
use crate::derive_standard_distribution::{Data, DeriveData};
use crate::generics::add_trait_bounds;

verus! {

/// The struct expression that fills every field of the struct `input` randomly.
pub fn generate_sample_method(input: &DeriveData) -> (e: StructExpression)
    requires
        input.data is Struct,
    ensures
        fills_fields_with(
            e,
            StructPath { ty_name: input.ident, variant: None },
            input.data->Struct_0@,
            false,
        ),
{
    match &input.data {
        Data::Struct(fields) => {
            let path = StructPath { ty_name: input.ident.clone(), variant: None };
            fields_to_struct_expression(fields, path)
        },
        Data::Enum(_) => {
            assert(false);
            let path = StructPath { ty_name: input.ident.clone(), variant: None };
            StructExpression { path, fields: Vec::new() }
        },
    }
}

/// `impl Distribution<T> for Standard` for a struct: every field random, whatever its
/// attributes, and `Standard: Distribution<P>` required of every type parameter `P`.
pub fn derive(input: DeriveData) -> (r: DistributionImpl)
    requires
        input.data is Struct,
    ensures
        r.ty_name == input.ident,
        r.bounded_params@ == input.generics.bounded_params@ + input.generics.type_params@,
        r.code matches SampleCode::Struct(e) && fills_fields_with(
            e,
            StructPath { ty_name: input.ident, variant: None },
            input.data->Struct_0@,
            false,
        ),
{
    let sample_method_code = generate_sample_method(&input);
    let DeriveData { ident, generics, data: _ } = input;
    let trait_bounds_added = add_trait_bounds(generics);
    DistributionImpl {
        ty_name: ident,
        bounded_params: trait_bounds_added.bounded_params,
        code: SampleCode::Struct(sample_method_code),
    }
}

} // verus!
