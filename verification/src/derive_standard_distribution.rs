use vstd::prelude::*;

use crate::code::{DistributionImpl, SampleCode, StructPath};
use crate::derive_field::{fills_fields_with, to_struct_expression, DeriveField};
use crate::derive_variant::{
    chooser_errors, chooser_requires, first_weight_type, generate_enum_sample_code, is_enum_code_for,
    DeriveVariant, WeightLitType,
};
use crate::error::{DeriveError, ErrorKind};
use crate::generics::{copy_names, Generics};

verus! {

/// The body of the item that derives: the variants of an enum, or the fields of a struct.
#[derive(Clone, Debug, PartialEq, Eq)]
pub enum Data {
    Enum(Vec<DeriveVariant>),
    Struct(Vec<DeriveField>),
}

/// The input of `#[derive(StandardDistribution)]`: the item's name, its generics and its body.
#[derive(Clone, Debug, PartialEq, Eq)]
pub struct DeriveData {
    pub ident: String,
    pub generics: Generics,
    pub data: Data,
}

/// The errors of the check of the whole input: an enum must have a variant, and a variant that
/// is not skipped.
pub open spec fn data_errors(data: Data) -> Seq<DeriveError> {
    match data {
        Data::Enum(vs) => enum_errors(vs@),
        Data::Struct(_) => seq![],
    }
}

/// The errors of the check of an enum with variants `vs`: no variant at all, and no variant
/// that is not skipped.
pub open spec fn enum_errors(vs: Seq<DeriveVariant>) -> Seq<DeriveError> {
    (if vs.len() == 0 {
        seq![DeriveError::plain(ErrorKind::ZeroVariants)]
    } else {
        seq![]
    }) + (if forall|j: int| 0 <= j < vs.len() ==> #[trigger] vs[j].skip {
        seq![DeriveError::plain(ErrorKind::NoChoosableVariant)]
    } else {
        seq![]
    })
}

/// Code can be generated for `data`: a chooser can be built for an enum's variants.
pub open spec fn can_generate(data: Data) -> bool {
    match data {
        Data::Enum(vs) => chooser_requires(vs@),
        Data::Struct(_) => true,
    }
}

/// The errors that generating the code for `data` reports.
pub open spec fn code_errors(data: Data) -> Seq<DeriveError> {
    match data {
        Data::Enum(vs) => chooser_errors(vs@),
        Data::Struct(_) => seq![],
    }
}

/// `code` is the body of `sample` for the item `ident` with body `data`: the struct expression
/// that fills every field of a struct, or the enum code of [`is_enum_code_for`].
pub open spec fn is_code_for(code: SampleCode, data: Data, ident: String) -> bool {
    match data {
        Data::Struct(fs) => code matches SampleCode::Struct(e) && fills_fields_with(
            e,
            StructPath { ty_name: ident, variant: None },
            fs@,
            true,
        ),
        Data::Enum(vs) => is_enum_code_for(code, vs@, ident),
    }
}

impl DeriveData {
    /// Checks the input and adds the predicate `Standard: Distribution<T>` for every type
    /// parameter `T` to the where clause. An enum with no variant, or whose variants are all
    /// skipped, is an error.
    pub fn check_and_correct(self) -> (r: Result<DeriveData, Vec<DeriveError>>)
        ensures
            match r {
                Ok(d) => {
                    &&& data_errors(self.data).len() == 0
                    &&& d.ident == self.ident
                    &&& d.data == self.data
                    &&& d.generics.type_params@ == self.generics.type_params@
                    &&& d.generics.bounded_params@ == self.generics.bounded_params@
                        + self.generics.type_params@
                },
                Err(es) => data_errors(self.data).len() > 0 && es@ == data_errors(self.data),
            },
    {
        let DeriveData { ident, generics, data } = self;
        let mut generics = generics;
        let mut errors: Vec<DeriveError> = Vec::new();
        if let Data::Enum(variants) = &data {
            if variants.len() == 0 {
                errors.push(DeriveError { kind: ErrorKind::ZeroVariants, variant: None });
            }
            let mut all_skipped = true;
            for i in 0..variants.len()
                invariant
                    all_skipped == forall|j: int| 0 <= j < i ==> #[trigger] variants@[j].skip,
            {
                all_skipped = all_skipped && variants[i].is_skipped();
            }
            if all_skipped {
                errors.push(DeriveError { kind: ErrorKind::NoChoosableVariant, variant: None });
            }
        }
        generics.prepare_where_clause();
        assert(errors@ =~= data_errors(data));
        if errors.len() == 0 {
            Ok(DeriveData { ident, generics, data })
        } else {
            Err(errors)
        }
    }

    /// Whether code can be generated for this input (see [`can_generate`]); an input that
    /// passed [`DeriveData::check_and_correct`] always can.
    pub fn can_make_code(&self) -> (r: bool)
        ensures
            r == can_generate(self.data),
    {
        match &self.data {
            Data::Struct(_) => true,
            Data::Enum(variants) => {
                let mut first: Option<WeightLitType> = None;
                let mut all_skipped = true;
                for i in 0..variants.len()
                    invariant
                        first == first_weight_type(variants@, i as int),
                        all_skipped == forall|j: int| 0 <= j < i ==> #[trigger] variants@[j].skip,
                {
                    if first.is_none() {
                        first = variants[i].weight_type;
                    }
                    all_skipped = all_skipped && variants[i].skip;
                }
                !(first.is_none() && variants.len() > 0 && all_skipped)
            },
        }
    }

    /// The body of the generated `sample` method.
    pub fn make_code(&self) -> (r: Result<SampleCode, Vec<DeriveError>>)
        requires
            can_generate(self.data),
        ensures
            match r {
                Ok(code) => code_errors(self.data).len() == 0 && is_code_for(code, self.data, self.ident),
                Err(es) => code_errors(self.data).len() > 0 && es@ == code_errors(self.data),
            },
    {
        match &self.data {
            Data::Enum(variants) => generate_enum_sample_code(variants, &self.ident),
            Data::Struct(fields) => {
                let path = StructPath { ty_name: self.ident.clone(), variant: None };
                Ok(SampleCode::Struct(to_struct_expression(fields, path)))
            },
        }
    }

    /// The generated `impl Distribution<Self> for Standard`, or the errors of generating its
    /// body.
    pub fn distribution_impl(&self) -> (r: Result<DistributionImpl, Vec<DeriveError>>)
        requires
            can_generate(self.data),
        ensures
            match r {
                Ok(imp) => {
                    &&& code_errors(self.data).len() == 0
                    &&& imp.ty_name == self.ident
                    &&& imp.bounded_params@ == self.generics.bounded_params@
                    &&& is_code_for(imp.code, self.data, self.ident)
                },
                Err(es) => code_errors(self.data).len() > 0 && es@ == code_errors(self.data),
            },
    {
        let code = self.make_code()?;
        Ok(DistributionImpl {
            ty_name: self.ident.clone(),
            bounded_params: copy_names(&self.generics.bounded_params),
            code,
        })
    }
}

} // verus!
