use michis_rand_distr_derive::code::{
    DistributionImpl, FieldInit, FieldValue, Member, SampleCode, StructExpression, StructPath, VariantChooser,
};
use michis_rand_distr_derive::derive_field::{fields_to_struct_expression, to_struct_expression, DeriveField};
use michis_rand_distr_derive::derive_sample_uniform::{DeriveData as SampleUniformData, SamplerImpl};
use michis_rand_distr_derive::derive_standard_distribution::{Data, DeriveData};
use michis_rand_distr_derive::derive_test::SupportsStructUnit;
use michis_rand_distr_derive::derive_variant::{DeriveVariant, LitKind, WeightLit};
use michis_rand_distr_derive::error::{DeriveError, ErrorKind};
use michis_rand_distr_derive::generics::{add_trait_bounds, Generics};
use michis_rand_distr_derive::{standard, standard_distribution};

fn named(name: &str, skip: bool) -> DeriveField {
    DeriveField { ident: Some(name.to_string()), skip }
}

fn unnamed(skip: bool) -> DeriveField {
    DeriveField { ident: None, skip }
}

fn no_generics() -> Generics {
    Generics { type_params: vec![], bounded_params: vec![] }
}

fn variant(name: &str, fields: Vec<DeriveField>, skip: bool, weight: Option<WeightLit>) -> DeriveVariant {
    DeriveVariant { ident: name.to_string(), fields, skip, weight, weight_type: None }
        .check_and_correct()
        .unwrap()
}

fn path(ty: &str, variant: Option<&str>) -> StructPath {
    StructPath { ty_name: ty.to_string(), variant: variant.map(|v| v.to_string()) }
}

fn value(member: Member, init: FieldInit) -> FieldValue {
    FieldValue { member, init }
}

#[test]
fn skipped_field_uses_default() {
    assert_eq!(named("a", true).make_rng_call(), FieldInit::DefaultValue);
    assert_eq!(named("a", false).make_rng_call(), FieldInit::Random);
}

#[test]
fn members_are_names_or_positions() {
    assert_eq!(named("x", false).member(4), Member::Named("x".to_string()));
    assert_eq!(unnamed(false).member(4), Member::Index(4));
}

#[test]
fn field_skip_struct_expression() {
    let fields = vec![named("_field1", false), named("_field2", false), named("_field3", true)];
    let e = to_struct_expression(&fields, path("FieldSkip", None));
    assert_eq!(
        e,
        StructExpression {
            path: path("FieldSkip", None),
            fields: vec![
                value(Member::Named("_field1".to_string()), FieldInit::Random),
                value(Member::Named("_field2".to_string()), FieldInit::Random),
                value(Member::Named("_field3".to_string()), FieldInit::DefaultValue),
            ],
        }
    );
}

#[test]
fn tuple_struct_expression_ignoring_skip() {
    let fields = vec![unnamed(false), unnamed(true)];
    let e = fields_to_struct_expression(&fields, path("T", None));
    assert_eq!(
        e.fields,
        vec![value(Member::Index(0), FieldInit::Random), value(Member::Index(1), FieldInit::Random)]
    );
}

#[test]
fn where_clause_gets_one_predicate_per_type_parameter() {
    let g = Generics { type_params: vec!["F".to_string(), "G".to_string()], bounded_params: vec!["X".to_string()] };
    let r = add_trait_bounds(g);
    assert_eq!(r.type_params, vec!["F".to_string(), "G".to_string()]);
    assert_eq!(r.bounded_params, vec!["X".to_string(), "F".to_string(), "G".to_string()]);
}

#[test]
fn enum_with_no_variants() {
    let d = DeriveData { ident: "E".to_string(), generics: no_generics(), data: Data::Enum(vec![]) };
    assert_eq!(
        d.check_and_correct(),
        Err(vec![
            DeriveError { kind: ErrorKind::ZeroVariants, variant: None },
            DeriveError { kind: ErrorKind::NoChoosableVariant, variant: None },
        ])
    );
}

#[test]
fn enums_must_have_one_nonskipped_variant() {
    let d = DeriveData {
        ident: "E".to_string(),
        generics: no_generics(),
        data: Data::Enum(vec![variant("Variant1", vec![], true, None), variant("Variant2", vec![], true, None)]),
    };
    assert_eq!(d.check_and_correct(), Err(vec![DeriveError { kind: ErrorKind::NoChoosableVariant, variant: None }]));
}

#[test]
fn enums_must_have_a_nonzero_weight() {
    let zero = || Some(WeightLit { kind: LitKind::Float, text: "0.0".to_string() });
    let d = DeriveData {
        ident: "E".to_string(),
        generics: no_generics(),
        data: Data::Enum(vec![variant("Variant1", vec![], false, zero()), variant("Variant2", vec![], false, zero())]),
    };
    assert_eq!(d.check_and_correct(), Err(vec![DeriveError { kind: ErrorKind::NoChoosableVariant, variant: None }]));
}

#[test]
fn struct_with_type_params_generates_impl() {
    let d = DeriveData {
        ident: "StructsWithTypeParams".to_string(),
        generics: Generics { type_params: vec!["F".to_string()], bounded_params: vec![] },
        data: Data::Struct(vec![named("inner", false), named("other_inner", false)]),
    };
    let d = d.check_and_correct().unwrap();
    assert!(d.can_make_code());
    let imp = d.distribution_impl().unwrap();
    assert_eq!(
        imp,
        DistributionImpl {
            ty_name: "StructsWithTypeParams".to_string(),
            bounded_params: vec!["F".to_string()],
            code: SampleCode::Struct(StructExpression {
                path: path("StructsWithTypeParams", None),
                fields: vec![
                    value(Member::Named("inner".to_string()), FieldInit::Random),
                    value(Member::Named("other_inner".to_string()), FieldInit::Random),
                ],
            }),
        }
    );
}

#[test]
fn enum_generates_chooser_and_arms() {
    let d = DeriveData {
        ident: "RegularEnum".to_string(),
        generics: no_generics(),
        data: Data::Enum(vec![
            variant("UnitVariant", vec![], false, None),
            variant("TupleVariant", vec![unnamed(false), unnamed(false)], false, None),
            variant("NamedVariant", vec![named("x", false)], false, None),
        ]),
    };
    let d = d.check_and_correct().unwrap();
    let code = d.make_code().unwrap();
    assert_eq!(
        code,
        SampleCode::Enum {
            chooser: VariantChooser::Uniform(3),
            arms: vec![
                StructExpression { path: path("RegularEnum", Some("UnitVariant")), fields: vec![] },
                StructExpression {
                    path: path("RegularEnum", Some("TupleVariant")),
                    fields: vec![value(Member::Index(0), FieldInit::Random), value(Member::Index(1), FieldInit::Random)],
                },
                StructExpression {
                    path: path("RegularEnum", Some("NamedVariant")),
                    fields: vec![value(Member::Named("x".to_string()), FieldInit::Random)],
                },
            ],
        }
    );
    assert_eq!(standard_distribution::make_code(&d), code);
}

#[test]
fn unchecked_all_skipped_enum_cannot_make_code() {
    let d = DeriveData {
        ident: "E".to_string(),
        generics: no_generics(),
        data: Data::Enum(vec![variant("A", vec![], true, None)]),
    };
    assert!(!d.can_make_code());
}

#[test]
fn weighted_enum_with_invalid_literal_reports_variant() {
    let bad = DeriveVariant {
        ident: "B".to_string(),
        fields: vec![],
        skip: false,
        weight: Some(WeightLit { kind: LitKind::Char, text: "'a'".to_string() }),
        weight_type: None,
    };
    let d = DeriveData {
        ident: "E".to_string(),
        generics: no_generics(),
        data: Data::Enum(vec![variant("A", vec![], false, Some(WeightLit { kind: LitKind::Int, text: "2".to_string() })), bad]),
    };
    assert!(d.can_make_code());
    assert_eq!(d.distribution_impl(), Err(vec![DeriveError { kind: ErrorKind::WeightNotNumber, variant: Some(1) }]));
}

#[test]
fn older_derive_ignores_skip() {
    let d = DeriveData {
        ident: "S".to_string(),
        generics: Generics { type_params: vec!["T".to_string()], bounded_params: vec![] },
        data: Data::Struct(vec![named("a", true)]),
    };
    let e = standard::generate_sample_method(&d);
    assert_eq!(e.fields, vec![value(Member::Named("a".to_string()), FieldInit::Random)]);
    let imp = standard::derive(d);
    assert_eq!(imp.bounded_params, vec!["T".to_string()]);
    assert_eq!(imp.code, SampleCode::Struct(e));
}

#[test]
fn older_prepare_adds_predicates() {
    let mut d = DeriveData {
        ident: "S".to_string(),
        generics: Generics { type_params: vec!["A".to_string(), "B".to_string()], bounded_params: vec![] },
        data: Data::Struct(vec![]),
    };
    standard_distribution::prepare(&mut d);
    assert_eq!(d.generics.bounded_params, vec!["A".to_string(), "B".to_string()]);
}

#[test]
fn older_make_code_chooses_uniformly_despite_skip() {
    let d = DeriveData {
        ident: "E".to_string(),
        generics: no_generics(),
        data: Data::Enum(vec![variant("A", vec![named("f", true)], false, None), variant("B", vec![], true, None)]),
    };
    let code = standard_distribution::make_code(&d);
    assert_eq!(
        code,
        SampleCode::Enum {
            chooser: VariantChooser::Uniform(2),
            arms: vec![
                StructExpression {
                    path: path("E", Some("A")),
                    fields: vec![value(Member::Named("f".to_string()), FieldInit::Random)],
                },
                StructExpression { path: path("E", Some("B")), fields: vec![] },
            ],
        }
    );
}

#[test]
fn sample_uniform_default_sampler_path() {
    let d = SampleUniformData { ident: "Point".to_string(), sampler_path: None }.check_and_correct();
    assert_eq!(d.sampler_path, Some("self::PointUniformSampler".to_string()));
    assert_eq!(
        d.sampler_impl(),
        SamplerImpl { ty_name: "Point".to_string(), sampler_path: "self::PointUniformSampler".to_string() }
    );
}

#[test]
fn sample_uniform_given_sampler_path_is_kept() {
    let d = SampleUniformData { ident: "Point".to_string(), sampler_path: Some("my::Sampler".to_string()) }
        .check_and_correct();
    assert_eq!(d.sampler_path, Some("my::Sampler".to_string()));
    assert_eq!(d.ident, "Point");
}

#[test]
fn supports_struct_unit() {
    let _unit = SupportsStructUnit;
    let d = DeriveData { ident: "SupportsStructUnit".to_string(), generics: no_generics(), data: Data::Struct(vec![]) };
    let d = d.check_and_correct().unwrap();
    let imp = d.distribution_impl().unwrap();
    assert_eq!(imp.ty_name, "SupportsStructUnit");
    assert_eq!(imp.code, SampleCode::Struct(StructExpression { path: path("SupportsStructUnit", None), fields: vec![] }));
}
