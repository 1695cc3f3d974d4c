use michis_rand_distr_derive::code::{VariantChooser, WeightEntry};
use michis_rand_distr_derive::derive_field::DeriveField;
use michis_rand_distr_derive::derive_variant::{
    generate_variant_chooser, generate_variant_chooser_skips_only, generate_variant_chooser_weighted,
    DeriveVariant, LitKind, WeightLit, WeightLitType,
};
use michis_rand_distr_derive::error::{DeriveError, ErrorKind};

fn lit(kind: LitKind, text: &str) -> WeightLit {
    WeightLit { kind, text: text.to_string() }
}

fn variant(name: &str, skip: bool, weight: Option<WeightLit>) -> DeriveVariant {
    DeriveVariant { ident: name.to_string(), fields: Vec::new(), skip, weight, weight_type: None }
}

fn checked(name: &str, skip: bool, weight: Option<WeightLit>) -> DeriveVariant {
    variant(name, skip, weight).check_and_correct().unwrap()
}

#[test]
fn try_from_accepts_int_and_float_literals() {
    assert_eq!(WeightLitType::try_from(&lit(LitKind::Int, "3")), Ok(WeightLitType::Int));
    assert_eq!(WeightLitType::try_from(&lit(LitKind::Float, "2.5")), Ok(WeightLitType::Float));
}

#[test]
fn try_from_rejects_other_literals() {
    for kind in [LitKind::Str, LitKind::ByteStr, LitKind::CStr, LitKind::Byte, LitKind::Char, LitKind::Bool, LitKind::Verbatim] {
        assert_eq!(WeightLitType::try_from(&lit(kind, "x")), Err(ErrorKind::WeightNotNumber));
    }
    assert_eq!(WeightLitType::try_from(&lit(LitKind::Unknown, "x")), Err(ErrorKind::UnknownLiteral));
}

#[test]
fn zero_and_default_literals() {
    assert_eq!(WeightLitType::Int.get_zero(), lit(LitKind::Int, "0"));
    assert_eq!(WeightLitType::Float.get_zero(), lit(LitKind::Float, "0.0"));
    assert_eq!(WeightLitType::Int.get_default(), lit(LitKind::Int, "1"));
    assert_eq!(WeightLitType::Float.get_default(), lit(LitKind::Float, "1.0"));
}

#[test]
fn same_literal_compares_kind_and_text() {
    assert!(lit(LitKind::Int, "0").same_as(&lit(LitKind::Int, "0")));
    assert!(!lit(LitKind::Int, "0").same_as(&lit(LitKind::Float, "0")));
    assert!(!lit(LitKind::Int, "0").same_as(&lit(LitKind::Int, "00")));
}

#[test]
fn plain_variant_passes_unchanged() {
    let v = variant("A", false, None);
    assert_eq!(v.clone().check_and_correct(), Ok(v));
}

#[test]
fn weighted_variant_gets_its_weight_type() {
    let v = checked("A", false, Some(lit(LitKind::Int, "3")));
    assert_eq!(v.weight, Some(lit(LitKind::Int, "3")));
    assert_eq!(v.weight_type, Some(WeightLitType::Int));
    assert!(!v.skip);
    let f = checked("B", false, Some(lit(LitKind::Float, "2.0")));
    assert_eq!(f.weight_type, Some(WeightLitType::Float));
}

#[test]
fn zero_int_weight_becomes_skip() {
    let v = checked("A", false, Some(lit(LitKind::Int, "0")));
    assert!(v.skip);
    assert!(v.is_skipped());
    assert_eq!(v.weight, None);
    assert_eq!(v.weight_type, Some(WeightLitType::Int));
}

#[test]
fn zero_float_weight_becomes_skip() {
    let v = checked("A", false, Some(lit(LitKind::Float, "0.0")));
    assert!(v.skip);
    assert_eq!(v.weight, None);
    assert_eq!(v.weight_type, Some(WeightLitType::Float));
}

#[test]
fn zero_weight_of_other_spelling_is_kept() {
    let v = checked("A", false, Some(lit(LitKind::Float, "0.00")));
    assert!(!v.skip);
    assert_eq!(v.weight, Some(lit(LitKind::Float, "0.00")));
    let w = checked("B", false, Some(lit(LitKind::Int, "0u32")));
    assert!(!w.skip);
}

#[test]
fn skip_and_weight_together_is_an_error() {
    let r = variant("A", true, Some(lit(LitKind::Float, "1.0"))).check_and_correct();
    assert_eq!(r, Err(vec![DeriveError { kind: ErrorKind::SkipWithWeight, variant: None }]));
    let z = variant("B", true, Some(lit(LitKind::Float, "0.0"))).check_and_correct();
    assert_eq!(z, Err(vec![DeriveError { kind: ErrorKind::SkipWithWeight, variant: None }]));
}

#[test]
fn weight_that_is_not_a_number_is_an_error() {
    let r = variant("A", false, Some(lit(LitKind::Str, "\"1.0\""))).check_and_correct();
    assert_eq!(r, Err(vec![DeriveError { kind: ErrorKind::WeightNotNumber, variant: None }]));
    let b = variant("B", false, Some(lit(LitKind::Bool, "true"))).check_and_correct();
    assert_eq!(b, Err(vec![DeriveError { kind: ErrorKind::WeightNotNumber, variant: None }]));
}

#[test]
fn both_variant_errors_are_reported_in_order() {
    let r = variant("A", true, Some(lit(LitKind::Str, "\"1\""))).check_and_correct();
    assert_eq!(
        r,
        Err(vec![
            DeriveError { kind: ErrorKind::SkipWithWeight, variant: None },
            DeriveError { kind: ErrorKind::WeightNotNumber, variant: None },
        ])
    );
}

#[test]
fn error_messages() {
    assert_eq!(ErrorKind::SkipWithWeight.message(), "skip and weight may not be specified together");
    assert_eq!(ErrorKind::WeightNotNumber.message(), "Weights must be a Int or Float literal");
    assert_eq!(ErrorKind::UnknownLiteral.message(), "Internal error: Unknown literal type provided");
    assert_eq!(ErrorKind::ZeroVariants.message(), "Cannot derive StandardDistribution for enums with zero variants");
    assert_eq!(ErrorKind::NoChoosableVariant.message(), "There must be at least one non-skipped variant");
}

#[test]
fn integer_weights_are_weighted() {
    let vs = vec![
        checked("Variant1", false, Some(lit(LitKind::Int, "1"))),
        checked("Variant2", false, Some(lit(LitKind::Int, "3"))),
        checked("Variant3", false, Some(lit(LitKind::Int, "2"))),
    ];
    let c = generate_variant_chooser(&vs).unwrap();
    assert_eq!(
        c,
        VariantChooser::Weighted(vec![
            WeightEntry::Given(lit(LitKind::Int, "1")),
            WeightEntry::Given(lit(LitKind::Int, "3")),
            WeightEntry::Given(lit(LitKind::Int, "2")),
        ])
    );
}

#[test]
fn float_weights_are_weighted() {
    let vs = vec![
        checked("Variant1", false, Some(lit(LitKind::Float, "1.0"))),
        checked("Variant2", false, Some(lit(LitKind::Float, "3.0"))),
        checked("Variant3", false, Some(lit(LitKind::Float, "2.0"))),
    ];
    let c = generate_variant_chooser(&vs).unwrap();
    assert_eq!(
        c,
        VariantChooser::Weighted(vec![
            WeightEntry::Given(lit(LitKind::Float, "1.0")),
            WeightEntry::Given(lit(LitKind::Float, "3.0")),
            WeightEntry::Given(lit(LitKind::Float, "2.0")),
        ])
    );
}

#[test]
fn unweighted_and_skipped_variants_in_a_weighted_enum() {
    let vs = vec![
        checked("A", false, None),
        checked("B", false, Some(lit(LitKind::Int, "5"))),
        checked("C", true, None),
        checked("D", false, Some(lit(LitKind::Int, "0"))),
    ];
    let c = generate_variant_chooser(&vs).unwrap();
    assert_eq!(
        c,
        VariantChooser::Weighted(vec![
            WeightEntry::Default(WeightLitType::Int),
            WeightEntry::Given(lit(LitKind::Int, "5")),
            WeightEntry::Zero(WeightLitType::Int),
            WeightEntry::Zero(WeightLitType::Int),
        ])
    );
}

#[test]
fn first_weight_type_gives_the_type_of_every_weight() {
    let vs = vec![
        checked("A", false, None),
        checked("B", false, Some(lit(LitKind::Float, "2.0"))),
        checked("C", false, Some(lit(LitKind::Int, "3"))),
    ];
    let c = generate_variant_chooser(&vs).unwrap();
    assert_eq!(
        c,
        VariantChooser::Weighted(vec![
            WeightEntry::Default(WeightLitType::Float),
            WeightEntry::Given(lit(LitKind::Float, "2.0")),
            WeightEntry::Given(lit(LitKind::Int, "3")),
        ])
    );
}

#[test]
fn weighted_chooser_reports_invalid_literals_by_variant() {
    let vs = vec![
        variant("A", false, Some(lit(LitKind::Str, "\"1\""))),
        variant("B", false, Some(lit(LitKind::Int, "2"))),
        variant("C", true, Some(lit(LitKind::Bool, "true"))),
        variant("D", false, Some(lit(LitKind::Unknown, "?"))),
    ];
    let r = generate_variant_chooser_weighted(&vs, WeightLitType::Int);
    assert_eq!(
        r,
        Err(vec![
            DeriveError { kind: ErrorKind::WeightNotNumber, variant: Some(0) },
            DeriveError { kind: ErrorKind::UnknownLiteral, variant: Some(3) },
        ])
    );
}

#[test]
fn single_skip_chooses_among_the_others() {
    let vs = vec![checked("Variant1", false, None), checked("Variant2", true, None), checked("Variant3", false, None)];
    assert_eq!(generate_variant_chooser(&vs), Ok(VariantChooser::AmongIndices(vec![0, 2])));
}

#[test]
fn all_but_one_skipped_chooses_a_constant() {
    let vs = vec![checked("Variant1", false, None), checked("Variant2", true, None), checked("Variant3", true, None)];
    assert_eq!(generate_variant_chooser(&vs), Ok(VariantChooser::Single(0)));
    assert_eq!(generate_variant_chooser_skips_only(&vs), VariantChooser::Single(0));
}

#[test]
fn no_attributes_chooses_uniformly() {
    let vs = vec![checked("UnitVariant", false, None), checked("TupleVariant", false, None), checked("NamedVariant", false, None)];
    assert_eq!(generate_variant_chooser(&vs), Ok(VariantChooser::Uniform(3)));
}

#[test]
fn zero_weight_and_skip_exclude_the_same_variant() {
    let with_zero = vec![checked("A", false, None), checked("B", false, Some(lit(LitKind::Int, "0")))];
    let with_skip = vec![checked("A", false, None), checked("B", true, None)];
    let zero_chooser = generate_variant_chooser(&with_zero).unwrap();
    let skip_chooser = generate_variant_chooser(&with_skip).unwrap();
    assert_eq!(
        zero_chooser,
        VariantChooser::Weighted(vec![WeightEntry::Default(WeightLitType::Int), WeightEntry::Zero(WeightLitType::Int)])
    );
    assert_eq!(skip_chooser, VariantChooser::Single(0));
}

#[test]
fn variant_struct_expression() {
    let v = DeriveVariant {
        ident: "Named".to_string(),
        fields: vec![
            DeriveField { ident: Some("x".to_string()), skip: false },
            DeriveField { ident: Some("y".to_string()), skip: true },
        ],
        skip: false,
        weight: None,
        weight_type: None,
    };
    let e = v.make_struct_expression(&"MyEnum".to_string());
    assert_eq!(e.path.ty_name, "MyEnum");
    assert_eq!(e.path.variant, Some("Named".to_string()));
    assert_eq!(e.fields.len(), 2);
}

#[test]
fn item_with_skip_and_item_with_zero_weight_get_the_same_weights() {
    let with_skip = vec![
        checked("A", false, Some(lit(LitKind::Int, "2"))),
        checked("B", true, None),
        checked("C", false, None),
    ];
    let with_zero = vec![
        checked("A", false, Some(lit(LitKind::Int, "2"))),
        checked("B", false, Some(lit(LitKind::Int, "0"))),
        checked("C", false, None),
    ];
    let expected = VariantChooser::Weighted(vec![
        WeightEntry::Given(lit(LitKind::Int, "2")),
        WeightEntry::Zero(WeightLitType::Int),
        WeightEntry::Default(WeightLitType::Int),
    ]);
    assert_eq!(generate_variant_chooser(&with_skip), Ok(expected.clone()));
    assert_eq!(generate_variant_chooser(&with_zero), Ok(expected));
}
