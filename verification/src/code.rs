use vstd::prelude::*;

use crate::derive_variant::{WeightLit, WeightLitType};

verus! {

/// How a field of a generated struct expression is named: by its identifier, or by its
/// position for tuple fields.
#[derive(Clone, Debug, PartialEq, Eq)]
pub enum Member {
    Named(String),
    Index(usize),
}

/// How the value of one field is produced in the generated code.
#[derive(Clone, Copy, Debug, PartialEq, Eq, Structural)]
pub enum FieldInit {
    /// `rng.gen::<T>()` with `T` the field's own type.
    Random,
    /// `Default::default()`.
    DefaultValue,
}

/// One `member: value` pair of a generated struct expression.
#[derive(Clone, Debug, PartialEq, Eq)]
pub struct FieldValue {
    pub member: Member,
    pub init: FieldInit,
}

/// The path of a generated struct expression: `Type` for a struct, `Type::Variant` for an
/// enum variant.
#[derive(Clone, Debug, PartialEq, Eq)]
pub struct StructPath {
    pub ty_name: String,
    pub variant: Option<String>,
}

/// A generated struct expression `path { member: value, ... }`.
#[derive(Clone, Debug, PartialEq, Eq)]
pub struct StructExpression {
    pub path: StructPath,
    pub fields: Vec<FieldValue>,
}

/// One entry of the weight array that is handed to `WeightedIndex::new`.
#[derive(Clone, Debug, PartialEq, Eq)]
pub enum WeightEntry {
    /// The literal that the variant was given.
    Given(WeightLit),
    /// The zero literal of the weight type (a skipped variant).
    Zero(WeightLitType),
    /// The default literal `1` or `1.0` of the weight type.
    Default(WeightLitType),
}

/// The expression that picks the index of the variant to generate.
#[derive(Clone, Debug, PartialEq, Eq)]
pub enum VariantChooser {
    /// `WeightedIndex::new(&[weights]).unwrap().sample(rng)`.
    Weighted(Vec<WeightEntry>),
    /// The one index that can be chosen, as a constant.
    Single(usize),
    /// `[indices].choose(rng).unwrap()`.
    AmongIndices(Vec<usize>),
    /// `rng.gen_range(0..count)`.
    Uniform(usize),
}

/// The body of the generated `sample` method.
#[derive(Clone, Debug, PartialEq, Eq)]
pub enum SampleCode {
    /// A struct expression with every field filled.
    Struct(StructExpression),
    /// `let chosen_variant = chooser; match chosen_variant { i => arms[i], _ => unreachable!() }`.
    Enum { chooser: VariantChooser, arms: Vec<StructExpression> },
}

/// The generated `impl Distribution<Type> for Standard`: the type, the type parameters for
/// which a `Standard: Distribution<T>` predicate is in the where clause, and the body of
/// `sample`.
#[derive(Clone, Debug, PartialEq, Eq)]
pub struct DistributionImpl {
    pub ty_name: String,
    pub bounded_params: Vec<String>,
    pub code: SampleCode,
}

impl VariantChooser {
    /// Whether the generated chooser can evaluate to index `i`, reading a weight entry as
    /// non-zero unless it is exactly the literal `0` or `0.0` (a weight spelled `0u32`, `0.00` or
    /// `0x0` counts as non-zero here, though it is zero to `WeightedIndex`).
    pub open spec fn may_choose(self, i: int) -> bool {
        match self {
            VariantChooser::Weighted(ws) => 0 <= i < ws@.len() && ws@[i].is_not_zero_literal(),
            VariantChooser::Single(j) => i == j,
            VariantChooser::AmongIndices(v) => exists|k: int| 0 <= k < v@.len() && v@[k] as int == i,
            VariantChooser::Uniform(n) => 0 <= i < n,
        }
    }
}

impl WeightEntry {
    /// Whether the entry is not the literal `0` or `0.0` of its weight type: a default weight, or
    /// a given literal with another text.
    pub open spec fn is_not_zero_literal(self) -> bool {
        match self {
            WeightEntry::Given(w) => !w.is_zero_literal(),
            WeightEntry::Zero(_) => false,
            WeightEntry::Default(_) => true,
        }
    }
}

} // verus!
