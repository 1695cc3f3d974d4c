use vstd::prelude::*;

use crate::code::{StructExpression, StructPath, VariantChooser, WeightEntry, SampleCode};
use crate::derive_field::{fills_fields_with, to_struct_expression, DeriveField};
use crate::error::{DeriveError, ErrorKind};

verus! {

/// The kind of a literal, one for each variant of a Rust literal token, and one for a kind
/// that this crate does not know.
#[derive(Clone, Copy, Debug, PartialEq, Eq, Structural)]
pub enum LitKind {
    Str,
    ByteStr,
    CStr,
    Byte,
    Char,
    Int,
    Float,
    Bool,
    Verbatim,
    Unknown,
}

/// A literal given as a weight: its kind and its token text (`3`, `2.5`, `"1.0"`, ...).
/// Two literals are the same literal when their kinds and texts are equal.
#[derive(Clone, Debug, PartialEq, Eq)]
pub struct WeightLit {
    pub kind: LitKind,
    pub text: String,
}

/// The type of the weights of an enum: integer or floating-point literals.
#[derive(Clone, Copy, Debug, PartialEq, Eq, Structural)]
pub enum WeightLitType {
    Int,
    Float,
}

/// The weight type of a literal of kind `kind`, if it can be a weight.
pub open spec fn lit_weight_type(kind: LitKind) -> Option<WeightLitType> {
    match kind {
        LitKind::Int => Some(WeightLitType::Int),
        LitKind::Float => Some(WeightLitType::Float),
        _ => None,
    }
}

/// The error for a weight literal of kind `kind` that cannot be a weight.
pub open spec fn lit_error_kind(kind: LitKind) -> ErrorKind {
    match kind {
        LitKind::Unknown => ErrorKind::UnknownLiteral,
        _ => ErrorKind::WeightNotNumber,
    }
}

impl WeightLitType {
    /// The literal kind of weights of this type.
    pub open spec fn lit_kind(self) -> LitKind {
        match self {
            WeightLitType::Int => LitKind::Int,
            WeightLitType::Float => LitKind::Float,
        }
    }

    /// The text of the zero literal of this type: `0` or `0.0`.
    pub open spec fn zero_text(self) -> Seq<char> {
        match self {
            WeightLitType::Int => seq!['0'],
            WeightLitType::Float => seq!['0', '.', '0'],
        }
    }

    /// The text of the default weight of this type: `1` or `1.0`.
    pub open spec fn default_text(self) -> Seq<char> {
        match self {
            WeightLitType::Int => seq!['1'],
            WeightLitType::Float => seq!['1', '.', '0'],
        }
    }

    /// The zero literal of this type.
    pub fn get_zero(&self) -> (r: WeightLit)
        ensures
            r.kind == self.lit_kind(),
            r.text@ == self.zero_text(),
    {
        proof {
            reveal_strlit("0");
            reveal_strlit("0.0");
        }
        match self {
            WeightLitType::Int => {
                let text = String::from_str("0");
                assert(text@ =~= seq!['0']);
                WeightLit { kind: LitKind::Int, text }
            },
            WeightLitType::Float => {
                let text = String::from_str("0.0");
                assert(text@ =~= seq!['0', '.', '0']);
                WeightLit { kind: LitKind::Float, text }
            },
        }
    }

    /// The default weight literal of this type.
    pub fn get_default(&self) -> (r: WeightLit)
        ensures
            r.kind == self.lit_kind(),
            r.text@ == self.default_text(),
    {
        proof {
            reveal_strlit("1");
            reveal_strlit("1.0");
        }
        match self {
            WeightLitType::Int => {
                let text = String::from_str("1");
                assert(text@ =~= seq!['1']);
                WeightLit { kind: LitKind::Int, text }
            },
            WeightLitType::Float => {
                let text = String::from_str("1.0");
                assert(text@ =~= seq!['1', '.', '0']);
                WeightLit { kind: LitKind::Float, text }
            },
        }
    }

    /// The weight type of a literal: integer and float literals are weights, every other
    /// literal is an error.
    pub fn try_from(value: &WeightLit) -> (r: Result<WeightLitType, ErrorKind>)
        ensures
            r == (match lit_weight_type(value.kind) {
                Some(t) => Ok(t),
                None => Err(lit_error_kind(value.kind)),
            }),
    {
        match value.kind {
            LitKind::Int => Ok(WeightLitType::Int),
            LitKind::Float => Ok(WeightLitType::Float),
            LitKind::Str | LitKind::ByteStr | LitKind::CStr | LitKind::Byte | LitKind::Char
            | LitKind::Bool | LitKind::Verbatim => Err(ErrorKind::WeightNotNumber),
            LitKind::Unknown => Err(ErrorKind::UnknownLiteral),
        }
    }
}

impl WeightLit {
    /// The literal is the zero literal (`0` or `0.0`) of its own weight type.
    pub open spec fn is_zero_literal(self) -> bool {
        match lit_weight_type(self.kind) {
            Some(t) => self.text@ == t.zero_text(),
            None => false,
        }
    }

    /// A copy of this literal.
    pub fn duplicate(&self) -> (r: WeightLit)
        ensures
            r == *self,
    {
        WeightLit { kind: self.kind, text: self.text.clone() }
    }

    /// Whether two literals are the same literal.
    pub fn same_as(&self, other: &WeightLit) -> (r: bool)
        ensures
            r == (self.kind == other.kind && self.text@ == other.text@),
    {
        self.kind == other.kind && self.text == other.text
    }
}

/// A variant of an enum that derives `StandardDistribution`, with its attributes:
/// `#[standard_distribution(skip)]` and `#[standard_distribution(weight = ...)]`.
/// `weight_type` is filled in by [`DeriveVariant::check_and_correct`].
#[derive(Clone, Debug, PartialEq, Eq)]
pub struct DeriveVariant {
    pub ident: String,
    pub fields: Vec<DeriveField>,
    pub skip: bool,
    pub weight: Option<WeightLit>,
    pub weight_type: Option<WeightLitType>,
}

impl DeriveVariant {
    /// The weight type after the check: that of the weight literal when there is one.
    pub open spec fn checked_weight_type(self) -> Option<WeightLitType> {
        match self.weight {
            Some(w) => lit_weight_type(w.kind),
            None => self.weight_type,
        }
    }

    /// The variant's weight is the zero literal of a valid weight type.
    pub open spec fn has_zero_weight(self) -> bool {
        match (self.checked_weight_type(), self.weight) {
            (Some(t), Some(w)) => w.kind == t.lit_kind() && w.text@ == t.zero_text(),
            _ => false,
        }
    }

    /// The errors of the check, in the order in which they are reported.
    pub open spec fn check_errors(self) -> Seq<DeriveError> {
        (if self.weight is Some && self.skip {
            seq![DeriveError::plain(ErrorKind::SkipWithWeight)]
        } else {
            seq![]
        }) + match self.weight {
            Some(w) => match lit_weight_type(w.kind) {
                Some(_) => seq![],
                None => seq![DeriveError::plain(lit_error_kind(w.kind))],
            },
            None => seq![],
        }
    }

    /// The variant after the check: a zero weight is replaced by `skip`.
    pub open spec fn corrected(self) -> DeriveVariant {
        DeriveVariant {
            ident: self.ident,
            fields: self.fields,
            skip: self.skip || self.has_zero_weight(),
            weight: if self.has_zero_weight() {
                None
            } else {
                self.weight
            },
            weight_type: self.checked_weight_type(),
        }
    }

    /// Checks the attributes of the variant and notes down its weight type. It is an error to
    /// give both `skip` and `weight`, or a weight that is not an integer or float literal. A
    /// weight that is the zero literal of its type is removed and the variant is skipped
    /// instead.
    pub fn check_and_correct(self) -> (r: Result<DeriveVariant, Vec<DeriveError>>)
        ensures
            match r {
                Ok(v) => self.check_errors().len() == 0 && v == self.corrected(),
                Err(es) => self.check_errors().len() > 0 && es@ == self.check_errors(),
            },
    {
        let DeriveVariant { ident, fields, skip, weight, weight_type } = self;
        let mut skip = skip;
        let mut weight = weight;
        let mut weight_type = weight_type;
        let mut errors: Vec<DeriveError> = Vec::new();
        if weight.is_some() && skip {
            errors.push(DeriveError { kind: ErrorKind::SkipWithWeight, variant: None });
        }
        match &weight {
            Some(w) => match WeightLitType::try_from(w) {
                Ok(t) => {
                    weight_type = Some(t);
                },
                Err(k) => {
                    errors.push(DeriveError { kind: k, variant: None });
                    weight_type = None;
                },
            },
            None => {},
        }
        let is_zero = match (&weight_type, &weight) {
            (Some(t), Some(w)) => w.same_as(&t.get_zero()),
            _ => false,
        };
        if is_zero {
            weight = None;
            skip = true;
        }
        assert(errors@ =~= self.check_errors());
        if errors.len() == 0 {
            Ok(DeriveVariant { ident, fields, skip, weight, weight_type })
        } else {
            Err(errors)
        }
    }

    /// The struct expression `enum_name::Variant { ... }` that fills this variant's fields.
    pub fn make_struct_expression(&self, enum_name: &String) -> (e: StructExpression)
        ensures
            fills_fields_with(
                e,
                StructPath { ty_name: *enum_name, variant: Some(self.ident) },
                self.fields@,
                true,
            ),
    {
        let path = StructPath { ty_name: enum_name.clone(), variant: Some(self.ident.clone()) };
        to_struct_expression(&self.fields, path)
    }

    /// Whether the variant is never chosen.
    pub fn is_skipped(&self) -> (r: bool)
        ensures
            r == self.skip,
    {
        self.skip
    }
}

/// The weight type of the first variant among the first `n` that has one.
pub open spec fn first_weight_type(vs: Seq<DeriveVariant>, n: int) -> Option<WeightLitType>
    decreases n,
{
    if n <= 0 {
        None
    } else {
        match first_weight_type(vs, n - 1) {
            Some(t) => Some(t),
            None => vs[n - 1].weight_type,
        }
    }
}

/// Some variant is skipped.
pub open spec fn has_skip(vs: Seq<DeriveVariant>) -> bool {
    exists|i: int| 0 <= i < vs.len() && #[trigger] vs[i].skip
}

/// The indices, in increasing order, of the variants among the first `n` that are not skipped.
pub open spec fn choosable_indices(vs: Seq<DeriveVariant>, n: int) -> Seq<usize>
    decreases n,
{
    if n <= 0 {
        seq![]
    } else {
        choosable_indices(vs, n - 1) + if !vs[n - 1].skip {
            seq![(n - 1) as usize]
        } else {
            seq![]
        }
    }
}

/// The weight of variant `v` when the weights are of type `t`: zero when it is skipped, its
/// own literal when it has a valid one, else the default weight.
pub open spec fn weight_entry(v: DeriveVariant, t: WeightLitType) -> WeightEntry {
    if v.skip {
        WeightEntry::Zero(t)
    } else {
        match v.weight {
            None => WeightEntry::Default(t),
            Some(w) => match lit_weight_type(w.kind) {
                Some(_) => WeightEntry::Given(w),
                None => WeightEntry::Default(t),
            },
        }
    }
}

/// The errors of the weighted chooser among the first `n` variants: one for each variant
/// that is not skipped and whose weight literal is not a number, in order.
pub open spec fn weighted_errors(vs: Seq<DeriveVariant>, n: int) -> Seq<DeriveError>
    decreases n,
{
    if n <= 0 {
        seq![]
    } else {
        weighted_errors(vs, n - 1) + {
            let v = vs[n - 1];
            if !v.skip && v.weight is Some && lit_weight_type(v.weight->0.kind) is None {
                seq![DeriveError { kind: lit_error_kind(v.weight->0.kind), variant: Some((n - 1) as usize) }]
            } else {
                seq![]
            }
        }
    }
}

/// `c` is the weighted chooser over `vs` with weights of type `t`.
pub open spec fn is_weighted_chooser(c: VariantChooser, vs: Seq<DeriveVariant>, t: WeightLitType) -> bool {
    c matches VariantChooser::Weighted(ws) && ws@ == Seq::new(vs.len(), |i: int| weight_entry(vs[i], t))
}

/// `c` picks uniformly among the variants of `vs` that are not skipped: the constant index
/// when there is one such variant.
pub open spec fn is_skips_only_chooser(c: VariantChooser, vs: Seq<DeriveVariant>) -> bool {
    let idx = choosable_indices(vs, vs.len() as int);
    if idx.len() == 1 {
        c == VariantChooser::Single(idx[0])
    } else {
        c matches VariantChooser::AmongIndices(v) && v@ == idx
    }
}

/// The errors that building the chooser over `vs` reports.
pub open spec fn chooser_errors(vs: Seq<DeriveVariant>) -> Seq<DeriveError> {
    match first_weight_type(vs, vs.len() as int) {
        Some(_) => weighted_errors(vs, vs.len() as int),
        None => seq![],
    }
}

/// `c` is the chooser for `vs`: weighted when some variant has a weight type, the first such
/// type giving the type of every weight; else among the non-skipped variants when some
/// variant is skipped; else uniform over all variants.
pub open spec fn is_chooser_for(c: VariantChooser, vs: Seq<DeriveVariant>) -> bool {
    match first_weight_type(vs, vs.len() as int) {
        Some(t) => is_weighted_chooser(c, vs, t),
        None => if has_skip(vs) {
            is_skips_only_chooser(c, vs)
        } else {
            c == VariantChooser::Uniform(vs.len() as usize)
        },
    }
}

/// A chooser can be built for `vs`: it is not the case that every variant is skipped while
/// no variant has a weight type.
pub open spec fn chooser_requires(vs: Seq<DeriveVariant>) -> bool {
    !(first_weight_type(vs, vs.len() as int) is None && vs.len() > 0 && forall|j: int|
        0 <= j < vs.len() ==> #[trigger] vs[j].skip)
}

/// The indices listed by `choosable_indices` are, in increasing order, exactly the variants
/// that are not skipped.
pub proof fn lemma_choosable_indices(vs: Seq<DeriveVariant>, n: int)
    requires
        0 <= n <= vs.len(),
        vs.len() <= usize::MAX,
    ensures
        forall|k: int|
            0 <= k < choosable_indices(vs, n).len() ==> (choosable_indices(vs, n)[k] as int) < n
                && !vs[choosable_indices(vs, n)[k] as int].skip,
        forall|k: int, l: int|
            0 <= k < l < choosable_indices(vs, n).len() ==> choosable_indices(vs, n)[k]
                < choosable_indices(vs, n)[l],
        forall|j: int| 0 <= j < n && !vs[j].skip ==> choosable_indices(vs, n).contains(j as usize),
        choosable_indices(vs, n).len() <= n,
    decreases n,
{
    if n > 0 {
        lemma_choosable_indices(vs, n - 1);
        let prev = choosable_indices(vs, n - 1);
        let cur = choosable_indices(vs, n);
        assert forall|k: int| 0 <= k < cur.len() implies (cur[k] as int) < n && !vs[cur[k] as int].skip by {
            if k < prev.len() {
                assert(cur[k] == prev[k]);
            } else {
                assert(!vs[n - 1].skip);
                assert(cur[k] == (n - 1) as usize);
            }
        }
        assert forall|k: int, l: int| 0 <= k < l < cur.len() implies cur[k] < cur[l] by {
            assert(cur[k] == prev[k]);
            assert((prev[k] as int) < n - 1);
            if l < prev.len() {
                assert(cur[l] == prev[l]);
            } else {
                assert(cur[l] == (n - 1) as usize);
            }
        }
        assert forall|j: int| 0 <= j < n && !vs[j].skip implies cur.contains(j as usize) by {
            if j < n - 1 {
                let k = choose|k: int| 0 <= k < prev.len() && prev[k] == j as usize;
                assert(cur[k] == j as usize);
            } else {
                assert(cur[cur.len() - 1] == j as usize);
            }
        }
    }
}

/// The chooser among non-skipped variants, for a list that has one: the constant index when
/// there is exactly one, else a random choice among their indices.
pub fn generate_variant_chooser_skips_only(variants: &[DeriveVariant]) -> (c: VariantChooser)
    requires
        exists|j: int| 0 <= j < variants@.len() && !#[trigger] variants@[j].skip,
    ensures
        is_skips_only_chooser(c, variants@),
{
    let mut choosable: Vec<usize> = Vec::new();
    for i in 0..variants.len()
        invariant
            choosable@ == choosable_indices(variants@, i as int),
    {
        if !variants[i].skip {
            choosable.push(i);
        }
    }
    if choosable.len() == 1 {
        VariantChooser::Single(choosable[0])
    } else {
        VariantChooser::AmongIndices(choosable)
    }
}

/// The weighted chooser: each variant gets its weight entry; a variant whose weight literal
/// is not a number gets the default weight and an error.
pub fn generate_variant_chooser_weighted(
    variants: &[DeriveVariant],
    default_weight_type: WeightLitType,
) -> (r: Result<VariantChooser, Vec<DeriveError>>)
    ensures
        match r {
            Ok(c) => weighted_errors(variants@, variants@.len() as int).len() == 0
                && is_weighted_chooser(c, variants@, default_weight_type),
            Err(es) => weighted_errors(variants@, variants@.len() as int).len() > 0 && es@
                == weighted_errors(variants@, variants@.len() as int),
        },
{
    let mut weights: Vec<WeightEntry> = Vec::new();
    let mut errors: Vec<DeriveError> = Vec::new();
    for i in 0..variants.len()
        invariant
            weights@ == Seq::new(i as nat, |j: int| weight_entry(variants@[j], default_weight_type)),
            errors@ == weighted_errors(variants@, i as int),
    {
        let v = &variants[i];
        let entry = if v.skip {
            WeightEntry::Zero(default_weight_type)
        } else {
            match &v.weight {
                None => WeightEntry::Default(default_weight_type),
                Some(w) => match WeightLitType::try_from(w) {
                    Ok(_) => WeightEntry::Given(w.duplicate()),
                    Err(k) => {
                        errors.push(DeriveError { kind: k, variant: Some(i) });
                        WeightEntry::Default(default_weight_type)
                    },
                },
            }
        };
        weights.push(entry);
        assert(weights@ =~= Seq::new((i + 1) as nat, |j: int| weight_entry(variants@[j], default_weight_type)));
    }
    if errors.len() == 0 {
        Ok(VariantChooser::Weighted(weights))
    } else {
        Err(errors)
    }
}

/// The chooser for the variants of an enum, see [`is_chooser_for`].
pub fn generate_variant_chooser(variants: &[DeriveVariant]) -> (r: Result<VariantChooser, Vec<DeriveError>>)
    requires
        chooser_requires(variants@),
    ensures
        match r {
            Ok(c) => chooser_errors(variants@).len() == 0 && is_chooser_for(c, variants@),
            Err(es) => chooser_errors(variants@).len() > 0 && es@ == chooser_errors(variants@),
        },
{
    let mut first: Option<WeightLitType> = None;
    for i in 0..variants.len()
        invariant
            first == first_weight_type(variants@, i as int),
    {
        match first {
            Some(_) => {},
            None => {
                first = variants[i].weight_type;
            },
        }
    }
    if let Some(default_weight_type) = first {
        return generate_variant_chooser_weighted(variants, default_weight_type);
    }
    let mut has = false;
    for i in 0..variants.len()
        invariant
            has == exists|j: int| 0 <= j < i && #[trigger] variants@[j].skip,
    {
        has = has || variants[i].skip;
    }
    if has {
        return Ok(generate_variant_chooser_skips_only(variants));
    }
    Ok(VariantChooser::Uniform(variants.len()))
}

/// The body of `sample` for an enum: choose a variant index, then build that variant.
pub fn generate_enum_sample_code(variants: &Vec<DeriveVariant>, enum_name: &String) -> (r: Result<
    SampleCode,
    Vec<DeriveError>,
>)
    requires
        chooser_requires(variants@),
    ensures
        match r {
            Ok(code) => chooser_errors(variants@).len() == 0 && is_enum_code_for(
                code,
                variants@,
                *enum_name,
            ),
            Err(es) => chooser_errors(variants@).len() > 0 && es@ == chooser_errors(variants@),
        },
{
    let mut arms: Vec<StructExpression> = Vec::new();
    for i in 0..variants.len()
        invariant
            arms@.len() == i,
            forall|j: int| 0 <= j < i ==> fills_fields_with(
                #[trigger] arms@[j],
                StructPath { ty_name: *enum_name, variant: Some(variants@[j].ident) },
                variants@[j].fields@,
                true,
            ),
    {
        arms.push(variants[i].make_struct_expression(enum_name));
    }
    let chooser = generate_variant_chooser(variants.as_slice())?;
    Ok(SampleCode::Enum { chooser, arms })
}

/// `code` chooses a variant of `vs` as [`is_chooser_for`] says and builds it with the arm
/// that [`arms_for`] gives.
pub open spec fn is_enum_code_for(code: SampleCode, vs: Seq<DeriveVariant>, enum_name: String) -> bool {
    &&& code matches SampleCode::Enum { chooser, arms }
    &&& is_chooser_for(chooser, vs)
    &&& arms_for(arms@, vs, enum_name)
}

/// `arms[i]` builds variant `i` of the enum `enum_name`, for each variant.
pub open spec fn arms_for(arms: Seq<StructExpression>, vs: Seq<DeriveVariant>, enum_name: String) -> bool {
    &&& arms.len() == vs.len()
    &&& forall|i: int| 0 <= i < vs.len() ==> fills_fields_with(
        #[trigger] arms[i],
        StructPath { ty_name: enum_name, variant: Some(vs[i].ident) },
        vs[i].fields@,
        true,
    )
}

} // verus!
