//! What the checks and the generated code mean, stated from the input's flags and literals
//! directly rather than through the spec functions that the implementations follow.
use vstd::prelude::*;

use crate::code::{FieldInit, Member, SampleCode, StructExpression, StructPath, VariantChooser, WeightEntry};
use crate::derive_field::{fills_fields_with, DeriveField};
use crate::derive_sample_uniform::default_sampler_path;
use crate::derive_standard_distribution::{data_errors, is_code_for, Data};
use crate::standard_distribution::is_uniform_code_for;
use crate::derive_variant::{
    choosable_indices, first_weight_type, has_skip, is_chooser_for, is_weighted_chooser,
    lemma_choosable_indices, weighted_errors, DeriveVariant, LitKind, WeightLit, WeightLitType,
};
use crate::error::{DeriveError, ErrorKind};

verus! {

/// The initialiser that a field with skip flag `skip` gets: `Default::default()` for a skipped
/// field, `rng.gen()` for any other.
pub open spec fn init_for_skip(skip: bool) -> FieldInit {
    if skip {
        FieldInit::DefaultValue
    } else {
        FieldInit::Random
    }
}

/// The check of the whole input: a struct always passes; an enum gets `ZeroVariants` exactly
/// when it has no variant, `NoChoosableVariant` exactly when every variant is skipped, and no
/// error at all as soon as one variant is not skipped.
pub proof fn law_item_check(data: Data)
    ensures
        data is Struct ==> data_errors(data).len() == 0,
        data matches Data::Enum(vs) ==> {
            &&& data_errors(data).contains(DeriveError { kind: ErrorKind::NoChoosableVariant, variant: None })
                <==> (forall|j: int| 0 <= j < vs@.len() ==> (#[trigger] vs@[j]).skip)
            &&& data_errors(data).contains(DeriveError { kind: ErrorKind::ZeroVariants, variant: None })
                <==> vs@.len() == 0
            &&& (exists|j: int| 0 <= j < vs@.len() && !(#[trigger] vs@[j]).skip) ==> data_errors(data).len() == 0
            &&& vs@.len() == 0 ==> data_errors(data) == seq![
                DeriveError { kind: ErrorKind::ZeroVariants, variant: None },
                DeriveError { kind: ErrorKind::NoChoosableVariant, variant: None },
            ]
            &&& forall|e: DeriveError| #[trigger] data_errors(data).contains(e) ==> e.variant is None
        },
{
    if let Data::Enum(vs) = data {
        let es = data_errors(data);
        let zero = DeriveError { kind: ErrorKind::ZeroVariants, variant: None };
        let none = DeriveError { kind: ErrorKind::NoChoosableVariant, variant: None };
        let all = forall|j: int| 0 <= j < vs@.len() ==> (#[trigger] vs@[j]).skip;
        if vs@.len() == 0 {
            assert(all);
            assert(es =~= seq![zero, none]);
            assert(es[0] == zero);
            assert(es[1] == none);
        } else if all {
            assert(es =~= seq![none]);
            assert(es[0] == none);
        } else {
            assert(es =~= Seq::<DeriveError>::empty());
        }
    }
}

/// A struct expression that fills `fields` at `path` names field `i` by its identifier, or by
/// its position `i` when it has none, and fills it from `Default` exactly when skips are
/// honoured and the field is skipped, randomly otherwise.
pub proof fn law_struct_expression(
    e: StructExpression,
    path: StructPath,
    fields: Seq<DeriveField>,
    honor_skip: bool,
)
    requires
        fills_fields_with(e, path, fields, honor_skip),
    ensures
        e.path == path,
        e.fields@.len() == fields.len(),
        forall|i: int|
            0 <= i < fields.len() ==> (#[trigger] e.fields@[i]).init == init_for_skip(
                honor_skip && fields[i].skip,
            ),
        forall|i: int|
            0 <= i < fields.len() ==> (#[trigger] e.fields@[i]).member == match fields[i].ident {
                Some(name) => Member::Named(name),
                None => Member::Index(i as usize),
            },
{
    assert forall|i: int| 0 <= i < fields.len() implies (#[trigger] e.fields@[i]).init
        == init_for_skip(honor_skip && fields[i].skip) by {
        assert(e.fields@[i] == e.fields@[i]);
    }
}

/// The body of `sample` for a struct is the struct expression at the struct's own path that
/// fills field `i` from `Default` exactly when the field is skipped, randomly otherwise.
pub proof fn law_struct_code(code: SampleCode, fields: Vec<DeriveField>, ident: String)
    requires
        is_code_for(code, Data::Struct(fields), ident),
    ensures
        code is Struct,
        code->Struct_0.path == (StructPath { ty_name: ident, variant: None }),
        code->Struct_0.fields@.len() == fields@.len(),
        forall|i: int|
            0 <= i < fields@.len() ==> (#[trigger] code->Struct_0.fields@[i]).init == init_for_skip(
                fields@[i].skip,
            ),
{
    law_struct_expression(code->Struct_0, StructPath { ty_name: ident, variant: None }, fields@, true);
}

/// The literal kinds that a weight may have.
pub open spec fn is_number_kind(k: LitKind) -> bool {
    k == LitKind::Int || k == LitKind::Float
}

/// The literal is exactly `0` (an integer) or `0.0` (a float).
pub open spec fn is_zero_weight(w: WeightLit) -> bool {
    ||| (w.kind == LitKind::Int && w.text@ == seq!['0'])
    ||| (w.kind == LitKind::Float && w.text@ == seq!['0', '.', '0'])
}

/// The error of the variant check for a weight literal of kind `k` that is not a number.
pub open spec fn bad_weight_error(k: LitKind) -> ErrorKind {
    if k == LitKind::Unknown {
        ErrorKind::UnknownLiteral
    } else {
        ErrorKind::WeightNotNumber
    }
}

/// The check of one variant looks at the variant's own `skip` flag and weight only: it reports
/// `skip` together with `weight` exactly when the variant itself has both, and a bad weight
/// exactly when the weight is not an integer or float literal, in that order; it passes
/// exactly when neither holds, whatever the fields are. After the check, the variant is
/// skipped exactly when it was, or when its weight is `0`/`0.0`, in which case the weight is
/// dropped; its weight type is that of its weight literal.
pub proof fn law_variant_check(v: DeriveVariant)
    ensures
        v.check_errors().contains(DeriveError { kind: ErrorKind::SkipWithWeight, variant: None })
            <==> (v.skip && v.weight is Some),
        v.check_errors().contains(DeriveError { kind: ErrorKind::WeightNotNumber, variant: None })
            <==> (v.weight is Some && !is_number_kind(v.weight->0.kind) && v.weight->0.kind != LitKind::Unknown),
        v.check_errors().contains(DeriveError { kind: ErrorKind::UnknownLiteral, variant: None })
            <==> (v.weight is Some && v.weight->0.kind == LitKind::Unknown),
        v.check_errors().len() == 0 <==> (!(v.skip && v.weight is Some) && (v.weight is Some
            ==> is_number_kind(v.weight->0.kind))),
        v.skip && v.weight is Some ==> v.check_errors()[0] == (DeriveError { kind: ErrorKind::SkipWithWeight, variant: None }),
        forall|e: DeriveError| #[trigger] v.check_errors().contains(e) ==> e.variant is None,
        v.corrected().ident == v.ident,
        v.corrected().fields == v.fields,
        v.corrected().skip <==> (v.skip || (v.weight is Some && is_zero_weight(v.weight->0))),
        v.corrected().weight == (if v.weight is Some && is_zero_weight(v.weight->0) {
            None
        } else {
            v.weight
        }),
        v.weight is Some ==> v.corrected().weight_type == (if v.weight->0.kind == LitKind::Int {
            Some(WeightLitType::Int)
        } else if v.weight->0.kind == LitKind::Float {
            Some(WeightLitType::Float)
        } else {
            None
        }),
        v.weight is None ==> v.corrected().weight_type == v.weight_type,
{
    let es = v.check_errors();
    let sw = DeriveError { kind: ErrorKind::SkipWithWeight, variant: None };
    match v.weight {
        Some(w) => {
            let lit_err = DeriveError { kind: bad_weight_error(w.kind), variant: None };
            if v.skip {
                if is_number_kind(w.kind) {
                    assert(es =~= seq![sw]);
                } else {
                    assert(es =~= seq![sw, lit_err]);
                    assert(es[1] == lit_err);
                }
                assert(es[0] == sw);
            } else {
                if is_number_kind(w.kind) {
                    assert(es =~= Seq::<DeriveError>::empty());
                } else {
                    assert(es =~= seq![lit_err]);
                    assert(es[0] == lit_err);
                }
            }
        },
        None => {
            assert(es =~= Seq::<DeriveError>::empty());
        },
    }
}

/// The weighted chooser with weights of type `t` has one entry per variant: the zero literal of
/// `t` for a skipped variant, the variant's own literal when it is an integer or float
/// literal, and the default literal of `t` otherwise.
pub proof fn law_weighted_chooser(c: VariantChooser, vs: Seq<DeriveVariant>, t: WeightLitType)
    requires
        is_weighted_chooser(c, vs, t),
    ensures
        c is Weighted,
        c->Weighted_0@.len() == vs.len(),
        forall|i: int| 0 <= i < vs.len() && vs[i].skip ==> #[trigger] c->Weighted_0@[i] == WeightEntry::Zero(t),
        forall|i: int|
            0 <= i < vs.len() && !vs[i].skip && vs[i].weight is None ==> #[trigger] c->Weighted_0@[i]
                == WeightEntry::Default(t),
        forall|i: int|
            0 <= i < vs.len() && !vs[i].skip && vs[i].weight is Some && is_number_kind(vs[i].weight->0.kind)
                ==> #[trigger] c->Weighted_0@[i] == WeightEntry::Given(vs[i].weight->0),
        forall|i: int|
            0 <= i < vs.len() && !vs[i].skip && vs[i].weight is Some && !is_number_kind(vs[i].weight->0.kind)
                ==> #[trigger] c->Weighted_0@[i] == WeightEntry::Default(t),
{
}

/// The weighted chooser reports one error for each variant that is not skipped and whose
/// weight literal is not a number, tagged with the variant's index, and no other.
pub proof fn law_weighted_errors(vs: Seq<DeriveVariant>, n: int)
    requires
        0 <= n <= vs.len(),
        vs.len() <= usize::MAX,
    ensures
        forall|e: DeriveError|
            #[trigger] weighted_errors(vs, n).contains(e) <==> exists|i: int|
                0 <= i < n && !(#[trigger] vs[i]).skip && vs[i].weight is Some && !is_number_kind(
                    vs[i].weight->0.kind,
                ) && e == (DeriveError {
                    kind: bad_weight_error(vs[i].weight->0.kind),
                    variant: Some(i as usize),
                }),
    decreases n,
{
    if n > 0 {
        law_weighted_errors(vs, n - 1);
        let prev = weighted_errors(vs, n - 1);
        let cur = weighted_errors(vs, n);
        assert forall|e: DeriveError| #[trigger] cur.contains(e) <==> exists|i: int|
            0 <= i < n && !(#[trigger] vs[i]).skip && vs[i].weight is Some && !is_number_kind(
                vs[i].weight->0.kind,
            ) && e == (DeriveError {
                kind: bad_weight_error(vs[i].weight->0.kind),
                variant: Some(i as usize),
            }) by {
            if cur.contains(e) {
                let k = choose|k: int| 0 <= k < cur.len() && cur[k] == e;
                if k < prev.len() {
                    assert(prev[k] == e);
                    assert(prev.contains(e));
                } else {
                    assert(!vs[n - 1].skip);
                }
            }
            if exists|i: int|
                0 <= i < n && !(#[trigger] vs[i]).skip && vs[i].weight is Some && !is_number_kind(
                    vs[i].weight->0.kind,
                ) && e == (DeriveError {
                    kind: bad_weight_error(vs[i].weight->0.kind),
                    variant: Some(i as usize),
                }) {
                let i = choose|i: int|
                    0 <= i < n && !(#[trigger] vs[i]).skip && vs[i].weight is Some && !is_number_kind(
                        vs[i].weight->0.kind,
                    ) && e == (DeriveError {
                        kind: bad_weight_error(vs[i].weight->0.kind),
                        variant: Some(i as usize),
                    });
                if i < n - 1 {
                    assert(prev.contains(e));
                    let k = choose|k: int| 0 <= k < prev.len() && prev[k] == e;
                    assert(cur[k] == e);
                } else {
                    assert(cur[cur.len() - 1] == e);
                }
            }
        }
    }
}

proof fn lemma_first_weight_type_least(vs: Seq<DeriveVariant>, n: int)
    requires
        0 <= n <= vs.len(),
    ensures
        (forall|j: int| 0 <= j < n ==> (#[trigger] vs[j]).weight_type is None) ==> first_weight_type(vs, n) is None,
        forall|k: int|
            0 <= k < n && (#[trigger] vs[k]).weight_type is Some && (forall|j: int|
                0 <= j < k ==> (#[trigger] vs[j]).weight_type is None) ==> first_weight_type(vs, n)
                == vs[k].weight_type,
    decreases n,
{
    if n > 0 {
        lemma_first_weight_type_least(vs, n - 1);
        assert forall|k: int|
            0 <= k < n && (#[trigger] vs[k]).weight_type is Some && (forall|j: int|
                0 <= j < k ==> (#[trigger] vs[j]).weight_type is None) implies first_weight_type(vs, n)
            == vs[k].weight_type by {
            if k == n - 1 {
                assert forall|j: int| 0 <= j < n - 1 implies (#[trigger] vs[j]).weight_type is None by {}
            }
        }
    }
}

/// How the variant is chosen. When some variant has a weight type, the chooser is weighted with
/// the weight type of the first such variant. Otherwise, when some variant is skipped, it picks
/// among exactly the variants that are not skipped: a random choice among their indices in
/// increasing order, or the one index when only one is left. Otherwise it is uniform over all
/// variants.
pub proof fn law_chooser_cases(c: VariantChooser, vs: Seq<DeriveVariant>)
    requires
        is_chooser_for(c, vs),
        vs.len() <= usize::MAX,
    ensures
        forall|k: int|
            0 <= k < vs.len() && (#[trigger] vs[k]).weight_type is Some && (forall|j: int|
                0 <= j < k ==> (#[trigger] vs[j]).weight_type is None) ==> is_weighted_chooser(
                c,
                vs,
                vs[k].weight_type->0,
            ),
        (forall|j: int| 0 <= j < vs.len() ==> (#[trigger] vs[j]).weight_type is None) && (exists|j: int|
            0 <= j < vs.len() && (#[trigger] vs[j]).skip) ==> {
            &&& (c is Single || c is AmongIndices)
            &&& forall|i: int| #[trigger] c.may_choose(i) <==> (0 <= i < vs.len() && !vs[i].skip)
            &&& c matches VariantChooser::AmongIndices(v) ==> forall|a: int, b: int|
                0 <= a < b < v@.len() ==> v@[a] < v@[b]
            &&& c matches VariantChooser::AmongIndices(v) ==> v@.len() != 1
            &&& c matches VariantChooser::Single(j) ==> forall|i: int|
                0 <= i < vs.len() ==> ((#[trigger] vs[i]).skip <==> i != j)
        },
        (forall|j: int| 0 <= j < vs.len() ==> (#[trigger] vs[j]).weight_type is None && !vs[j].skip)
            ==> c == VariantChooser::Uniform(vs.len() as usize),
{
    let n = vs.len() as int;
    lemma_first_weight_type_least(vs, n);
    if (forall|j: int| 0 <= j < n ==> (#[trigger] vs[j]).weight_type is None) && (exists|j: int|
        0 <= j < n && (#[trigger] vs[j]).skip) {
        assert(has_skip(vs));
        lemma_choosable_indices(vs, n);
        let idx = choosable_indices(vs, n);
        if let VariantChooser::Single(j) = c {
            assert forall|i: int| 0 <= i < n implies ((#[trigger] vs[i]).skip <==> i != j) by {
                if !vs[i].skip {
                    assert(idx.contains(i as usize));
                    let k = choose|k: int| 0 <= k < idx.len() && idx[k] == i as usize;
                    assert(k == 0);
                }
            }
        }
        assert forall|i: int| #[trigger] c.may_choose(i) <==> (0 <= i < n && !vs[i].skip) by {
            if c.may_choose(i) {
                if idx.len() != 1 {
                    let k = choose|k: int| 0 <= k < idx.len() && idx[k] as int == i;
                }
            }
            if 0 <= i < n && !vs[i].skip {
                assert(idx.contains(i as usize));
                let k = choose|k: int| 0 <= k < idx.len() && idx[k] == i as usize;
                assert(idx[k] as int == i);
            }
        }
    }
    if forall|j: int| 0 <= j < n ==> (#[trigger] vs[j]).weight_type is None && !vs[j].skip {
        if has_skip(vs) {
            let j = choose|j: int| 0 <= j < n && #[trigger] vs[j].skip;
            assert(!vs[j].skip);
        }
    }
}

/// The body of `sample` for an enum chooses a variant with the chooser that
/// [`law_chooser_cases`] describes and has one arm per variant, in order: arm `i` builds
/// variant `i` of the enum, filling each of its fields from `Default` exactly when the field
/// is skipped, randomly otherwise.
pub proof fn law_enum_code(code: SampleCode, variants: Vec<DeriveVariant>, ident: String)
    requires
        is_code_for(code, Data::Enum(variants), ident),
    ensures
        code is Enum,
        is_chooser_for(code->chooser, variants@),
        code->arms@.len() == variants@.len(),
        forall|i: int|
            0 <= i < variants@.len() ==> (#[trigger] code->arms@[i]).path == (StructPath {
                ty_name: ident,
                variant: Some(variants@[i].ident),
            }),
        forall|i: int|
            0 <= i < variants@.len() ==> (#[trigger] code->arms@[i]).fields@.len()
                == variants@[i].fields@.len(),
        forall|i: int, k: int|
            0 <= i < variants@.len() && 0 <= k < variants@[i].fields@.len() ==> (#[trigger] code->arms@[i].fields@[k]).init
                == init_for_skip(variants@[i].fields@[k].skip),
{
    let arms = code->arms@;
    assert forall|i: int, k: int|
        0 <= i < variants@.len() && 0 <= k < variants@[i].fields@.len() implies (#[trigger] code->arms@[i].fields@[k]).init
        == init_for_skip(variants@[i].fields@[k].skip) by {
        law_struct_expression(
            arms[i],
            StructPath { ty_name: ident, variant: Some(variants@[i].ident) },
            variants@[i].fields@,
            true,
        );
    }
}

/// The literals that the generated code writes for a weight type: the default weight is `1`
/// (`1.0` for floats), the weight of a skipped variant `0` (`0.0`), both of the type's own
/// literal kind.
pub proof fn law_weight_literals(t: WeightLitType)
    ensures
        t.default_text() == (if t == WeightLitType::Int {
            seq!['1']
        } else {
            seq!['1', '.', '0']
        }),
        t.zero_text() == (if t == WeightLitType::Int {
            seq!['0']
        } else {
            seq!['0', '.', '0']
        }),
        t.lit_kind() == (if t == WeightLitType::Int {
            LitKind::Int
        } else {
            LitKind::Float
        }),
{
}

/// The default sampler path of an item named `ident` is `self::`, then the name, then
/// `UniformSampler`.
pub proof fn law_default_sampler_path(ident: Seq<char>)
    ensures
        default_sampler_path(ident).len() == ident.len() + 20,
        default_sampler_path(ident).subrange(0, 6) == seq!['s', 'e', 'l', 'f', ':', ':'],
        default_sampler_path(ident).subrange(6, 6 + ident.len() as int) == ident,
        default_sampler_path(ident).subrange(6 + ident.len() as int, 20 + ident.len() as int) == seq![
            'U',
            'n',
            'i',
            'f',
            'o',
            'r',
            'm',
            'S',
            'a',
            'm',
            'p',
            'l',
            'e',
            'r',
        ],
{
    let p = default_sampler_path(ident);
    assert(p.subrange(0, 6) =~= seq!['s', 'e', 'l', 'f', ':', ':']);
    assert(p.subrange(6, 6 + ident.len() as int) =~= ident);
    assert(p.subrange(6 + ident.len() as int, 20 + ident.len() as int) =~= seq![
        'U',
        'n',
        'i',
        'f',
        'o',
        'r',
        'm',
        'S',
        'a',
        'm',
        'p',
        'l',
        'e',
        'r',
    ]);
}

/// The older body of `sample` ignores the attributes: a variant is chosen uniformly over all
/// variants, arm `i` builds variant `i`, and every field of a struct or variant is random.
pub proof fn law_uniform_code(code: SampleCode, data: Data, ident: String)
    requires
        is_uniform_code_for(code, data, ident),
    ensures
        data is Struct ==> code is Struct && code->Struct_0.path == (StructPath { ty_name: ident, variant: None })
            && forall|k: int| 0 <= k < code->Struct_0.fields@.len() ==> (#[trigger] code->Struct_0.fields@[k]).init == FieldInit::Random,
        data matches Data::Enum(vs) ==> {
            &&& code is Enum
            &&& code->chooser == VariantChooser::Uniform(vs@.len() as usize)
            &&& code->arms@.len() == vs@.len()
            &&& forall|i: int| 0 <= i < vs@.len() ==> (#[trigger] code->arms@[i]).path == (StructPath {
                ty_name: ident,
                variant: Some(vs@[i].ident),
            })
            &&& forall|i: int, k: int|
                0 <= i < vs@.len() && 0 <= k < code->arms@[i].fields@.len() ==> (#[trigger] code->arms@[i].fields@[k]).init
                    == FieldInit::Random
        },
{
    match data {
        Data::Struct(fs) => {
            law_struct_expression(code->Struct_0, StructPath { ty_name: ident, variant: None }, fs@, false);
        },
        Data::Enum(vs) => {
            assert forall|i: int, k: int|
                0 <= i < vs@.len() && 0 <= k < code->arms@[i].fields@.len() implies (#[trigger] code->arms@[i].fields@[k]).init
                == FieldInit::Random by {
                law_struct_expression(
                    code->arms@[i],
                    StructPath { ty_name: ident, variant: Some(vs@[i].ident) },
                    vs@[i].fields@,
                    false,
                );
            }
        },
    }
}

} // verus!
