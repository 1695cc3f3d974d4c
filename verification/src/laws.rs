use vstd::prelude::*;

use crate::code::{SampleCode, VariantChooser};
use crate::derive_standard_distribution::{
    can_generate, code_errors, data_errors, enum_errors, is_code_for, Data,
};
use crate::derive_variant::{
    chooser_errors, weighted_errors,
    choosable_indices, first_weight_type, has_skip, is_chooser_for, lemma_choosable_indices,
    lit_weight_type, weight_entry, DeriveVariant, WeightLitType,
};
use crate::standard_distribution::is_uniform_code_for;

verus! {

/// What the check of a variant leaves behind: a variant with a weight is not skipped, its
/// weight is an integer or float literal other than the zero literal, and its weight type is
/// that of the literal.
pub open spec fn is_checked_variant(v: DeriveVariant) -> bool {
    match v.weight {
        Some(w) => {
            &&& lit_weight_type(w.kind) is Some
            &&& !w.is_zero_literal()
            &&& !v.skip
            &&& v.weight_type == lit_weight_type(w.kind)
        },
        None => true,
    }
}

/// A variant that passes its check comes out checked.
pub proof fn lemma_check_gives_checked_variant(v: DeriveVariant)
    requires
        v.check_errors().len() == 0,
    ensures
        is_checked_variant(v.corrected()),
{
}

/// A zero weight has the effect of `skip`: a variant that is not skipped and whose weight is
/// `0` (or `0.0`) passes its check and comes out skipped, without a weight.
pub proof fn lemma_zero_weight_is_skip(v: DeriveVariant)
    requires
        !v.skip,
        v.weight matches Some(w) && w.is_zero_literal(),
    ensures
        v.check_errors().len() == 0,
        v.corrected().skip,
        v.corrected().weight is None,
{
}

/// A skipped variant stays skipped after its check, and a variant is only ever skipped by its
/// own `skip` flag or a zero weight.
pub proof fn lemma_skip_kept(v: DeriveVariant)
    ensures
        v.corrected().skip == (v.skip || (v.weight matches Some(w) && w.is_zero_literal())),
{
}

/// The chooser is weighted exactly when some variant has a weight type, that is, when some
/// variant was given a weight (a zero weight included).
pub proof fn lemma_weighted_iff_weight_type(vs: Seq<DeriveVariant>, c: VariantChooser)
    requires
        is_chooser_for(c, vs),
    ensures
        c is Weighted <==> first_weight_type(vs, vs.len() as int) is Some,
{
}

/// Over checked variants, the generated chooser can pick exactly the variants that are not
/// skipped, and never an index outside the variants; so a skipped variant is never generated
/// and the fallback arm `_ => unreachable!()` is never taken.
pub proof fn lemma_chooser_picks_non_skipped(vs: Seq<DeriveVariant>, c: VariantChooser)
    requires
        vs.len() <= usize::MAX,
        forall|i: int| 0 <= i < vs.len() ==> is_checked_variant(#[trigger] vs[i]),
        is_chooser_for(c, vs),
    ensures
        forall|i: int| 0 <= i < vs.len() ==> (c.may_choose(i) <==> !vs[i].skip),
        forall|i: int| c.may_choose(i) ==> 0 <= i < vs.len(),
{
    match first_weight_type(vs, vs.len() as int) {
        Some(t) => {
            assert forall|i: int| 0 <= i < vs.len() implies (c.may_choose(i) <==> !vs[i].skip) by {
                assert(is_checked_variant(vs[i]));
            }
        },
        None => {
            if has_skip(vs) {
                lemma_choosable_indices(vs, vs.len() as int);
                let idx = choosable_indices(vs, vs.len() as int);
                assert forall|i: int| c.may_choose(i) implies 0 <= i < vs.len() && !vs[i].skip by {
                    if idx.len() != 1 {
                        let k = choose|k: int| 0 <= k < idx.len() && idx[k] as int == i;
                        assert(idx[k] as int == i);
                    }
                }
                assert forall|i: int| 0 <= i < vs.len() && !vs[i].skip implies c.may_choose(i) by {
                    assert(idx.contains(i as usize));
                    let k = choose|k: int| 0 <= k < idx.len() && idx[k] == i as usize;
                    assert(idx[k] as int == i);
                }
            } else {
                assert forall|i: int| 0 <= i < vs.len() implies !vs[i].skip by {
                    if vs[i].skip {
                        assert(has_skip(vs));
                    }
                }
            }
        },
    }
}

/// An input that passes the check of the whole item can always be generated: an enum has a
/// variant that is not skipped, so a chooser can be built for it.
pub proof fn lemma_checked_data_can_generate(data: Data)
    requires
        data_errors(data).len() == 0,
    ensures
        can_generate(data),
        data matches Data::Enum(vs) ==> exists|j: int| 0 <= j < vs@.len() && !#[trigger] vs@[j].skip,
{
    if let Data::Enum(vs) = data {
        assert(!forall|j: int| 0 <= j < vs@.len() ==> #[trigger] vs@[j].skip);
    }
}

/// The generated chooser of a checked enum always has a variant to pick, so a weighted index
/// always has an entry that is not the literal `0`/`0.0`, and a random choice among indices
/// never has an empty list. (Weights spelled otherwise, such as `0u32`, are not read as numbers
/// here.)
pub proof fn lemma_checked_enum_chooses_something(vs: Seq<DeriveVariant>, c: VariantChooser)
    requires
        vs.len() <= usize::MAX,
        forall|i: int| 0 <= i < vs.len() ==> is_checked_variant(#[trigger] vs[i]),
        exists|j: int| 0 <= j < vs.len() && !#[trigger] vs[j].skip,
        is_chooser_for(c, vs),
    ensures
        exists|i: int| #[trigger] c.may_choose(i),
{
    lemma_chooser_picks_non_skipped(vs, c);
    let j = choose|j: int| 0 <= j < vs.len() && !#[trigger] vs[j].skip;
    assert(c.may_choose(j));
}

proof fn lemma_no_weight_type(vs: Seq<DeriveVariant>, n: int)
    requires
        0 <= n <= vs.len(),
        forall|i: int| 0 <= i < vs.len() ==> (#[trigger] vs[i]).weight_type is None,
    ensures
        first_weight_type(vs, n) is None,
    decreases n,
{
    if n > 0 {
        lemma_no_weight_type(vs, n - 1);
    }
}

proof fn lemma_checked_no_weighted_errors(vs: Seq<DeriveVariant>, n: int)
    requires
        0 <= n <= vs.len(),
        forall|i: int| 0 <= i < vs.len() ==> is_checked_variant(#[trigger] vs[i]),
    ensures
        weighted_errors(vs, n).len() == 0,
    decreases n,
{
    if n > 0 {
        lemma_checked_no_weighted_errors(vs, n - 1);
        assert(is_checked_variant(vs[n - 1]));
    }
}

/// Building the chooser over checked variants reports no error: a weight literal that is not
/// a number is already rejected by the variant's own check. With
/// [`lemma_checked_data_can_generate`], an input that passes its checks always gets its impl.
pub proof fn lemma_checked_variants_have_no_chooser_errors(vs: Seq<DeriveVariant>)
    requires
        forall|i: int| 0 <= i < vs.len() ==> is_checked_variant(#[trigger] vs[i]),
    ensures
        chooser_errors(vs).len() == 0,
{
    lemma_checked_no_weighted_errors(vs, vs.len() as int);
}

/// Every variant of an enum input has passed its own check.
pub open spec fn has_checked_variants(data: Data) -> bool {
    match data {
        Data::Enum(vs) => forall|i: int| 0 <= i < vs@.len() ==> is_checked_variant(#[trigger] vs@[i]),
        Data::Struct(_) => true,
    }
}

/// An input whose variants and whole item pass their checks always gets its impl, and in the
/// generated `sample` the variant chosen is one that is not skipped, every such variant can be
/// chosen, and some variant always is.
pub proof fn lemma_checked_input_generates(data: Data, ident: String, code: SampleCode)
    requires
        data_errors(data).len() == 0,
        has_checked_variants(data),
    ensures
        can_generate(data),
        code_errors(data).len() == 0,
        is_code_for(code, data, ident) ==> match data {
            Data::Enum(vs) => match code {
                SampleCode::Enum { chooser, arms } => {
                    &&& forall|i: int| 0 <= i < vs@.len() ==> (chooser.may_choose(i) <==> !vs@[i].skip)
                    &&& forall|i: int| chooser.may_choose(i) ==> 0 <= i < arms@.len()
                    &&& exists|i: int| #[trigger] chooser.may_choose(i)
                },
                SampleCode::Struct(_) => false,
            },
            Data::Struct(_) => code is Struct,
        },
{
    lemma_checked_data_can_generate(data);
    if let Data::Enum(vs) = data {
        lemma_checked_variants_have_no_chooser_errors(vs@);
        if is_code_for(code, data, ident) {
            if let SampleCode::Enum { chooser, arms } = code {
                assert(vs@.len() == vs.len());
                lemma_chooser_picks_non_skipped(vs@, chooser);
                lemma_checked_enum_chooses_something(vs@, chooser);
            }
        }
    }
}

/// The item carries no `skip` and no `weight` anywhere.
pub open spec fn has_no_attributes(data: Data) -> bool {
    match data {
        Data::Struct(fs) => forall|i: int| 0 <= i < fs@.len() ==> !(#[trigger] fs@[i]).skip,
        Data::Enum(vs) => forall|i: int|
            0 <= i < vs@.len() ==> {
                &&& !(#[trigger] vs@[i]).skip
                &&& vs@[i].weight is None
                &&& vs@[i].weight_type is None
                &&& forall|k: int| 0 <= k < vs@[i].fields@.len() ==> !(#[trigger] vs@[i].fields@[k]).skip
            },
    }
}

/// Without attributes, every variant is equally likely and every field is random: the code
/// generated is the uniform code.
pub proof fn lemma_no_attributes_is_uniform(data: Data, ident: String, code: SampleCode)
    requires
        has_no_attributes(data),
    ensures
        is_code_for(code, data, ident) <==> is_uniform_code_for(code, data, ident),
{
    match data {
        Data::Struct(fs) => {},
        Data::Enum(vs) => {
            lemma_no_weight_type(vs@, vs@.len() as int);
            assert(!has_skip(vs@));
        },
    }
}

/// The variants after their own checks, in order.
pub open spec fn corrected_variants(vs: Seq<DeriveVariant>) -> Seq<DeriveVariant> {
    Seq::new(vs.len(), |i: int| vs[i].corrected())
}

proof fn lemma_first_weight_type_of(vs: Seq<DeriveVariant>, n: int, t: WeightLitType)
    requires
        0 <= n <= vs.len(),
        forall|i: int|
            0 <= i < vs.len() ==> (#[trigger] vs[i]).weight_type is None || vs[i].weight_type
                == Some(t),
    ensures
        first_weight_type(vs, n) is None || first_weight_type(vs, n) == Some(t),
        (exists|i: int| 0 <= i < n && (#[trigger] vs[i]).weight_type is Some) ==> first_weight_type(
            vs,
            n,
        ) == Some(t),
    decreases n,
{
    if n > 0 {
        lemma_first_weight_type_of(vs, n - 1, t);
        if exists|i: int| 0 <= i < n && (#[trigger] vs[i]).weight_type is Some {
            let i = choose|i: int| 0 <= i < n && (#[trigger] vs[i]).weight_type is Some;
            if i < n - 1 {
                assert(exists|j: int| 0 <= j < n - 1 && (#[trigger] vs[j]).weight_type is Some);
            }
        }
    }
}

/// `#[standard_distribution(skip)]` on a variant has the same effect as
/// `#[standard_distribution(weight = 0)]` (`0.0` for float weights) on it: for an enum whose
/// weights are all of the weight type `t`, marking variant `k` one way (`vs1`) or the other
/// (`vs2`) gives every variant the same errors, the whole enum the same errors, and, when the
/// checks pass, generated choosers that can pick the same variants, never `k`. When the first
/// chooser is weighted, both choosers carry the same weights.
pub proof fn lemma_skip_same_as_zero_weight(
    vs1: Seq<DeriveVariant>,
    vs2: Seq<DeriveVariant>,
    k: int,
    t: WeightLitType,
    c1: VariantChooser,
    c2: VariantChooser,
)
    requires
        vs1.len() == vs2.len(),
        vs1.len() <= usize::MAX,
        0 <= k < vs1.len(),
        forall|i: int| 0 <= i < vs1.len() && i != k ==> vs1[i] == vs2[i],
        vs1[k].ident == vs2[k].ident,
        vs1[k].fields == vs2[k].fields,
        vs1[k].skip,
        vs1[k].weight is None,
        !vs2[k].skip,
        vs2[k].weight matches Some(w) && w.kind == t.lit_kind() && w.text@ == t.zero_text(),
        forall|i: int|
            0 <= i < vs1.len() ==> (#[trigger] vs1[i]).weight_type is None && vs2[i].weight_type is None,
        forall|i: int|
            0 <= i < vs1.len() ==> ((#[trigger] vs1[i]).weight matches Some(w) ==> w.kind
                == t.lit_kind()),
    ensures
        forall|i: int| 0 <= i < vs1.len() ==> (#[trigger] vs1[i]).check_errors() == vs2[i].check_errors(),
        enum_errors(corrected_variants(vs1)) == enum_errors(corrected_variants(vs2)),
        (forall|i: int| 0 <= i < vs1.len() ==> (#[trigger] vs1[i]).check_errors().len() == 0)
            ==> {
            &&& is_chooser_for(c1, corrected_variants(vs1)) && is_chooser_for(
                c2,
                corrected_variants(vs2),
            ) ==> {
                &&& forall|i: int| #[trigger] c1.may_choose(i) <==> c2.may_choose(i)
                &&& !c1.may_choose(k)
                &&& c2 is Weighted
                &&& (c1 matches VariantChooser::Weighted(ws1) ==> (c2 matches VariantChooser::Weighted(
                    ws2,
                ) ==> ws1@ == ws2@))
            }
        },
{
    let n = vs1.len() as int;
    let r1 = corrected_variants(vs1);
    let r2 = corrected_variants(vs2);
    match t {
        WeightLitType::Int => {},
        WeightLitType::Float => {},
    }
    assert(vs1[k].check_errors() =~= vs2[k].check_errors());
    assert forall|i: int| 0 <= i < n implies r1[i].skip == r2[i].skip by {
        if i == k {
            assert(vs2[k].has_zero_weight());
        }
    }
    assert(enum_errors(r1) =~= enum_errors(r2)) by {
        if forall|j: int| 0 <= j < r1.len() ==> #[trigger] r1[j].skip {
            assert forall|j: int| 0 <= j < r2.len() implies #[trigger] r2[j].skip by {
                assert(r1[j].skip);
            }
        }
        if forall|j: int| 0 <= j < r2.len() ==> #[trigger] r2[j].skip {
            assert forall|j: int| 0 <= j < r1.len() implies #[trigger] r1[j].skip by {
                assert(r2[j].skip);
            }
        }
    }
    if (forall|i: int| 0 <= i < n ==> (#[trigger] vs1[i]).check_errors().len() == 0) {
        if is_chooser_for(c1, r1) && is_chooser_for(c2, r2) {
            assert forall|i: int| 0 <= i < n implies is_checked_variant(#[trigger] r1[i])
                && is_checked_variant(r2[i]) by {
                assert(vs1[i].check_errors().len() == 0);
                assert(vs2[i].check_errors() == vs1[i].check_errors());
                lemma_check_gives_checked_variant(vs1[i]);
                lemma_check_gives_checked_variant(vs2[i]);
            }
            lemma_chooser_picks_non_skipped(r1, c1);
            lemma_chooser_picks_non_skipped(r2, c2);
            assert forall|i: int| #[trigger] c1.may_choose(i) <==> c2.may_choose(i) by {
                if 0 <= i < n {
                    assert(r1[i].skip == r2[i].skip);
                }
            }
            assert forall|i: int|
                0 <= i < n implies (#[trigger] r1[i]).weight_type is None || r1[i].weight_type
                == Some(t) by {
                assert(vs1[i].weight matches Some(w) ==> w.kind == t.lit_kind());
            }
            assert forall|i: int|
                0 <= i < n implies (#[trigger] r2[i]).weight_type is None || r2[i].weight_type
                == Some(t) by {
                if i != k {
                    assert(vs1[i] == vs2[i]);
                    assert(vs1[i].weight matches Some(w) ==> w.kind == t.lit_kind());
                }
            }
            lemma_first_weight_type_of(r1, n, t);
            lemma_first_weight_type_of(r2, n, t);
            assert(r2[k].weight_type is Some);
            assert(first_weight_type(r2, n) == Some(t));
            if let VariantChooser::Weighted(ws1) = c1 {
                assert(first_weight_type(r1, n) == Some(t)) by {
                    if first_weight_type(r1, n) is None {
                        if has_skip(r1) {
                            let idx = choosable_indices(r1, n);
                            assert(!(c1 is Weighted));
                        }
                    }
                }
                if let VariantChooser::Weighted(ws2) = c2 {
                    assert forall|i: int| 0 <= i < n implies weight_entry(r1[i], t)
                        == weight_entry(r2[i], t) by {
                        if i != k {
                            assert(vs1[i] == vs2[i]);
                        }
                    }
                    assert(ws1@ =~= ws2@);
                }
            }
            assert(r1[k].skip);
        }
    }
}

} // verus!
