use vstd::prelude::*;
use crate::convert::{Converted, conversion};
use crate::location::Location;
use crate::shape::{Data, Field, Fields, TypeDef, Variant, is_location_type, is_marked, is_named_location};
use crate::validate::{
    Anchor, Diagnostic, DiagnosticKind, Plan, count_marked, diag, enum_result, field_seq,
    field_step, has_location_field, locate_result, no_marked_variant, scan_fields,
    scan_variants, struct_result, variant_result,
};

verus! {

proof fn lemma_count_zero(fs: Seq<Field>)
    ensures
        count_marked(fs) == 0 <==> forall|j: int| 0 <= j < fs.len() ==> !is_marked(#[trigger] fs[j]),
    decreases fs.len(),
{
    if fs.len() > 0 {
        lemma_count_zero(fs.drop_last());
        if count_marked(fs) == 0 {
            assert forall|j: int| 0 <= j < fs.len() implies !is_marked(#[trigger] fs[j]) by {
                if j < fs.len() - 1 {
                    assert(fs.drop_last()[j] == fs[j]);
                }
            }
        } else if forall|j: int| 0 <= j < fs.len() ==> !is_marked(#[trigger] fs[j]) {
            assert forall|j: int| 0 <= j < fs.drop_last().len() implies !is_marked(
                #[trigger] fs.drop_last()[j],
            ) by {
                assert(fs.drop_last()[j] == fs[j]);
            }
            assert(!is_marked(fs[fs.len() - 1]));
        }
    }
}

/// Where every marked field fails with `d`, the first `k` fields give `d` if one of them
/// is marked, and no plan otherwise.
proof fn lemma_scan_uniform_error(vi: usize, f: Fields, d: Diagnostic, k: nat)
    requires
        k <= field_seq(f).len(),
        forall|j: int|
            0 <= j < field_seq(f).len() && is_marked(#[trigger] field_seq(f)[j]) ==> field_step(
                vi,
                f,
                j,
            ) == Err::<Option<Plan>, Diagnostic>(d),
    ensures
        (exists|j: int| 0 <= j < k && is_marked(#[trigger] field_seq(f)[j])) ==> scan_fields(vi, f, k)
            == Err::<Seq<Plan>, Diagnostic>(d),
        !(exists|j: int| 0 <= j < k && is_marked(#[trigger] field_seq(f)[j])) ==> scan_fields(vi, f, k)
            == Ok::<Seq<Plan>, Diagnostic>(seq![]),
    decreases k,
{
    if k > 0 {
        lemma_scan_uniform_error(vi, f, d, (k - 1) as nat);
        let fs = field_seq(f);
        if exists|j: int| 0 <= j < k - 1 && is_marked(#[trigger] fs[j]) {
            let w = choose|j: int| 0 <= j < k - 1 && is_marked(#[trigger] fs[j]);
            assert(0 <= w < k && is_marked(fs[w]));
        } else if is_marked(fs[k - 1]) {
            assert(0 <= k - 1 < k && is_marked(fs[k - 1]));
        } else {
            assert(field_step(vi, f, k - 1) == Ok::<Option<Plan>, Diagnostic>(None));
            assert forall|j: int| 0 <= j < k implies !is_marked(#[trigger] fs[j]) by {}
        }
    }
}

/// A plan made by a field step is among the plans of every later prefix that succeeds.
proof fn lemma_step_plan_kept(vi: usize, f: Fields, j: int, p: Plan, k: nat)
    requires
        0 <= j < k <= field_seq(f).len(),
        scan_fields(vi, f, k) is Ok,
        field_step(vi, f, j) == Ok::<Option<Plan>, Diagnostic>(Some(p)),
    ensures
        scan_fields(vi, f, k)->Ok_0.contains(p),
    decreases k,
{
    let prev = scan_fields(vi, f, (k - 1) as nat);
    assert(prev is Ok);
    let ps = prev->Ok_0;
    if j == k - 1 {
        assert(scan_fields(vi, f, k)->Ok_0 == ps.push(p));
        assert(ps.push(p)[ps.len() as int] == p);
    } else {
        lemma_step_plan_kept(vi, f, j, p, (k - 1) as nat);
        let w = choose|w: int| 0 <= w < ps.len() && ps[w] == p;
        match field_step(vi, f, k - 1) {
            Ok(Some(q)) => {
                assert(ps.push(q)[w] == p);
            },
            _ => {},
        }
    }
}

/// The plans of a variant are among the plans of every later prefix of variants that
/// succeeds.
proof fn lemma_variant_plans_kept(vs: Seq<Variant>, vi: int, n: nat)
    requires
        0 <= vi < n <= vs.len(),
        scan_variants(vs, n) is Ok,
    ensures
        variant_result(vi as usize, vs[vi]) is Ok,
        forall|p: Plan|
            variant_result(vi as usize, vs[vi])->Ok_0.contains(p) ==> scan_variants(vs, n)->Ok_0.contains(
                p,
            ),
    decreases n,
{
    let prev = scan_variants(vs, (n - 1) as nat);
    assert(prev is Ok);
    let ps = prev->Ok_0;
    let qs = variant_result((n - 1) as usize, vs[n - 1])->Ok_0;
    assert(scan_variants(vs, n)->Ok_0 == ps + qs);
    if vi == n - 1 {
        assert forall|p: Plan| qs.contains(p) implies (ps + qs).contains(p) by {
            let w = choose|w: int| 0 <= w < qs.len() && qs[w] == p;
            assert((ps + qs)[ps.len() + w] == p);
        }
    } else {
        lemma_variant_plans_kept(vs, vi, (n - 1) as nat);
        assert forall|p: Plan|
            variant_result(vi as usize, vs[vi])->Ok_0.contains(p) implies (ps + qs).contains(p) by {
            assert(scan_variants(vs, (n - 1) as nat)->Ok_0.contains(p));
            assert(ps.contains(p));
            let w = choose|w: int| 0 <= w < ps.len() && ps[w] == p;
            assert((ps + qs)[w] == p);
        }
    }
}

/// A failing variant makes the whole tagged union fail.
proof fn lemma_variant_error_fails_enum(vs: Seq<Variant>, vi: int)
    requires
        0 <= vi < vs.len(),
        variant_result(vi as usize, vs[vi]) is Err,
    ensures
        enum_result(vs) is Err,
        (forall|w: int| 0 <= w < vi ==> (#[trigger] variant_result(w as usize, vs[w])) is Ok)
            ==> enum_result(vs) == variant_result(vi as usize, vs[vi]),
{
    lemma_enum_prefix(vs, vi, (vi + 1) as nat);
    lemma_err_stays(vs, (vi + 1) as nat, vs.len());
}

proof fn lemma_enum_prefix(vs: Seq<Variant>, vi: int, k: nat)
    requires
        0 <= vi < k <= vs.len(),
        k == vi + 1,
        variant_result(vi as usize, vs[vi]) is Err,
    ensures
        scan_variants(vs, k) is Err,
        (forall|w: int| 0 <= w < vi ==> (#[trigger] variant_result(w as usize, vs[w])) is Ok)
            ==> scan_variants(vs, k) == variant_result(vi as usize, vs[vi]),
{
    if forall|w: int| 0 <= w < vi ==> (#[trigger] variant_result(w as usize, vs[w])) is Ok {
        lemma_prefix_ok(vs, vi as nat);
    }
}

proof fn lemma_prefix_ok(vs: Seq<Variant>, k: nat)
    requires
        k <= vs.len(),
        forall|w: int| 0 <= w < k ==> (#[trigger] variant_result(w as usize, vs[w])) is Ok,
    ensures
        scan_variants(vs, k) is Ok,
    decreases k,
{
    if k > 0 {
        lemma_prefix_ok(vs, (k - 1) as nat);
        assert(variant_result((k - 1) as usize, vs[k - 1]) is Ok);
    }
}

proof fn lemma_err_stays(vs: Seq<Variant>, k: nat, n: nat)
    requires
        k <= n,
        scan_variants(vs, k) is Err,
    ensures
        scan_variants(vs, n) == scan_variants(vs, k),
    decreases n - k,
{
    if k < n {
        lemma_err_stays(vs, k, (n - 1) as nat);
    }
}

/// A tagged union in which no variant carries a marked field is rejected with the
/// no-op diagnostic, anchored to the type, so that nothing is generated for it.
pub proof fn no_marked_variant_is_rejected(t: TypeDef, vs: Vec<Variant>)
    requires
        t.data == Data::Enum(vs),
        forall|vi: int, j: int|
            0 <= vi < vs@.len() && 0 <= j < field_seq(vs@[vi].fields).len() ==> !is_marked(
                #[trigger] field_seq(vs@[vi].fields)[j],
            ),
    ensures
        locate_result(t) == Err::<Seq<Plan>, Diagnostic>(
            diag(DiagnosticKind::NoMarkedVariant, Anchor::Type),
        ),
{
    let d = diag(DiagnosticKind::NoMarkedVariant, Anchor::Type);
    assert forall|w: int| 0 <= w < vs@.len() implies (#[trigger] variant_result(
        w as usize,
        vs@[w],
    )) is Ok && count_marked(field_seq(vs@[w].fields)) == 0 by {
        let f = vs@[w].fields;
        assert forall|j: int| 0 <= j < field_seq(f).len() implies !is_marked(
            #[trigger] field_seq(f)[j],
        ) by {}
        lemma_scan_uniform_error(w as usize, f, d, field_seq(f).len());
        lemma_count_zero(field_seq(f));
    }
    lemma_prefix_ok(vs@, vs@.len());
    assert forall|w: int| 0 <= w < vs@.len() implies count_marked(
        field_seq(#[trigger] vs@[w].fields),
    ) == 0 by {
        assert(variant_result(w as usize, vs@[w]) is Ok);
    }
    assert(no_marked_variant(vs@));
}

/// A variant with a marked field and three fields in all is rejected with the
/// two-fields diagnostic, anchored to the variant, and the whole type is rejected;
/// where every earlier variant passes, that is the diagnostic reported. A named
/// variant meets this where it has its `location` field (else the missing-location
/// diagnostic comes first).
pub proof fn three_fields_are_rejected(t: TypeDef, vs: Vec<Variant>, vi: usize, j: usize)
    requires
        t.data == Data::Enum(vs),
        vi < vs@.len(),
        field_seq(vs@[vi as int].fields).len() == 3,
        j < 3,
        is_marked(field_seq(vs@[vi as int].fields)[j as int]),
        vs@[vi as int].fields is Named ==> has_location_field(field_seq(vs@[vi as int].fields)),
    ensures
        variant_result(vi, vs@[vi as int]) == Err::<Seq<Plan>, Diagnostic>(
            diag(DiagnosticKind::VariantFieldCount, Anchor::Variant(vi)),
        ),
        locate_result(t) is Err,
        (forall|w: int| 0 <= w < vi ==> (#[trigger] variant_result(w as usize, vs@[w])) is Ok)
            ==> locate_result(t) == variant_result(vi, vs@[vi as int]),
{
    let f = vs@[vi as int].fields;
    let d = diag(DiagnosticKind::VariantFieldCount, Anchor::Variant(vi));
    assert(0 <= j < 3 && is_marked(field_seq(f)[j as int]));
    lemma_scan_uniform_error(vi, f, d, 3);
    lemma_variant_error_fails_enum(vs@, vi as int);
}

/// A named variant with a marked field and no field named `location` is rejected with
/// the missing-location diagnostic, anchored to the variant, and the whole type is
/// rejected; where every earlier variant passes, that is the diagnostic reported.
pub proof fn missing_location_field_is_rejected(t: TypeDef, vs: Vec<Variant>, vi: usize, fs: Vec<Field>, j: usize)
    requires
        t.data == Data::Enum(vs),
        vi < vs@.len(),
        vs@[vi as int].fields == Fields::Named(fs),
        j < fs@.len(),
        is_marked(fs@[j as int]),
        forall|k: int| 0 <= k < fs@.len() ==> !is_named_location(#[trigger] fs@[k]),
    ensures
        variant_result(vi, vs@[vi as int]) == Err::<Seq<Plan>, Diagnostic>(
            diag(DiagnosticKind::VariantLocationField, Anchor::Variant(vi)),
        ),
        locate_result(t) is Err,
        (forall|w: int| 0 <= w < vi ==> (#[trigger] variant_result(w as usize, vs@[w])) is Ok)
            ==> locate_result(t) == variant_result(vi, vs@[vi as int]),
{
    let f = vs@[vi as int].fields;
    let d = diag(DiagnosticKind::VariantLocationField, Anchor::Variant(vi));
    assert(!has_location_field(fs@));
    assert(0 <= j < field_seq(f).len() && is_marked(field_seq(f)[j as int]));
    lemma_scan_uniform_error(vi, f, d, fs@.len());
    lemma_variant_error_fails_enum(vs@, vi as int);
}

/// A record with two marked fields is rejected, reporting the count two.
pub proof fn two_marked_fields_are_rejected(t: TypeDef, f: Fields)
    requires
        t.data == Data::Struct(f),
        count_marked(field_seq(f)) == 2,
    ensures
        locate_result(t) == Err::<Seq<Plan>, Diagnostic>(
            diag(DiagnosticKind::StructMarkedCount(2), Anchor::Type),
        ),
{
}

/// In a valid tagged union, a positional variant `V(source, location)` gets a
/// conversion from its marked field into that variant, with the other field as the
/// location; what it builds wraps the value unchanged and holds the position at which
/// the conversion was invoked.
pub proof fn positional_variant_conversion<T>(
    t: TypeDef,
    vs: Vec<Variant>,
    vi: usize,
    fs: Vec<Field>,
    j: usize,
    value: T,
    at: Location,
)
    requires
        t.data == Data::Enum(vs),
        vi < vs@.len(),
        vs@[vi as int].fields == Fields::Unnamed(fs),
        fs@.len() == 2,
        j < 2,
        is_marked(fs@[j as int]),
        fs@[j as int].ty is Path,
        is_location_type(fs@[1 - j].ty),
        locate_result(t) is Ok,
    ensures
        locate_result(t)->Ok_0.contains(
            Plan { variant: Some(vi), source_field: j, location_field: (1 - j) as usize },
        ),
        conversion(
            Plan { variant: Some(vi), source_field: j, location_field: (1 - j) as usize },
            value,
            at,
        ) == (Converted { variant: Some(vi), source: value, location: at }),
{
    let p = Plan { variant: Some(vi), source_field: j, location_field: (1 - j) as usize };
    let f = vs@[vi as int].fields;
    assert(scan_variants(vs@, vs@.len()) is Ok);
    lemma_variant_plans_kept(vs@, vi as int, vs@.len());
    assert(field_step(vi, f, j as int) == Ok::<Option<Plan>, Diagnostic>(Some(p)));
    lemma_step_plan_kept(vi, f, j as int, p, 2);
}

/// In a valid tagged union, a named variant `V { source, location }` gets a conversion
/// from its marked field into that variant, with `location` as the location field;
/// what it builds wraps the value unchanged and holds the position at which the
/// conversion was invoked.
pub proof fn named_variant_conversion<T>(
    t: TypeDef,
    vs: Vec<Variant>,
    vi: usize,
    fs: Vec<Field>,
    j: usize,
    value: T,
    at: Location,
)
    requires
        t.data == Data::Enum(vs),
        vi < vs@.len(),
        vs@[vi as int].fields == Fields::Named(fs),
        fs@.len() == 2,
        j < 2,
        is_marked(fs@[j as int]),
        !is_named_location(fs@[j as int]),
        fs@[j as int].ty is Path,
        is_named_location(fs@[1 - j]),
        is_location_type(fs@[1 - j].ty),
        locate_result(t) is Ok,
    ensures
        locate_result(t)->Ok_0.contains(
            Plan { variant: Some(vi), source_field: j, location_field: (1 - j) as usize },
        ),
        conversion(
            Plan { variant: Some(vi), source_field: j, location_field: (1 - j) as usize },
            value,
            at,
        ) == (Converted { variant: Some(vi), source: value, location: at }),
{
    let p = Plan { variant: Some(vi), source_field: j, location_field: (1 - j) as usize };
    let f = vs@[vi as int].fields;
    assert(scan_variants(vs@, vs@.len()) is Ok);
    lemma_variant_plans_kept(vs@, vi as int, vs@.len());
    assert(has_location_field(fs@));
    assert(field_step(vi, f, j as int) == Ok::<Option<Plan>, Diagnostic>(Some(p)));
    lemma_step_plan_kept(vi, f, j as int, p, 2);
}

/// A valid record gets exactly one conversion, from its marked field, with a field
/// named `location` as the location field; what it builds wraps the value unchanged
/// and holds the position at which the conversion was invoked.
pub proof fn record_conversion<T>(t: TypeDef, f: Fields, j: usize, value: T, at: Location)
    requires
        t.data == Data::Struct(f),
        j < field_seq(f).len(),
        is_marked(field_seq(f)[j as int]),
        field_seq(f)[j as int].ty is Path,
        locate_result(t) is Ok,
    ensures
        locate_result(t)->Ok_0.len() == 1,
        locate_result(t)->Ok_0[0].variant is None,
        locate_result(t)->Ok_0[0].source_field == j,
        locate_result(t)->Ok_0[0].location_field < field_seq(f).len(),
        is_named_location(field_seq(f)[locate_result(t)->Ok_0[0].location_field as int]),
        conversion(locate_result(t)->Ok_0[0], value, at) == (Converted {
            variant: None,
            source: value,
            location: at,
        }),
{
    let fs = field_seq(f);
    assert(struct_result(f) is Ok);
    if fs.len() == 2 {
        let d1 = fs.drop_last();
        assert(d1.drop_last() =~= Seq::<Field>::empty());
        assert(count_marked(d1.drop_last()) == 0);
        assert(d1.last() == fs[0]);
        assert(count_marked(d1) == if is_marked(fs[0]) { 1nat } else { 0nat });
    } else {
        assert(fs.len() == 1);
        assert(fs.drop_last() =~= Seq::<Field>::empty());
    }
}

/// Nested conversions: converting a value at one position, then converting the result
/// at another, keeps each position at its own layer, and the innermost value unchanged.
pub proof fn nested_conversions_keep_each_position<T>(
    inner: Plan,
    outer: Plan,
    value: T,
    first: Location,
    second: Location,
)
    ensures
        conversion(outer, conversion(inner, value, first), second).location == second,
        conversion(outer, conversion(inner, value, first), second).source.location == first,
        conversion(outer, conversion(inner, value, first), second).source.source == value,
{
}

} // verus!
