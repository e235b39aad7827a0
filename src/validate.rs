use vstd::prelude::*;
use crate::location::{decimal, decimal_text};
use crate::shape::{
    Data, Field, Fields, TypeDef, TypeRef, Variant, field_is_marked, field_is_named_location,
    is_location_type, is_location_type_ref, is_marked, is_named_location,
};

verus! {

/// What a diagnostic reports.
#[derive(Clone, Copy, Debug, PartialEq, Eq, Structural)]
pub enum DiagnosticKind {
    /// The type is neither a tagged union nor a record.
    NotEnumOrStruct,
    /// No variant of the tagged union carries a marked field.
    NoMarkedVariant,
    /// A variant with a marked field does not have exactly two fields.
    VariantFieldCount,
    /// The other field of a positional variant is not of type `Location`.
    VariantLocationType,
    /// A named variant with a marked field has no field `location` of type `Location`.
    VariantLocationField,
    /// A record does not have exactly one marked field; the count found.
    StructMarkedCount(usize),
    /// A record has more than a source and a location field.
    StructFieldCount,
    /// A record has no field named `location`.
    StructLocationField,
}

/// The syntax that a diagnostic is anchored to.
#[derive(Clone, Copy, Debug, PartialEq, Eq, Structural)]
pub enum Anchor {
    /// The type definition as a whole.
    Type,
    /// The name of the variant at this index.
    Variant(usize),
    /// The field at the second index of the variant at the first.
    Field(usize, usize),
}

/// A failure of validation, which stops code generation for the whole type.
#[derive(Clone, Copy, Debug, PartialEq, Eq, Structural)]
pub struct Diagnostic {
    pub kind: DiagnosticKind,
    pub anchor: Anchor,
}

/// A validated conversion: the variant it builds (none for a record), the index of the
/// source field and the index of the location field.
#[derive(Clone, Copy, Debug, PartialEq, Eq, Structural)]
pub struct Plan {
    pub variant: Option<usize>,
    pub source_field: usize,
    pub location_field: usize,
}

/// The text of a diagnostic.
pub open spec fn message_text(k: DiagnosticKind) -> Seq<char> {
    match k {
        DiagnosticKind::NotEnumOrStruct => "Locate can only be derived for enums or structs"@,
        DiagnosticKind::NoMarkedVariant => "Locate requires at least one variant with the #[locate_from] attribute (otherwise this macro is effectively a no-op)"@,
        DiagnosticKind::VariantFieldCount => "Locate requires enums variants with the #[locate_from] attribute to have exactly two fields, one for the source and one for the location"@,
        DiagnosticKind::VariantLocationType => "Variants with #[locate_from] must have a field of type `locate_from::Location`"@,
        DiagnosticKind::VariantLocationField => "Variants with #[locate_from] must have a field named 'location' of type `locate_from::Location`"@,
        DiagnosticKind::StructFieldCount => "Locate requires structs to have only a 'source' field (with the #[locate_from] attribute) and a 'location' field"@,
        DiagnosticKind::StructLocationField => "Locate requires structs to have a field named 'location' of type `locate_from::Location`"@,
        DiagnosticKind::StructMarkedCount(n) => "Locate requires exactly one field marked with #[locate_from], found "@ + decimal(n as nat),
    }
}

impl Diagnostic {
    /// The text of this diagnostic.
    pub fn message(&self) -> (r: String)
        ensures
            r@ == message_text(self.kind),
    {
        proof {
            reveal_strlit("Locate can only be derived for enums or structs");
            reveal_strlit("Locate requires at least one variant with the #[locate_from] attribute (otherwise this macro is effectively a no-op)");
            reveal_strlit("Locate requires enums variants with the #[locate_from] attribute to have exactly two fields, one for the source and one for the location");
            reveal_strlit("Variants with #[locate_from] must have a field of type `locate_from::Location`");
            reveal_strlit("Variants with #[locate_from] must have a field named 'location' of type `locate_from::Location`");
            reveal_strlit("Locate requires structs to have only a 'source' field (with the #[locate_from] attribute) and a 'location' field");
            reveal_strlit("Locate requires structs to have a field named 'location' of type `locate_from::Location`");
            reveal_strlit("Locate requires exactly one field marked with #[locate_from], found ");
        }
        match self.kind {
            DiagnosticKind::NotEnumOrStruct => String::from_str("Locate can only be derived for enums or structs"),
            DiagnosticKind::NoMarkedVariant => String::from_str("Locate requires at least one variant with the #[locate_from] attribute (otherwise this macro is effectively a no-op)"),
            DiagnosticKind::VariantFieldCount => String::from_str("Locate requires enums variants with the #[locate_from] attribute to have exactly two fields, one for the source and one for the location"),
            DiagnosticKind::VariantLocationType => String::from_str("Variants with #[locate_from] must have a field of type `locate_from::Location`"),
            DiagnosticKind::VariantLocationField => String::from_str("Variants with #[locate_from] must have a field named 'location' of type `locate_from::Location`"),
            DiagnosticKind::StructFieldCount => String::from_str("Locate requires structs to have only a 'source' field (with the #[locate_from] attribute) and a 'location' field"),
            DiagnosticKind::StructLocationField => String::from_str("Locate requires structs to have a field named 'location' of type `locate_from::Location`"),
            DiagnosticKind::StructMarkedCount(n) => {
                let count = decimal_text(n as u64);
                String::from_str("Locate requires exactly one field marked with #[locate_from], found ").concat(count.as_str())
            },
        }
    }
}

pub open spec fn diag(kind: DiagnosticKind, anchor: Anchor) -> Diagnostic {
    Diagnostic { kind, anchor }
}

/// The fields of a shape, in order.
pub open spec fn field_seq(f: Fields) -> Seq<Field> {
    match f {
        Fields::Named(v) => v@,
        Fields::Unnamed(v) => v@,
        Fields::Unit => seq![],
    }
}

/// How many fields carry the marker.
pub open spec fn count_marked(fs: Seq<Field>) -> nat
    decreases fs.len(),
{
    if fs.len() == 0 {
        0
    } else {
        count_marked(fs.drop_last()) + if is_marked(fs.last()) { 1nat } else { 0nat }
    }
}

/// Some field is named `location` and has type `Location`.
pub open spec fn has_location_field(fs: Seq<Field>) -> bool {
    exists|k: int| 0 <= k < fs.len() && is_named_location(#[trigger] fs[k]) && is_location_type(fs[k].ty)
}

/// What field `j` of a positional variant contributes.
pub open spec fn unnamed_step(vi: usize, fs: Seq<Field>, j: int) -> Result<Option<Plan>, Diagnostic> {
    if !is_marked(fs[j]) {
        Ok(None)
    } else if fs.len() != 2 {
        Err(diag(DiagnosticKind::VariantFieldCount, Anchor::Variant(vi)))
    } else if !is_location_type(fs[1 - j].ty) {
        Err(diag(DiagnosticKind::VariantLocationType, Anchor::Field(vi, (1 - j) as usize)))
    } else if fs[j].ty is Path {
        Ok(Some(Plan { variant: Some(vi), source_field: j as usize, location_field: (1 - j) as usize }))
    } else {
        Ok(None)
    }
}

/// What field `j` of a named variant contributes.
pub open spec fn named_step(vi: usize, fs: Seq<Field>, j: int) -> Result<Option<Plan>, Diagnostic> {
    if !is_marked(fs[j]) {
        Ok(None)
    } else if !has_location_field(fs) {
        Err(diag(DiagnosticKind::VariantLocationField, Anchor::Variant(vi)))
    } else if fs.len() != 2 {
        Err(diag(DiagnosticKind::VariantFieldCount, Anchor::Variant(vi)))
    } else if fs[j].ty is Path {
        let loc: usize = if is_named_location(fs[0]) && is_location_type(fs[0].ty) { 0 } else { 1 };
        Ok(Some(Plan { variant: Some(vi), source_field: j as usize, location_field: loc }))
    } else {
        Ok(None)
    }
}

pub open spec fn field_step(vi: usize, f: Fields, j: int) -> Result<Option<Plan>, Diagnostic> {
    match f {
        Fields::Named(v) => named_step(vi, v@, j),
        _ => unnamed_step(vi, field_seq(f), j),
    }
}

/// The outcome of checking the first `k` fields of variant `vi`, in order: the first
/// diagnostic met, or the plans made.
pub open spec fn scan_fields(vi: usize, f: Fields, k: nat) -> Result<Seq<Plan>, Diagnostic>
    decreases k,
{
    if k == 0 {
        Ok(seq![])
    } else {
        match scan_fields(vi, f, (k - 1) as nat) {
            Err(d) => Err(d),
            Ok(ps) => match field_step(vi, f, k - 1) {
                Err(d) => Err(d),
                Ok(None) => Ok(ps),
                Ok(Some(p)) => Ok(ps.push(p)),
            },
        }
    }
}

pub open spec fn variant_result(vi: usize, v: Variant) -> Result<Seq<Plan>, Diagnostic> {
    scan_fields(vi, v.fields, field_seq(v.fields).len())
}

/// The outcome of checking the first `k` variants, in order.
pub open spec fn scan_variants(vs: Seq<Variant>, k: nat) -> Result<Seq<Plan>, Diagnostic>
    decreases k,
{
    if k == 0 {
        Ok(seq![])
    } else {
        match scan_variants(vs, (k - 1) as nat) {
            Err(d) => Err(d),
            Ok(ps) => match variant_result((k - 1) as usize, vs[k - 1]) {
                Err(d) => Err(d),
                Ok(qs) => Ok(ps + qs),
            },
        }
    }
}

/// No variant carries a marked field.
pub open spec fn no_marked_variant(vs: Seq<Variant>) -> bool {
    forall|vi: int| 0 <= vi < vs.len() ==> count_marked(field_seq(#[trigger] vs[vi].fields)) == 0
}

/// The outcome of validating a tagged union.
pub open spec fn enum_result(vs: Seq<Variant>) -> Result<Seq<Plan>, Diagnostic> {
    match scan_variants(vs, vs.len()) {
        Err(d) => Err(d),
        Ok(ps) => if no_marked_variant(vs) {
            Err(diag(DiagnosticKind::NoMarkedVariant, Anchor::Type))
        } else {
            Ok(ps)
        },
    }
}

/// The outcome of validating a record.
pub open spec fn struct_result(f: Fields) -> Result<Seq<Plan>, Diagnostic> {
    let fs = field_seq(f);
    let n = count_marked(fs);
    if n != 1 {
        Err(diag(DiagnosticKind::StructMarkedCount(n as usize), Anchor::Type))
    } else if fs.len() > 2 {
        Err(diag(DiagnosticKind::StructFieldCount, Anchor::Type))
    } else if !(exists|k: int| 0 <= k < fs.len() && is_named_location(#[trigger] fs[k])) {
        Err(diag(DiagnosticKind::StructLocationField, Anchor::Type))
    } else {
        let j: usize = if is_marked(fs[0]) { 0 } else { 1 };
        let loc: usize = if is_named_location(fs[0]) { 0 } else { 1 };
        if fs[j as int].ty is Path {
            Ok(seq![Plan { variant: None, source_field: j, location_field: loc }])
        } else {
            Ok(seq![])
        }
    }
}

/// The outcome of validating a type definition.
pub open spec fn locate_result(t: TypeDef) -> Result<Seq<Plan>, Diagnostic> {
    match t.data {
        Data::Enum(vs) => enum_result(vs@),
        Data::Struct(f) => struct_result(f),
        Data::Union => Err(diag(DiagnosticKind::NotEnumOrStruct, Anchor::Type)),
    }
}

/// The executable outcome matches the spec outcome.
pub open spec fn same_outcome(r: Result<Vec<Plan>, Diagnostic>, s: Result<Seq<Plan>, Diagnostic>) -> bool {
    match r {
        Ok(ps) => s == Ok::<Seq<Plan>, Diagnostic>(ps@),
        Err(d) => s == Err::<Seq<Plan>, Diagnostic>(d),
    }
}

proof fn lemma_scan_fields_err_stays(vi: usize, f: Fields, k: nat, n: nat)
    requires
        k <= n,
        scan_fields(vi, f, k) is Err,
    ensures
        scan_fields(vi, f, n) == scan_fields(vi, f, k),
    decreases n - k,
{
    if k < n {
        lemma_scan_fields_err_stays(vi, f, k, (n - 1) as nat);
    }
}

proof fn lemma_scan_variants_err_stays(vs: Seq<Variant>, k: nat, n: nat)
    requires
        k <= n,
        scan_variants(vs, k) is Err,
    ensures
        scan_variants(vs, n) == scan_variants(vs, k),
    decreases n - k,
{
    if k < n {
        lemma_scan_variants_err_stays(vs, k, (n - 1) as nat);
    }
}

/// Counts the marked fields.
pub fn count_marked_fields(fs: &Vec<Field>) -> (r: usize)
    ensures
        r == count_marked(fs@),
{
    let mut n: usize = 0;
    let mut i: usize = 0;
    while i < fs.len()
        invariant
            i <= fs@.len(),
            n == count_marked(fs@.subrange(0, i as int)),
            n <= i,
        decreases fs@.len() - i,
    {
        assert(fs@.subrange(0, i + 1).drop_last() =~= fs@.subrange(0, i as int));
        if field_is_marked(&fs[i]) {
            n = n + 1;
        }
        i = i + 1;
    }
    assert(fs@.subrange(0, fs@.len() as int) =~= fs@);
    n
}

fn count_marked_in(f: &Fields) -> (r: usize)
    ensures
        r == count_marked(field_seq(*f)),
{
    match f {
        Fields::Named(v) => count_marked_fields(v),
        Fields::Unnamed(v) => count_marked_fields(v),
        Fields::Unit => 0,
    }
}

/// Whether some field is named `location` and has type `Location`.
fn has_location_field_exec(fs: &Vec<Field>) -> (r: bool)
    ensures
        r == has_location_field(fs@),
{
    let mut i: usize = 0;
    while i < fs.len()
        invariant
            i <= fs@.len(),
            forall|k: int|
                0 <= k < i ==> !(is_named_location(#[trigger] fs@[k]) && is_location_type(
                    fs@[k].ty,
                )),
        decreases fs@.len() - i,
    {
        if field_is_named_location(&fs[i]) && is_location_type_ref(&fs[i].ty) {
            return true;
        }
        i = i + 1;
    }
    false
}

fn unnamed_field(vi: usize, fs: &Vec<Field>, j: usize) -> (r: Result<Option<Plan>, Diagnostic>)
    requires
        j < fs@.len(),
    ensures
        r == unnamed_step(vi, fs@, j as int),
{
    if !field_is_marked(&fs[j]) {
        Ok(None)
    } else if fs.len() != 2 {
        Err(Diagnostic { kind: DiagnosticKind::VariantFieldCount, anchor: Anchor::Variant(vi) })
    } else if !is_location_type_ref(&fs[1 - j].ty) {
        Err(Diagnostic { kind: DiagnosticKind::VariantLocationType, anchor: Anchor::Field(vi, 1 - j) })
    } else if let TypeRef::Path(_) = &fs[j].ty {
        Ok(Some(Plan { variant: Some(vi), source_field: j, location_field: 1 - j }))
    } else {
        Ok(None)
    }
}

fn named_field(vi: usize, fs: &Vec<Field>, j: usize) -> (r: Result<Option<Plan>, Diagnostic>)
    requires
        j < fs@.len(),
    ensures
        r == named_step(vi, fs@, j as int),
{
    if !field_is_marked(&fs[j]) {
        Ok(None)
    } else if !has_location_field_exec(fs) {
        Err(Diagnostic { kind: DiagnosticKind::VariantLocationField, anchor: Anchor::Variant(vi) })
    } else if fs.len() != 2 {
        Err(Diagnostic { kind: DiagnosticKind::VariantFieldCount, anchor: Anchor::Variant(vi) })
    } else if let TypeRef::Path(_) = &fs[j].ty {
        let loc: usize = if field_is_named_location(&fs[0]) && is_location_type_ref(&fs[0].ty) {
            0
        } else {
            1
        };
        Ok(Some(Plan { variant: Some(vi), source_field: j, location_field: loc }))
    } else {
        Ok(None)
    }
}

fn process_fields(vi: usize, f: &Fields, fs: &Vec<Field>, named: bool) -> (r: Result<
    Vec<Plan>,
    Diagnostic,
>)
    requires
        fs@ == field_seq(*f),
        named == (f is Named),
    ensures
        same_outcome(r, scan_fields(vi, *f, fs@.len())),
{
    let mut plans: Vec<Plan> = Vec::new();
    let mut j: usize = 0;
    while j < fs.len()
        invariant
            j <= fs@.len(),
            fs@ == field_seq(*f),
            named == (f is Named),
            scan_fields(vi, *f, j as nat) == Ok::<Seq<Plan>, Diagnostic>(plans@),
        decreases fs@.len() - j,
    {
        let step = if named {
            named_field(vi, fs, j)
        } else {
            unnamed_field(vi, fs, j)
        };
        assert(step == field_step(vi, *f, j as int));
        match step {
            Err(d) => {
                proof {
                    lemma_scan_fields_err_stays(vi, *f, (j + 1) as nat, fs@.len());
                }
                return Err(d);
            },
            Ok(None) => {},
            Ok(Some(p)) => {
                plans.push(p);
            },
        }
        j = j + 1;
    }
    Ok(plans)
}

fn process_variant(vi: usize, v: &Variant) -> (r: Result<Vec<Plan>, Diagnostic>)
    ensures
        same_outcome(r, variant_result(vi, *v)),
{
    match &v.fields {
        Fields::Named(fs) => process_fields(vi, &v.fields, fs, true),
        Fields::Unnamed(fs) => process_fields(vi, &v.fields, fs, false),
        Fields::Unit => Ok(Vec::new()),
    }
}

fn process_enum(vs: &Vec<Variant>) -> (r: Result<Vec<Plan>, Diagnostic>)
    ensures
        same_outcome(r, enum_result(vs@)),
{
    let mut plans: Vec<Plan> = Vec::new();
    let mut any_marked = false;
    let mut i: usize = 0;
    while i < vs.len()
        invariant
            i <= vs@.len(),
            scan_variants(vs@, i as nat) == Ok::<Seq<Plan>, Diagnostic>(plans@),
            any_marked == !no_marked_variant(vs@.subrange(0, i as int)),
        decreases vs@.len() - i,
    {
        match process_variant(i, &vs[i]) {
            Err(d) => {
                proof {
                    lemma_scan_variants_err_stays(vs@, (i + 1) as nat, vs@.len());
                }
                return Err(d);
            },
            Ok(mut qs) => {
                plans.append(&mut qs);
            },
        }
        let c = count_marked_in(&vs[i].fields);
        proof {
            let pre = vs@.subrange(0, i as int);
            let post = vs@.subrange(0, i + 1);
            if c > 0 {
                assert(post[i as int] == vs@[i as int]);
            }
            if !no_marked_variant(pre) {
                let w = choose|w: int| 0 <= w < pre.len() && count_marked(field_seq(#[trigger] pre[w].fields)) != 0;
                assert(post[w] == pre[w]);
            }
            if !no_marked_variant(post) {
                let w = choose|w: int| 0 <= w < post.len() && count_marked(field_seq(#[trigger] post[w].fields)) != 0;
                if w < i {
                    assert(post[w] == pre[w]);
                }
            }
        }
        any_marked = any_marked || c > 0;
        i = i + 1;
    }
    assert(vs@.subrange(0, vs@.len() as int) =~= vs@);
    if !any_marked {
        return Err(Diagnostic { kind: DiagnosticKind::NoMarkedVariant, anchor: Anchor::Type });
    }
    Ok(plans)
}

fn process_struct(f: &Fields) -> (r: Result<Vec<Plan>, Diagnostic>)
    ensures
        same_outcome(r, struct_result(*f)),
{
    let fs = match f {
        Fields::Named(v) => v,
        Fields::Unnamed(v) => v,
        Fields::Unit => {
            return Err(Diagnostic { kind: DiagnosticKind::StructMarkedCount(0), anchor: Anchor::Type });
        },
    };
    let n = count_marked_fields(fs);
    if n != 1 {
        return Err(Diagnostic { kind: DiagnosticKind::StructMarkedCount(n), anchor: Anchor::Type });
    }
    if fs.len() > 2 {
        return Err(Diagnostic { kind: DiagnosticKind::StructFieldCount, anchor: Anchor::Type });
    }
    let mut has_location = false;
    let mut i: usize = 0;
    while i < fs.len()
        invariant
            i <= fs@.len(),
            has_location == exists|k: int| 0 <= k < i && is_named_location(#[trigger] fs@[k]),
        decreases fs@.len() - i,
    {
        if field_is_named_location(&fs[i]) {
            has_location = true;
        }
        i = i + 1;
    }
    if !has_location {
        return Err(Diagnostic { kind: DiagnosticKind::StructLocationField, anchor: Anchor::Type });
    }
    proof {
        if fs@.len() == 0 {
            assert(count_marked(fs@) == 0);
        }
        if fs@.len() == 1 {
            assert(fs@.drop_last() =~= Seq::<Field>::empty());
            assert(count_marked(fs@.drop_last()) == 0);
        }
    }
    let j: usize = if field_is_marked(&fs[0]) { 0 } else { 1 };
    let loc: usize = if field_is_named_location(&fs[0]) { 0 } else { 1 };
    if let TypeRef::Path(_) = &fs[j].ty {
        let r = vec![Plan { variant: None, source_field: j, location_field: loc }];
        assert(r@ =~= seq![Plan { variant: None, source_field: j, location_field: loc }]);
        Ok(r)
    } else {
        Ok(Vec::new())
    }
}

/// Validates a type definition and, where it is valid, plans one conversion for each
/// marked field whose type is a path.
pub fn locate(t: &TypeDef) -> (r: Result<Vec<Plan>, Diagnostic>)
    ensures
        same_outcome(r, locate_result(*t)),
{
    match &t.data {
        Data::Enum(vs) => process_enum(vs),
        Data::Struct(f) => process_struct(f),
        Data::Union => Err(Diagnostic { kind: DiagnosticKind::NotEnumOrStruct, anchor: Anchor::Type }),
    }
}

} // verus!
