use vstd::prelude::*;

verus! {

/// One segment of a path: its identifier, and whether it carries generic arguments.
pub struct Segment {
    pub ident: String,
    pub has_arguments: bool,
}

/// A path such as `a::b::C<T>`.
pub struct PathRef {
    pub leading_colon: bool,
    pub segments: Vec<Segment>,
}

/// How an attribute is written: `#[a]`, `#[a(..)]` or `#[a = ..]`.
pub enum MetaStyle {
    Path,
    List,
    NameValue,
}

/// An attribute on a field.
pub struct Attr {
    pub path: PathRef,
    pub style: MetaStyle,
}

/// The declared type of a field: a path, or any other form of type.
pub enum TypeRef {
    Path(PathRef),
    Other,
}

/// A field: its name (absent in positional shapes), its type and its attributes.
pub struct Field {
    pub name: Option<String>,
    pub ty: TypeRef,
    pub attrs: Vec<Attr>,
}

/// The fields of a record or of a variant.
pub enum Fields {
    Named(Vec<Field>),
    Unnamed(Vec<Field>),
    Unit,
}

/// A variant of a tagged union.
pub struct Variant {
    pub name: String,
    pub fields: Fields,
}

/// The body of a type definition.
pub enum Data {
    Enum(Vec<Variant>),
    Struct(Fields),
    Union,
}

/// A type definition as the validator sees it.
pub struct TypeDef {
    pub name: String,
    pub data: Data,
}

/// The identifier of the marker attribute.
pub open spec fn marker_ident() -> Seq<char> {
    "locate_from"@
}

/// The last path segment that identifies a location type.
pub open spec fn location_type_ident() -> Seq<char> {
    "Location"@
}

/// The name of the location field in named shapes.
pub open spec fn location_field_name() -> Seq<char> {
    "location"@
}

/// The path is the single plain identifier `id`.
pub open spec fn path_is_ident(p: PathRef, id: Seq<char>) -> bool {
    &&& !p.leading_colon
    &&& p.segments@.len() == 1
    &&& !p.segments@[0].has_arguments
    &&& p.segments@[0].ident@ == id
}

/// The attribute is the marker: written bare, with no argument.
pub open spec fn is_marker_attr(a: Attr) -> bool {
    a.style is Path && path_is_ident(a.path, marker_ident())
}

/// The field carries the marker.
pub open spec fn is_marked(f: Field) -> bool {
    exists|i: int| 0 <= i < f.attrs@.len() && is_marker_attr(#[trigger] f.attrs@[i])
}

/// The type is a path whose last segment is `Location`.
pub open spec fn is_location_type(t: TypeRef) -> bool {
    match t {
        TypeRef::Path(p) => p.segments@.len() > 0 && p.segments@.last().ident@
            == location_type_ident(),
        TypeRef::Other => false,
    }
}

/// The field is named `location`.
pub open spec fn is_named_location(f: Field) -> bool {
    match f.name {
        Some(n) => n@ == location_field_name(),
        None => false,
    }
}

/// Compares a string with a literal.
fn text_is(s: &String, lit: &str) -> (r: bool)
    ensures
        r == (s@ == lit@),
{
    let t = String::from_str(lit);
    *s == t
}

fn is_marker(a: &Attr) -> (r: bool)
    ensures
        r == is_marker_attr(*a),
{
    proof {
        reveal_strlit("locate_from");
    }
    match a.style {
        MetaStyle::Path => {
            !a.path.leading_colon && a.path.segments.len() == 1
                && !a.path.segments[0].has_arguments && text_is(
                &a.path.segments[0].ident,
                "locate_from",
            )
        },
        _ => false,
    }
}

/// The index of the first marker among `attrs`, if there is one.
pub fn locate_from_attr_index(attrs: &Vec<Attr>) -> (r: Option<usize>)
    ensures
        r matches Some(i) ==> i < attrs@.len() && is_marker_attr(attrs@[i as int]) && forall|
            j: int,
        | 0 <= j < i ==> !is_marker_attr(#[trigger] attrs@[j]),
        r is None ==> forall|j: int| 0 <= j < attrs@.len() ==> !is_marker_attr(#[trigger] attrs@[j]),
{
    let mut i: usize = 0;
    while i < attrs.len()
        invariant
            i <= attrs@.len(),
            forall|j: int| 0 <= j < i ==> !is_marker_attr(#[trigger] attrs@[j]),
        decreases attrs@.len() - i,
    {
        if is_marker(&attrs[i]) {
            return Some(i);
        }
        i = i + 1;
    }
    None
}

/// Whether the field carries the marker.
pub fn field_is_marked(f: &Field) -> (r: bool)
    ensures
        r == is_marked(*f),
{
    match locate_from_attr_index(&f.attrs) {
        Some(_) => true,
        None => false,
    }
}

/// Whether the type is a path whose last segment is `Location`.
pub fn is_location_type_ref(t: &TypeRef) -> (r: bool)
    ensures
        r == is_location_type(*t),
{
    proof {
        reveal_strlit("Location");
    }
    match t {
        TypeRef::Path(p) => {
            let n = p.segments.len();
            n > 0 && text_is(&p.segments[n - 1].ident, "Location")
        },
        TypeRef::Other => false,
    }
}

/// Whether the field is named `location`.
pub fn field_is_named_location(f: &Field) -> (r: bool)
    ensures
        r == is_named_location(*f),
{
    proof {
        reveal_strlit("location");
    }
    match &f.name {
        Some(n) => text_is(n, "location"),
        None => false,
    }
}

} // verus!
