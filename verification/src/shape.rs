//! The closed set of field shapes, and record schemas built from them.
//!
//! A [`Shape`] names the conversion strategy of one field: a scalar, a
//! string, an enumerated string, a nested record, an optional wrapper, an
//! ordered sequence, a two-level sequence, a boxed (possibly
//! self-referential) record, or the optional forms of those.  A schema is
//! an ordered list of `(name, wire key, shape)` fields; a [`Catalog`] holds
//! one schema per record type, and nested-record shapes refer to their
//! schema by index into the catalogue.

use vstd::prelude::*;

verus! {

/// Mathematical model of a shape.
pub enum ShapeV {
    Int64,
    Int32,
    Float,
    Bool,
    Str,
    Choice(Seq<Seq<char>>),
    Rec(int),
    Boxed(int),
    OptBoxed(int),
    Opt(Box<ShapeV>),
    Many(Box<ShapeV>),
    Grid(Box<ShapeV>),
    OptMany(Box<ShapeV>),
}

/// The conversion strategy of one field.
///
/// `Choice` carries its closed table of wire strings; `Rec`, `Boxed` and
/// `OptBoxed` carry the catalogue index of the nested record's schema.
/// `Many` is an ordered sequence, `Grid` a sequence of sequences, and the
/// `Opt*` forms decode absence to "no value".
#[derive(Debug)]
pub enum Shape {
    Int64,
    Int32,
    Float,
    Bool,
    Str,
    Choice(Vec<String>),
    Rec(usize),
    Boxed(usize),
    OptBoxed(usize),
    Opt(Box<Shape>),
    Many(Box<Shape>),
    Grid(Box<Shape>),
    OptMany(Box<Shape>),
}

pub open spec fn shape_view(s: Shape) -> ShapeV
    decreases s,
{
    match s {
        Shape::Int64 => ShapeV::Int64,
        Shape::Int32 => ShapeV::Int32,
        Shape::Float => ShapeV::Float,
        Shape::Bool => ShapeV::Bool,
        Shape::Str => ShapeV::Str,
        Shape::Choice(table) => ShapeV::Choice(table@.map_values(|x: String| x@)),
        Shape::Rec(id) => ShapeV::Rec(id as int),
        Shape::Boxed(id) => ShapeV::Boxed(id as int),
        Shape::OptBoxed(id) => ShapeV::OptBoxed(id as int),
        Shape::Opt(inner) => ShapeV::Opt(Box::new(shape_view(*inner))),
        Shape::Many(inner) => ShapeV::Many(Box::new(shape_view(*inner))),
        Shape::Grid(inner) => ShapeV::Grid(Box::new(shape_view(*inner))),
        Shape::OptMany(inner) => ShapeV::OptMany(Box::new(shape_view(*inner))),
    }
}

impl View for Shape {
    type V = ShapeV;

    open spec fn view(&self) -> ShapeV {
        shape_view(*self)
    }
}

/// Mathematical model of one schema field.
pub struct FieldV {
    pub name: Seq<char>,
    pub key: Seq<char>,
    pub shape: ShapeV,
}

/// One field of a schema: internal name, wire key, shape.
#[derive(Debug)]
pub struct Field {
    pub name: String,
    pub key: String,
    pub shape: Shape,
}

impl View for Field {
    type V = FieldV;

    open spec fn view(&self) -> FieldV {
        FieldV { name: self.name@, key: self.key@, shape: self.shape@ }
    }
}

impl Field {
    /// A field whose wire key is its own name.
    pub fn named(name: &str, shape: Shape) -> (f: Field)
        ensures
            f@.name == name@,
            f@.key == name@,
            f@.shape == shape@,
    {
        Field { name: name.to_owned(), key: name.to_owned(), shape }
    }

    /// A field whose wire key differs from its internal name, as when the
    /// name would collide with a reserved word of the host language.
    pub fn renamed(name: &str, key: &str, shape: Shape) -> (f: Field)
        ensures
            f@.name == name@,
            f@.key == key@,
            f@.shape == shape@,
    {
        Field { name: name.to_owned(), key: key.to_owned(), shape }
    }
}

/// Mathematical model of a schema: its fields, in declaration order.
pub type SchemaV = Seq<FieldV>;

/// The ordered field list of one record type.
#[derive(Debug)]
pub struct Schema {
    pub fields: Vec<Field>,
}

impl View for Schema {
    type V = SchemaV;

    open spec fn view(&self) -> SchemaV {
        self.fields@.map_values(|f: Field| f@)
    }
}

/// Does the shape decode absence to "no value" (rather than failing or
/// substituting a structural default)?
pub open spec fn opt_like(s: ShapeV) -> bool {
    match s {
        ShapeV::Opt(_) => true,
        ShapeV::OptBoxed(_) => true,
        ShapeV::OptMany(_) => true,
        _ => false,
    }
}

pub open spec fn distinct_seqs(t: Seq<Seq<char>>) -> bool {
    forall|i: int, j: int| 0 <= i < j < t.len() ==> t[i] != t[j]
}

/// A shape is well formed against a catalogue of `n` schemas when its
/// enum table is non-empty and free of duplicates, every nested-record
/// index is in range, and no optional wraps another optional directly
/// (absence could then not be told from an inner "no value" on re-encode).
pub open spec fn wf_shape(n: int, s: ShapeV) -> bool
    decreases s,
{
    match s {
        ShapeV::Int64 => true,
        ShapeV::Int32 => true,
        ShapeV::Float => true,
        ShapeV::Bool => true,
        ShapeV::Str => true,
        ShapeV::Choice(table) => table.len() > 0 && distinct_seqs(table),
        ShapeV::Rec(id) => 0 <= id < n,
        ShapeV::Boxed(id) => 0 <= id < n,
        ShapeV::OptBoxed(id) => 0 <= id < n,
        ShapeV::Opt(inner) => wf_shape(n, *inner) && !opt_like(*inner),
        ShapeV::Many(inner) => wf_shape(n, *inner),
        ShapeV::Grid(inner) => wf_shape(n, *inner),
        ShapeV::OptMany(inner) => wf_shape(n, *inner),
    }
}

/// A required nested record at the top of a field shape must refer to an
/// earlier schema; this keeps the structural default of a schema finite.
pub open spec fn top_ref_lt(s: ShapeV, id: int) -> bool {
    match s {
        ShapeV::Rec(j) => j < id,
        ShapeV::Boxed(j) => j < id,
        _ => true,
    }
}

pub open spec fn wf_schema(n: int, id: int, schema: SchemaV) -> bool {
    &&& forall|i: int| 0 <= i < schema.len() ==> wf_shape(n, #[trigger] schema[i].shape)
    &&& forall|i: int| 0 <= i < schema.len() ==> top_ref_lt(#[trigger] schema[i].shape, id)
    &&& forall|i: int, j: int| 0 <= i < j < schema.len() ==> schema[i].key != schema[j].key
}

pub open spec fn wf_catalog(cat: Seq<SchemaV>) -> bool {
    forall|id: int| 0 <= id < cat.len() ==> wf_schema(cat.len() as int, id, #[trigger] cat[id])
}

fn distinct_strings(t: &Vec<String>) -> (r: bool)
    ensures
        r == distinct_seqs(t@.map_values(|x: String| x@)),
{
    let ghost tv = t@.map_values(|x: String| x@);
    let n = t.len();
    let mut i: usize = 0;
    while i < n
        invariant
            i <= n,
            n == t@.len(),
            tv == t@.map_values(|x: String| x@),
            forall|a: int, b: int| 0 <= a < b < t@.len() && a < i ==> tv[a] != tv[b],
        decreases n - i,
    {
        let mut j: usize = i + 1;
        while j < n
            invariant
                i < j <= n,
                n == t@.len(),
                tv == t@.map_values(|x: String| x@),
                forall|b: int| i < b < j ==> tv[i as int] != tv[b],
            decreases n - j,
        {
            if t[i].eq(&t[j]) {
                assert(tv[i as int] == tv[j as int]);
                return false;
            }
            j = j + 1;
        }
        i = i + 1;
    }
    true
}

fn check_shape(n: usize, s: &Shape) -> (r: bool)
    ensures
        r == wf_shape(n as int, s@),
    decreases s,
{
    match s {
        Shape::Int64 => true,
        Shape::Int32 => true,
        Shape::Float => true,
        Shape::Bool => true,
        Shape::Str => true,
        Shape::Choice(table) => table.len() > 0 && distinct_strings(table),
        Shape::Rec(id) => *id < n,
        Shape::Boxed(id) => *id < n,
        Shape::OptBoxed(id) => *id < n,
        Shape::Opt(inner) => {
            let inner_ok = check_shape(n, inner);
            let plain = match &**inner {
                Shape::Opt(_) => false,
                Shape::OptBoxed(_) => false,
                Shape::OptMany(_) => false,
                _ => true,
            };
            inner_ok && plain
        },
        Shape::Many(inner) => check_shape(n, inner),
        Shape::Grid(inner) => check_shape(n, inner),
        Shape::OptMany(inner) => check_shape(n, inner),
    }
}

fn check_top_ref(s: &Shape, id: usize) -> (r: bool)
    ensures
        r == top_ref_lt(s@, id as int),
{
    match s {
        Shape::Rec(j) => *j < id,
        Shape::Boxed(j) => *j < id,
        _ => true,
    }
}

fn check_schema(n: usize, id: usize, schema: &Schema) -> (r: bool)
    ensures
        r == wf_schema(n as int, id as int, schema@),
{
    let ghost sv = schema@;
    let len = schema.fields.len();
    let mut i: usize = 0;
    while i < len
        invariant
            i <= len,
            len == schema.fields@.len(),
            sv == schema@,
            sv.len() == len,
            forall|a: int|
                0 <= a < i ==> wf_shape(n as int, #[trigger] sv[a].shape) && top_ref_lt(
                    sv[a].shape,
                    id as int,
                ),
        decreases len - i,
    {
        assert(sv[i as int] == schema.fields@[i as int]@);
        if !check_shape(n, &schema.fields[i].shape) {
            assert(!wf_shape(n as int, sv[i as int].shape));
            assert(!wf_schema(n as int, id as int, sv));
            return false;
        }
        if !check_top_ref(&schema.fields[i].shape, id) {
            assert(!top_ref_lt(sv[i as int].shape, id as int));
            assert(!wf_schema(n as int, id as int, sv));
            return false;
        }
        i = i + 1;
    }
    let mut a: usize = 0;
    while a < len
        invariant
            a <= len,
            len == schema.fields@.len(),
            sv == schema@,
            sv.len() == len,
            forall|x: int|
                0 <= x < len ==> wf_shape(n as int, #[trigger] sv[x].shape) && top_ref_lt(
                    sv[x].shape,
                    id as int,
                ),
            forall|x: int, y: int| 0 <= x < y < len && x < a ==> sv[x].key != sv[y].key,
        decreases len - a,
    {
        let mut b: usize = a + 1;
        while b < len
            invariant
                a < b <= len,
                len == schema.fields@.len(),
                sv == schema@,
                sv.len() == len,
                forall|y: int| a < y < b ==> sv[a as int].key != sv[y].key,
            decreases len - b,
        {
            assert(sv[a as int] == schema.fields@[a as int]@);
            assert(sv[b as int] == schema.fields@[b as int]@);
            if schema.fields[a].key.eq(&schema.fields[b].key) {
                return false;
            }
            b = b + 1;
        }
        a = a + 1;
    }
    true
}

/// An immutable, checked catalogue of record schemas.
///
/// Every value of this type satisfies [`wf_catalog`]: the constructor
/// checks the schemas it is given and refuses ill-formed ones.
#[derive(Debug)]
pub struct Catalog {
    schemas: Vec<Schema>,
}

impl View for Catalog {
    type V = Seq<SchemaV>;

    closed spec fn view(&self) -> Seq<SchemaV> {
        self.schemas@.map_values(|s: Schema| s@)
    }
}

#[verifier::type_invariant]
pub open spec fn catalog_inv(c: Catalog) -> bool {
    wf_catalog(c@)
}

impl Catalog {
    /// Checks the given schemas and wraps them; refuses a set whose
    /// shapes, nesting indices or wire keys are not well formed.
    pub fn new(schemas: Vec<Schema>) -> (r: Option<Catalog>)
        ensures
            match r {
                Some(c) => c@ == schemas@.map_values(|s: Schema| s@) && wf_catalog(c@),
                None => !wf_catalog(schemas@.map_values(|s: Schema| s@)),
            },
    {
        let ghost cv = schemas@.map_values(|s: Schema| s@);
        let n = schemas.len();
        let mut id: usize = 0;
        while id < n
            invariant
                id <= n,
                n == schemas@.len(),
                cv == schemas@.map_values(|s: Schema| s@),
                cv.len() == n,
                forall|a: int| 0 <= a < id ==> wf_schema(n as int, a, #[trigger] cv[a]),
            decreases n - id,
        {
            assert(cv[id as int] == schemas@[id as int]@);
            if !check_schema(n, id, &schemas[id]) {
                return None;
            }
            id = id + 1;
        }
        let c = Catalog { schemas };
        Some(c)
    }

    /// How many schemas the catalogue holds.
    pub fn len(&self) -> (n: usize)
        ensures
            n == self@.len(),
    {
        self.schemas.len()
    }

    /// The schema stored at `id`.
    pub fn schema(&self, id: usize) -> (s: &Schema)
        requires
            id < self@.len(),
        ensures
            s@ == self@[id as int],
    {
        &self.schemas[id]
    }
}

} // verus!
