//! The generic codec engine.
//!
//! One engine, parameterized by [`Shape`], decodes a [`ValueModel`]
//! fragment into a native [`Value`], encodes a native value back into a
//! fragment, renders a record for debugging, and produces a structural
//! default — for every record type of the catalogue, with no per-type
//! conversion code.
//!
//! Decoding is total: a malformed fragment yields a [`DecodeError`]
//! carrying the kind of fault and the path of wire keys to the failing
//! field; no input aborts the process.  A required nested-record field
//! whose fragment is absent is reported as [`ErrorKind::MissingRequiredField`]
//! rather than silently defaulted, so malformed input is never masked.

use vstd::prelude::*;
use crate::num::dec_i64;
use crate::shape::Field;
use crate::shape::FieldV;
use crate::shape::Schema;
use crate::shape::SchemaV;
use crate::shape::Shape;
use crate::shape::ShapeV;
use crate::shape::Catalog;
use crate::shape::opt_like;
use crate::shape::top_ref_lt;
use crate::shape::wf_catalog;
use crate::shape::wf_schema;
use crate::shape::wf_shape;
use crate::value::JsonV;
use crate::value::ValueModel;
use crate::value::vm_view_seq;
use crate::value::lemma_vm_view_seq;
use crate::value::jlookup;
use crate::value::lemma_jlookup_decreases;

verus! {

/// Mathematical model of a native value.
pub enum ValueV {
    Int(int),
    Big(Seq<char>),
    Bool(bool),
    Text(Seq<char>),
    Choice(int),
    Rec(Seq<ValueV>),
    Opt(Option<Box<ValueV>>),
    Many(Seq<ValueV>),
}

/// A native value, as the engine produces and consumes it.
///
/// `Int` carries both 64- and 32-bit scalars (the shape bounds the
/// range), `Big` the wire text of a non-integral number, `Choice` the
/// index of an enumerated string in its shape's table, `Rec` a nested
/// record, `Opt` an optional of any of these, and `Many` a sequence (a
/// two-level sequence is a `Many` of `Many`s).
#[derive(Debug)]
pub enum Value {
    Int(i64),
    Big(String),
    Bool(bool),
    Text(String),
    Choice(usize),
    Rec(Record),
    Opt(Option<Box<Value>>),
    Many(Vec<Value>),
}

/// An ordered record: one native value per schema field.
#[derive(Debug)]
pub struct Record {
    pub fields: Vec<Value>,
}

pub open spec fn val_view(v: Value) -> ValueV
    decreases v,
{
    match v {
        Value::Int(i) => ValueV::Int(i as int),
        Value::Big(s) => ValueV::Big(s@),
        Value::Bool(b) => ValueV::Bool(b),
        Value::Text(s) => ValueV::Text(s@),
        Value::Choice(i) => ValueV::Choice(i as int),
        Value::Rec(r) => ValueV::Rec(val_view_seq(r.fields@)),
        Value::Opt(o) => ValueV::Opt(
            match o {
                Option::None => Option::None,
                Option::Some(b) => Option::Some(Box::new(val_view(*b))),
            },
        ),
        Value::Many(vs) => ValueV::Many(val_view_seq(vs@)),
    }
}

pub open spec fn val_view_seq(s: Seq<Value>) -> Seq<ValueV>
    decreases s,
{
    if s.len() == 0 {
        Seq::empty()
    } else {
        seq![val_view(s[0])] + val_view_seq(s.drop_first())
    }
}

impl View for Value {
    type V = ValueV;

    open spec fn view(&self) -> ValueV {
        val_view(*self)
    }
}

impl View for Record {
    type V = Seq<ValueV>;

    open spec fn view(&self) -> Seq<ValueV> {
        val_view_seq(self.fields@)
    }
}

pub broadcast proof fn lemma_val_view_seq(s: Seq<Value>)
    ensures
        #[trigger] val_view_seq(s).len() == s.len(),
        forall|i: int| 0 <= i < s.len() ==> val_view_seq(s)[i] == val_view(s[i]),
    decreases s,
{
    if s.len() > 0 {
        lemma_val_view_seq(s.drop_first());
    }
}

/// What went wrong while decoding.
#[derive(PartialEq, Eq, Structural, Clone, Copy, Debug)]
pub enum ErrorKind {
    /// A required position held nothing, or JSON null.
    MissingRequiredField,
    /// A fragment was present but of the wrong kind.
    TypeMismatch,
    /// An enumerated string was outside its closed table.
    UnknownEnumValue,
    /// An array was present but one of its elements failed to decode.
    MalformedArray,
}

/// Mathematical model of a decode failure.
pub struct ErrV {
    pub kind: ErrorKind,
    pub path: Seq<Seq<char>>,
}

/// A decode failure: its kind, and the wire keys leading to the field
/// that failed, outermost first.
#[derive(Debug)]
pub struct DecodeError {
    pub kind: ErrorKind,
    pub path: Vec<String>,
}

impl View for DecodeError {
    type V = ErrV;

    open spec fn view(&self) -> ErrV {
        ErrV { kind: self.kind, path: self.path@.map_values(|s: String| s@) }
    }
}

pub open spec fn err0(kind: ErrorKind) -> ErrV {
    ErrV { kind, path: Seq::empty() }
}

/// How a shape decodes when its fragment is absent from the mapping.
pub open spec fn sdecode_absent(shape: ShapeV) -> Result<ValueV, ErrV> {
    match shape {
        ShapeV::Opt(_) => Ok(ValueV::Opt(None)),
        ShapeV::OptBoxed(_) => Ok(ValueV::Opt(None)),
        ShapeV::OptMany(_) => Ok(ValueV::Opt(None)),
        ShapeV::Many(_) => Ok(ValueV::Many(Seq::empty())),
        ShapeV::Grid(_) => Ok(ValueV::Many(Seq::empty())),
        _ => Err(err0(ErrorKind::MissingRequiredField)),
    }
}

/// The first position of `s` in `table`, or a negative value when absent.
pub open spec fn first_index(table: Seq<Seq<char>>, s: Seq<char>) -> int
    decreases table,
{
    if table.len() == 0 {
        -1
    } else if table[0] == s {
        0
    } else if first_index(table.drop_first(), s) < 0 {
        -1
    } else {
        first_index(table.drop_first(), s) + 1
    }
}

/// How a shape decodes a present fragment.
pub open spec fn sdecode(cat: Seq<SchemaV>, shape: ShapeV, j: JsonV) -> Result<ValueV, ErrV>
    decreases j, shape,
{
    match shape {
        ShapeV::Int64 => match j {
            JsonV::Int(i) => Ok(ValueV::Int(i)),
            JsonV::Null => Err(err0(ErrorKind::MissingRequiredField)),
            _ => Err(err0(ErrorKind::TypeMismatch)),
        },
        ShapeV::Int32 => match j {
            JsonV::Int(i) => if -0x8000_0000 <= i < 0x8000_0000 {
                Ok(ValueV::Int(i))
            } else {
                Err(err0(ErrorKind::TypeMismatch))
            },
            JsonV::Null => Err(err0(ErrorKind::MissingRequiredField)),
            _ => Err(err0(ErrorKind::TypeMismatch)),
        },
        ShapeV::Float => match j {
            JsonV::Int(i) => Ok(ValueV::Big(dec_i64(i))),
            JsonV::Big(s) => Ok(ValueV::Big(s)),
            JsonV::Null => Err(err0(ErrorKind::MissingRequiredField)),
            _ => Err(err0(ErrorKind::TypeMismatch)),
        },
        ShapeV::Bool => match j {
            JsonV::Bool(b) => Ok(ValueV::Bool(b)),
            JsonV::Null => Err(err0(ErrorKind::MissingRequiredField)),
            _ => Err(err0(ErrorKind::TypeMismatch)),
        },
        ShapeV::Str => match j {
            JsonV::Str(s) => Ok(ValueV::Text(s)),
            JsonV::Null => Err(err0(ErrorKind::MissingRequiredField)),
            _ => Err(err0(ErrorKind::TypeMismatch)),
        },
        ShapeV::Choice(table) => match j {
            JsonV::Str(s) => if first_index(table, s) >= 0 {
                Ok(ValueV::Choice(first_index(table, s)))
            } else {
                Err(err0(ErrorKind::UnknownEnumValue))
            },
            JsonV::Null => Err(err0(ErrorKind::MissingRequiredField)),
            _ => Err(err0(ErrorKind::TypeMismatch)),
        },
        ShapeV::Rec(id) => match j {
            JsonV::Obj(entries) => if 0 <= id < cat.len() {
                match sdecode_fields(cat, cat[id], entries) {
                    Ok(vs) => Ok(ValueV::Rec(vs)),
                    Err(e) => Err(e),
                }
            } else {
                Err(err0(ErrorKind::TypeMismatch))
            },
            JsonV::Null => Err(err0(ErrorKind::MissingRequiredField)),
            _ => Err(err0(ErrorKind::TypeMismatch)),
        },
        ShapeV::Boxed(id) => match j {
            JsonV::Obj(entries) => if 0 <= id < cat.len() {
                match sdecode_fields(cat, cat[id], entries) {
                    Ok(vs) => Ok(ValueV::Rec(vs)),
                    Err(e) => Err(e),
                }
            } else {
                Err(err0(ErrorKind::TypeMismatch))
            },
            JsonV::Null => Err(err0(ErrorKind::MissingRequiredField)),
            _ => Err(err0(ErrorKind::TypeMismatch)),
        },
        ShapeV::OptBoxed(id) => match j {
            JsonV::Null => Ok(ValueV::Opt(None)),
            JsonV::Obj(entries) => if 0 <= id < cat.len() {
                match sdecode_fields(cat, cat[id], entries) {
                    Ok(vs) => Ok(ValueV::Opt(Some(Box::new(ValueV::Rec(vs))))),
                    Err(e) => Err(e),
                }
            } else {
                Err(err0(ErrorKind::TypeMismatch))
            },
            _ => Err(err0(ErrorKind::TypeMismatch)),
        },
        ShapeV::Opt(inner) => match j {
            JsonV::Null => Ok(ValueV::Opt(None)),
            _ => match sdecode(cat, *inner, j) {
                Ok(v) => Ok(ValueV::Opt(Some(Box::new(v)))),
                Err(e) => Err(e),
            },
        },
        ShapeV::Many(inner) => match j {
            JsonV::Arr(elems) => match sdecode_list(cat, *inner, elems) {
                Ok(vs) => Ok(ValueV::Many(vs)),
                Err(e) => Err(e),
            },
            _ => Ok(ValueV::Many(Seq::empty())),
        },
        ShapeV::Grid(inner) => match j {
            JsonV::Arr(elems) => match sdecode_grid(cat, *inner, elems) {
                Ok(vs) => Ok(ValueV::Many(vs)),
                Err(e) => Err(e),
            },
            _ => Ok(ValueV::Many(Seq::empty())),
        },
        ShapeV::OptMany(inner) => match j {
            JsonV::Arr(elems) => match sdecode_list(cat, *inner, elems) {
                Ok(vs) => Ok(ValueV::Opt(Some(Box::new(ValueV::Many(vs))))),
                Err(e) => Err(e),
            },
            _ => Ok(ValueV::Opt(None)),
        },
    }
}

/// Elements of an array, each decoded by `shape`; an element that fails
/// makes the whole array a [`ErrorKind::MalformedArray`] failure.
pub open spec fn sdecode_list(cat: Seq<SchemaV>, shape: ShapeV, elems: Seq<JsonV>) -> Result<
    Seq<ValueV>,
    ErrV,
>
    decreases elems, shape,
{
    if elems.len() == 0 {
        Ok(Seq::empty())
    } else {
        match sdecode(cat, shape, elems[0]) {
            Ok(v) => match sdecode_list(cat, shape, elems.drop_first()) {
                Ok(vs) => Ok(seq![v] + vs),
                Err(e) => Err(e),
            },
            Err(e) => Err(ErrV { kind: ErrorKind::MalformedArray, path: e.path }),
        }
    }
}

/// Rows of a two-level array: every element must itself be an array.
pub open spec fn sdecode_grid(cat: Seq<SchemaV>, shape: ShapeV, elems: Seq<JsonV>) -> Result<
    Seq<ValueV>,
    ErrV,
>
    decreases elems, shape,
{
    if elems.len() == 0 {
        Ok(Seq::empty())
    } else {
        match elems[0] {
            JsonV::Arr(row) => match sdecode_list(cat, shape, row) {
                Ok(v) => match sdecode_grid(cat, shape, elems.drop_first()) {
                    Ok(vs) => Ok(seq![ValueV::Many(v)] + vs),
                    Err(e) => Err(e),
                },
                Err(e) => Err(e),
            },
            _ => Err(err0(ErrorKind::MalformedArray)),
        }
    }
}

/// One field of a record: the fragment under the field's wire key, or
/// its absence, decoded by the field's shape; a failure is tagged with
/// the wire key.
pub open spec fn sdecode_field(
    cat: Seq<SchemaV>,
    field: FieldV,
    entries: Seq<(Seq<char>, JsonV)>,
) -> Result<ValueV, ErrV>
    decreases entries, field,
    via sdecode_field_dec
{
    match (match jlookup(entries, field.key) {
        None => sdecode_absent(field.shape),
        Some(j) => sdecode(cat, field.shape, j),
    }) {
        Ok(v) => Ok(v),
        Err(e) => Err(ErrV { kind: e.kind, path: seq![field.key] + e.path }),
    }
}

#[via_fn]
proof fn sdecode_field_dec(cat: Seq<SchemaV>, field: FieldV, entries: Seq<(Seq<char>, JsonV)>) {
    lemma_jlookup_decreases(entries, field.key);
}

/// All fields of a schema decoded in order against one mapping.
pub open spec fn sdecode_fields(
    cat: Seq<SchemaV>,
    fields: Seq<FieldV>,
    entries: Seq<(Seq<char>, JsonV)>,
) -> Result<Seq<ValueV>, ErrV>
    decreases entries, fields,
{
    if fields.len() == 0 {
        Ok(Seq::empty())
    } else {
        match sdecode_field(cat, fields[0], entries) {
            Ok(v) => match sdecode_fields(cat, fields.drop_first(), entries) {
                Ok(vs) => Ok(seq![v] + vs),
                Err(e) => Err(e),
            },
            Err(e) => Err(e),
        }
    }
}

/// Is this field value omitted from an encoded mapping?
pub open spec fn absent_field(shape: ShapeV, v: ValueV) -> bool {
    opt_like(shape) && v == ValueV::Opt(None::<Box<ValueV>>)
}

/// How a well-formed native value encodes back into a fragment.
pub open spec fn sencode(cat: Seq<SchemaV>, shape: ShapeV, v: ValueV) -> JsonV
    decreases v, shape,
{
    match shape {
        ShapeV::Int64 => match v {
            ValueV::Int(i) => JsonV::Int(i),
            _ => arbitrary(),
        },
        ShapeV::Int32 => match v {
            ValueV::Int(i) => JsonV::Int(i),
            _ => arbitrary(),
        },
        ShapeV::Float => match v {
            ValueV::Big(s) => JsonV::Big(s),
            _ => arbitrary(),
        },
        ShapeV::Bool => match v {
            ValueV::Bool(b) => JsonV::Bool(b),
            _ => arbitrary(),
        },
        ShapeV::Str => match v {
            ValueV::Text(s) => JsonV::Str(s),
            _ => arbitrary(),
        },
        ShapeV::Choice(table) => match v {
            ValueV::Choice(i) => JsonV::Str(table[i]),
            _ => arbitrary(),
        },
        ShapeV::Rec(id) => match v {
            ValueV::Rec(fvs) => if 0 <= id < cat.len() {
                JsonV::Obj(sencode_fields(cat, cat[id], fvs))
            } else {
                arbitrary()
            },
            _ => arbitrary(),
        },
        ShapeV::Boxed(id) => match v {
            ValueV::Rec(fvs) => if 0 <= id < cat.len() {
                JsonV::Obj(sencode_fields(cat, cat[id], fvs))
            } else {
                arbitrary()
            },
            _ => arbitrary(),
        },
        ShapeV::OptBoxed(id) => match v {
            ValueV::Opt(None) => JsonV::Null,
            ValueV::Opt(Some(b)) => match *b {
                ValueV::Rec(fvs) => if 0 <= id < cat.len() {
                    JsonV::Obj(sencode_fields(cat, cat[id], fvs))
                } else {
                    arbitrary()
                },
                _ => arbitrary(),
            },
            _ => arbitrary(),
        },
        ShapeV::Opt(inner) => match v {
            ValueV::Opt(None) => JsonV::Null,
            ValueV::Opt(Some(b)) => sencode(cat, *inner, *b),
            _ => arbitrary(),
        },
        ShapeV::Many(inner) => match v {
            ValueV::Many(vs) => JsonV::Arr(sencode_list(cat, *inner, vs)),
            _ => arbitrary(),
        },
        ShapeV::Grid(inner) => match v {
            ValueV::Many(vs) => JsonV::Arr(sencode_grid(cat, *inner, vs)),
            _ => arbitrary(),
        },
        ShapeV::OptMany(inner) => match v {
            ValueV::Opt(None) => JsonV::Null,
            ValueV::Opt(Some(b)) => match *b {
                ValueV::Many(vs) => JsonV::Arr(sencode_list(cat, *inner, vs)),
                _ => arbitrary(),
            },
            _ => arbitrary(),
        },
    }
}

pub open spec fn sencode_list(cat: Seq<SchemaV>, shape: ShapeV, vs: Seq<ValueV>) -> Seq<JsonV>
    decreases vs, shape,
{
    if vs.len() == 0 {
        Seq::empty()
    } else {
        seq![sencode(cat, shape, vs[0])] + sencode_list(cat, shape, vs.drop_first())
    }
}

pub open spec fn sencode_grid(cat: Seq<SchemaV>, shape: ShapeV, vs: Seq<ValueV>) -> Seq<JsonV>
    decreases vs, shape,
{
    if vs.len() == 0 {
        Seq::empty()
    } else {
        (match vs[0] {
            ValueV::Many(row) => seq![JsonV::Arr(sencode_list(cat, shape, row))],
            _ => seq![arbitrary::<JsonV>()],
        }) + sencode_grid(cat, shape, vs.drop_first())
    }
}

/// The mapping entries of an encoded record: schema order, present
/// optionals and all required fields included, absent optionals omitted
/// entirely (never emitted as null).
pub open spec fn sencode_fields(cat: Seq<SchemaV>, fields: Seq<FieldV>, fvs: Seq<ValueV>) -> Seq<
    (Seq<char>, JsonV),
>
    decreases fvs, fields,
{
    if fields.len() == 0 || fvs.len() == 0 {
        Seq::empty()
    } else {
        (if absent_field(fields[0].shape, fvs[0]) {
            Seq::empty()
        } else {
            seq![(fields[0].key, sencode(cat, fields[0].shape, fvs[0]))]
        }) + sencode_fields(cat, fields.drop_first(), fvs.drop_first())
    }
}

/// Does this native value fit this shape?  Decoded and default values
/// do; encoding is specified for exactly these.
pub open spec fn wf_value(cat: Seq<SchemaV>, shape: ShapeV, v: ValueV) -> bool
    decreases v, shape,
{
    match shape {
        ShapeV::Int64 => v matches ValueV::Int(i) && -0x8000_0000_0000_0000 <= i
            < 0x8000_0000_0000_0000,
        ShapeV::Int32 => v matches ValueV::Int(i) && -0x8000_0000 <= i < 0x8000_0000,
        ShapeV::Float => v matches ValueV::Big(_),
        ShapeV::Bool => v matches ValueV::Bool(_),
        ShapeV::Str => v matches ValueV::Text(_),
        ShapeV::Choice(table) => v matches ValueV::Choice(i) && 0 <= i < table.len(),
        ShapeV::Rec(id) => 0 <= id < cat.len() && (v matches ValueV::Rec(fvs) && wf_values(
            cat,
            cat[id],
            fvs,
        )),
        ShapeV::Boxed(id) => 0 <= id < cat.len() && (v matches ValueV::Rec(fvs) && wf_values(
            cat,
            cat[id],
            fvs,
        )),
        ShapeV::OptBoxed(id) => match v {
            ValueV::Opt(None) => true,
            ValueV::Opt(Some(b)) => 0 <= id < cat.len() && (*b matches ValueV::Rec(fvs)
                && wf_values(cat, cat[id], fvs)),
            _ => false,
        },
        ShapeV::Opt(inner) => match v {
            ValueV::Opt(None) => true,
            ValueV::Opt(Some(b)) => wf_value(cat, *inner, *b),
            _ => false,
        },
        ShapeV::Many(inner) => v matches ValueV::Many(vs) && wf_list(cat, *inner, vs),
        ShapeV::Grid(inner) => v matches ValueV::Many(vs) && wf_grid(cat, *inner, vs),
        ShapeV::OptMany(inner) => match v {
            ValueV::Opt(None) => true,
            ValueV::Opt(Some(b)) => *b matches ValueV::Many(vs) && wf_list(cat, *inner, vs),
            _ => false,
        },
    }
}

pub open spec fn wf_list(cat: Seq<SchemaV>, shape: ShapeV, vs: Seq<ValueV>) -> bool
    decreases vs, shape,
{
    if vs.len() == 0 {
        true
    } else {
        wf_value(cat, shape, vs[0]) && wf_list(cat, shape, vs.drop_first())
    }
}

pub open spec fn wf_grid(cat: Seq<SchemaV>, shape: ShapeV, vs: Seq<ValueV>) -> bool
    decreases vs, shape,
{
    if vs.len() == 0 {
        true
    } else {
        (vs[0] matches ValueV::Many(row) && wf_list(cat, shape, row)) && wf_grid(
            cat,
            shape,
            vs.drop_first(),
        )
    }
}

pub open spec fn wf_values(cat: Seq<SchemaV>, fields: Seq<FieldV>, fvs: Seq<ValueV>) -> bool
    decreases fvs, fields,
{
    if fields.len() == 0 || fvs.len() == 0 {
        fields.len() == fvs.len()
    } else {
        wf_value(cat, fields[0].shape, fvs[0]) && wf_values(
            cat,
            fields.drop_first(),
            fvs.drop_first(),
        )
    }
}

/// A record value fits a schema.
pub open spec fn wf_record(cat: Seq<SchemaV>, id: int, fvs: Seq<ValueV>) -> bool {
    0 <= id < cat.len() && wf_values(cat, cat[id], fvs)
}


pub proof fn lemma_val_view_seq_push(s: Seq<Value>, v: Value)
    ensures
        val_view_seq(s.push(v)) == val_view_seq(s).push(val_view(v)),
    decreases s,
{
    reveal_with_fuel(val_view_seq, 3);
    assert(s.push(v)[0] == if s.len() == 0 { v } else { s[0] });
    if s.len() == 0 {
        assert(s.push(v).drop_first() =~= Seq::<Value>::empty());
        assert(val_view_seq(s.push(v)) =~= val_view_seq(s).push(val_view(v)));
    } else {
        assert(s.push(v).drop_first() =~= s.drop_first().push(v));
        lemma_val_view_seq_push(s.drop_first(), v);
        assert(val_view_seq(s.push(v)) =~= val_view_seq(s).push(val_view(v)));
    }
}

pub proof fn lemma_first_index_found(t: Seq<Seq<char>>, s: Seq<char>, i: int)
    requires
        0 <= i < t.len(),
        t[i] == s,
        forall|k: int| 0 <= k < i ==> t[k] != s,
    ensures
        first_index(t, s) == i,
    decreases t,
{
    if i > 0 {
        assert(forall|k: int|
            0 <= k < i - 1 ==> t.drop_first()[k] == t[k + 1] && t[k + 1] != s);
        lemma_first_index_found(t.drop_first(), s, i - 1);
    }
}

pub proof fn lemma_first_index_none(t: Seq<Seq<char>>, s: Seq<char>)
    requires
        forall|k: int| 0 <= k < t.len() ==> t[k] != s,
    ensures
        first_index(t, s) < 0,
    decreases t,
{
    if t.len() > 0 {
        assert(forall|k: int|
            0 <= k < t.len() - 1 ==> t.drop_first()[k] == t[k + 1] && t[k + 1] != s);
        lemma_first_index_none(t.drop_first(), s);
    }
}

/// Structural size of a shape, for termination measures.
pub open spec fn shape_size(s: ShapeV) -> nat
    decreases s,
{
    match s {
        ShapeV::Opt(inner) => 1 + shape_size(*inner),
        ShapeV::Many(inner) => 1 + shape_size(*inner),
        ShapeV::Grid(inner) => 1 + shape_size(*inner),
        ShapeV::OptMany(inner) => 1 + shape_size(*inner),
        _ => 1,
    }
}

/// The result of an executable step, seen through the views.
pub open spec fn res_view(r: Result<Value, DecodeError>) -> Result<ValueV, ErrV> {
    match r {
        Ok(v) => Ok(v@),
        Err(e) => Err(e@),
    }
}

fn mk_err(kind: ErrorKind) -> (r: DecodeError)
    ensures
        r@ == err0(kind),
{
    let r = DecodeError { kind, path: Vec::new() };
    proof {
        assert(r@.path =~= Seq::<Seq<char>>::empty());
        assert(r@ =~= err0(kind));
    }
    r
}

/// Tags a nested failure with the wire key of the field it arose under.
fn prepend_key(key: &String, e: DecodeError) -> (r: DecodeError)
    ensures
        r@ == (ErrV { kind: e@.kind, path: seq![key@] + e@.path }),
{
    let DecodeError { kind, path: old_path } = e;
    let mut path: Vec<String> = Vec::new();
    path.push(key.clone());
    let n = old_path.len();
    let mut i: usize = 0;
    while i < n
        invariant
            i <= n,
            n == old_path@.len(),
            path@.len() == i + 1,
            path@[0]@ == key@,
            forall|j: int| 0 <= j < i ==> path@[j + 1]@ == old_path@[j]@,
        decreases n - i,
    {
        path.push(old_path[i].clone());
        i = i + 1;
    }
    let r = DecodeError { kind, path };
    proof {
        assert(r@.path =~= seq![key@] + old_path@.map_values(|s: String| s@));
    }
    r
}

fn decode_absent(shape: &Shape) -> (r: Result<Value, DecodeError>)
    ensures
        res_view(r) == sdecode_absent(shape@),
{
    match shape {
        Shape::Opt(_) => Ok(Value::Opt(None)),
        Shape::OptBoxed(_) => Ok(Value::Opt(None)),
        Shape::OptMany(_) => Ok(Value::Opt(None)),
        Shape::Many(_) => {
            let vs: Vec<Value> = Vec::new();
            proof {
                assert(val_view_seq(vs@) =~= Seq::<ValueV>::empty());
            }
            Ok(Value::Many(vs))
        },
        Shape::Grid(_) => {
            let vs: Vec<Value> = Vec::new();
            proof {
                assert(val_view_seq(vs@) =~= Seq::<ValueV>::empty());
            }
            Ok(Value::Many(vs))
        },
        _ => Err(mk_err(ErrorKind::MissingRequiredField)),
    }
}

/// Decodes one present fragment by `shape`.
#[verifier::loop_isolation(false)]
#[verifier::rlimit(80)]
fn decode_value(cat: &Catalog, shape: &Shape, v: &ValueModel) -> (r: Result<Value, DecodeError>)
    ensures
        res_view(r) == sdecode(cat@, shape@, v@),
    decreases v, 1int, shape_size(shape@),
{
    match shape {
        Shape::Int64 => match v {
            ValueModel::Int(i) => Ok(Value::Int(*i)),
            ValueModel::Null => Err(mk_err(ErrorKind::MissingRequiredField)),
            _ => Err(mk_err(ErrorKind::TypeMismatch)),
        },
        Shape::Int32 => match v {
            ValueModel::Int(i) => {
                if -0x8000_0000i64 <= *i && *i < 0x8000_0000i64 {
                    Ok(Value::Int(*i))
                } else {
                    Err(mk_err(ErrorKind::TypeMismatch))
                }
            },
            ValueModel::Null => Err(mk_err(ErrorKind::MissingRequiredField)),
            _ => Err(mk_err(ErrorKind::TypeMismatch)),
        },
        Shape::Float => match v {
            ValueModel::Int(i) => Ok(Value::Big(crate::num::i64_text(*i))),
            ValueModel::Big(s) => Ok(Value::Big(s.clone())),
            ValueModel::Null => Err(mk_err(ErrorKind::MissingRequiredField)),
            _ => Err(mk_err(ErrorKind::TypeMismatch)),
        },
        Shape::Bool => match v {
            ValueModel::Bool(b) => Ok(Value::Bool(*b)),
            ValueModel::Null => Err(mk_err(ErrorKind::MissingRequiredField)),
            _ => Err(mk_err(ErrorKind::TypeMismatch)),
        },
        Shape::Str => match v {
            ValueModel::Str(s) => Ok(Value::Text(s.clone())),
            ValueModel::Null => Err(mk_err(ErrorKind::MissingRequiredField)),
            _ => Err(mk_err(ErrorKind::TypeMismatch)),
        },
        Shape::Choice(table) => match v {
            ValueModel::Str(s) => {
                let ghost tv = table@.map_values(|x: String| x@);
                let n = table.len();
                let mut i: usize = 0;
                while i < n
                    invariant
                        i <= n,
                        forall|k: int| 0 <= k < i ==> tv[k] != s@,
                    decreases n - i,
                {
                    if table[i].eq(s) {
                        proof {
                            lemma_first_index_found(tv, s@, i as int);
                        }
                        return Ok(Value::Choice(i));
                    }
                    i = i + 1;
                }
                proof {
                    lemma_first_index_none(tv, s@);
                }
                Err(mk_err(ErrorKind::UnknownEnumValue))
            },
            ValueModel::Null => Err(mk_err(ErrorKind::MissingRequiredField)),
            _ => Err(mk_err(ErrorKind::TypeMismatch)),
        },
        Shape::Rec(id) => match v {
            ValueModel::Obj(_) => {
                if *id < cat.len() {
                    match decode_fields(cat, *id, v) {
                        Ok(rec) => Ok(Value::Rec(rec)),
                        Err(e) => Err(e),
                    }
                } else {
                    Err(mk_err(ErrorKind::TypeMismatch))
                }
            },
            ValueModel::Null => Err(mk_err(ErrorKind::MissingRequiredField)),
            _ => Err(mk_err(ErrorKind::TypeMismatch)),
        },
        Shape::Boxed(id) => match v {
            ValueModel::Obj(_) => {
                if *id < cat.len() {
                    match decode_fields(cat, *id, v) {
                        Ok(rec) => Ok(Value::Rec(rec)),
                        Err(e) => Err(e),
                    }
                } else {
                    Err(mk_err(ErrorKind::TypeMismatch))
                }
            },
            ValueModel::Null => Err(mk_err(ErrorKind::MissingRequiredField)),
            _ => Err(mk_err(ErrorKind::TypeMismatch)),
        },
        Shape::OptBoxed(id) => match v {
            ValueModel::Null => Ok(Value::Opt(None)),
            ValueModel::Obj(_) => {
                if *id < cat.len() {
                    match decode_fields(cat, *id, v) {
                        Ok(rec) => {
                            let rv = Value::Opt(Some(Box::new(Value::Rec(rec))));
                            proof {
                                reveal_with_fuel(val_view, 3);
                                assert(res_view(Ok(rv)) == sdecode(cat@, shape@, v@));
                            }
                            Ok(rv)
                        },
                        Err(e) => Err(e),
                    }
                } else {
                    Err(mk_err(ErrorKind::TypeMismatch))
                }
            },
            _ => Err(mk_err(ErrorKind::TypeMismatch)),
        },
        Shape::Opt(inner) => match v {
            ValueModel::Null => Ok(Value::Opt(None)),
            _ => match decode_value(cat, inner, v) {
                Ok(x) => {
                    let rv = Value::Opt(Some(Box::new(x)));
                    proof {
                        reveal_with_fuel(val_view, 3);
                        assert(res_view(Ok(rv)) == sdecode(cat@, shape@, v@));
                    }
                    Ok(rv)
                },
                Err(e) => Err(e),
            },
        },
        Shape::Many(inner) => match v {
            ValueModel::Arr(elems) => {
                proof {
                    assert(decreases_to!(*v => *elems));
                }
                match decode_list(cat, inner, elems) {
                    Ok(vs) => Ok(Value::Many(vs)),
                    Err(e) => Err(e),
                }
            },
            _ => {
                let vs: Vec<Value> = Vec::new();
                proof {
                    assert(val_view_seq(vs@) =~= Seq::<ValueV>::empty());
                }
                Ok(Value::Many(vs))
            },
        },
        Shape::Grid(inner) => match v {
            ValueModel::Arr(elems) => {
                proof {
                    assert(decreases_to!(*v => *elems));
                }
                match decode_grid(cat, inner, elems) {
                    Ok(vs) => Ok(Value::Many(vs)),
                    Err(e) => Err(e),
                }
            },
            _ => {
                let vs: Vec<Value> = Vec::new();
                proof {
                    assert(val_view_seq(vs@) =~= Seq::<ValueV>::empty());
                }
                Ok(Value::Many(vs))
            },
        },
        Shape::OptMany(inner) => match v {
            ValueModel::Arr(elems) => {
                proof {
                    assert(decreases_to!(*v => *elems));
                }
                match decode_list(cat, inner, elems) {
                    Ok(vs) => {
                        let rv = Value::Opt(Some(Box::new(Value::Many(vs))));
                        proof {
                            reveal_with_fuel(val_view, 3);
                            assert(res_view(Ok(rv)) == sdecode(cat@, shape@, v@));
                        }
                        Ok(rv)
                    },
                    Err(e) => Err(e),
                }
            },
            _ => Ok(Value::Opt(None)),
        },
    }
}

/// Decodes every element of an array by one element shape.
#[verifier::loop_isolation(false)]
fn decode_list(cat: &Catalog, shape: &Shape, elems: &Vec<ValueModel>) -> (r: Result<
    Vec<Value>,
    DecodeError,
>)
    ensures
        match r {
            Ok(vs) => sdecode_list(cat@, shape@, vm_view_seq(elems@)) == Ok::<_, ErrV>(
                val_view_seq(vs@),
            ),
            Err(e) => sdecode_list(cat@, shape@, vm_view_seq(elems@)) == Err::<Seq<ValueV>, _>(
                e@,
            ),
        },
    decreases elems, 1int, shape_size(shape@),
{
    let ghost ev = vm_view_seq(elems@);
    proof {
        lemma_vm_view_seq(elems@);
        assert(ev.skip(0) =~= ev);
    }
    let n = elems.len();
    let mut acc: Vec<Value> = Vec::new();
    let mut i: usize = 0;
    proof {
        assert(val_view_seq(acc@) =~= Seq::<ValueV>::empty());
    }
    while i < n
        invariant
            i <= n,
            acc@.len() == i,
            sdecode_list(cat@, shape@, ev) == (match sdecode_list(
                cat@,
                shape@,
                ev.skip(i as int),
            ) {
                Ok(vs) => Ok::<Seq<ValueV>, ErrV>(val_view_seq(acc@) + vs),
                Err(e) => Err::<Seq<ValueV>, ErrV>(e),
            }),
        decreases n - i,
    {
        proof {
            assert(decreases_to!(*elems => elems@[i as int]));
            assert(ev.skip(i as int)[0] == ev[i as int]);
            assert(ev.skip(i as int).drop_first() =~= ev.skip(i + 1));
        }
        match decode_value(cat, shape, &elems[i]) {
            Ok(val) => {
                proof {
                    lemma_val_view_seq_push(acc@, val);
                    let rest = sdecode_list(cat@, shape@, ev.skip(i + 1));
                    match rest {
                        Ok(vs) => {
                            assert(val_view_seq(acc@) + (seq![val@] + vs) =~= val_view_seq(
                                acc@,
                            ).push(val@) + vs);
                        },
                        Err(_) => {},
                    }
                }
                acc.push(val);
                i = i + 1;
            },
            Err(e) => {
                let r = DecodeError { kind: ErrorKind::MalformedArray, path: e.path };
                return Err(r);
            },
        }
    }
    proof {
        assert(ev.skip(n as int) =~= Seq::<JsonV>::empty());
        assert(val_view_seq(acc@) + Seq::<ValueV>::empty() =~= val_view_seq(acc@));
    }
    Ok(acc)
}

/// Decodes a two-level array: every element must itself be an array.
#[verifier::loop_isolation(false)]
fn decode_grid(cat: &Catalog, shape: &Shape, elems: &Vec<ValueModel>) -> (r: Result<
    Vec<Value>,
    DecodeError,
>)
    ensures
        match r {
            Ok(vs) => sdecode_grid(cat@, shape@, vm_view_seq(elems@)) == Ok::<_, ErrV>(
                val_view_seq(vs@),
            ),
            Err(e) => sdecode_grid(cat@, shape@, vm_view_seq(elems@)) == Err::<Seq<ValueV>, _>(
                e@,
            ),
        },
    decreases elems, 1int, shape_size(shape@),
{
    let ghost ev = vm_view_seq(elems@);
    proof {
        lemma_vm_view_seq(elems@);
        assert(ev.skip(0) =~= ev);
    }
    let n = elems.len();
    let mut acc: Vec<Value> = Vec::new();
    let mut i: usize = 0;
    proof {
        assert(val_view_seq(acc@) =~= Seq::<ValueV>::empty());
    }
    while i < n
        invariant
            i <= n,
            acc@.len() == i,
            sdecode_grid(cat@, shape@, ev) == (match sdecode_grid(
                cat@,
                shape@,
                ev.skip(i as int),
            ) {
                Ok(vs) => Ok::<Seq<ValueV>, ErrV>(val_view_seq(acc@) + vs),
                Err(e) => Err::<Seq<ValueV>, ErrV>(e),
            }),
        decreases n - i,
    {
        proof {
            assert(ev.skip(i as int)[0] == ev[i as int]);
            assert(ev.skip(i as int).drop_first() =~= ev.skip(i + 1));
        }
        match &elems[i] {
            ValueModel::Arr(row) => {
                proof {
                    assert(decreases_to!(*elems => elems@[i as int]));
                    assert(decreases_to!(elems@[i as int] => *row));
                }
                match decode_list(cat, shape, row) {
                    Ok(vs) => {
                        let val = Value::Many(vs);
                        proof {
                            lemma_val_view_seq_push(acc@, val);
                            let rest = sdecode_grid(cat@, shape@, ev.skip(i + 1));
                            match rest {
                                Ok(ws) => {
                                    assert(val_view_seq(acc@) + (seq![val@] + ws)
                                        =~= val_view_seq(acc@).push(val@) + ws);
                                },
                                Err(_) => {},
                            }
                        }
                        acc.push(val);
                        i = i + 1;
                    },
                    Err(e) => {
                        return Err(e);
                    },
                }
            },
            _ => {
                return Err(mk_err(ErrorKind::MalformedArray));
            },
        }
    }
    proof {
        assert(ev.skip(n as int) =~= Seq::<JsonV>::empty());
        assert(val_view_seq(acc@) + Seq::<ValueV>::empty() =~= val_view_seq(acc@));
    }
    Ok(acc)
}

/// Decodes every field of the schema at `id` against one mapping.
#[verifier::loop_isolation(false)]
#[verifier::rlimit(60)]
fn decode_fields(cat: &Catalog, id: usize, v: &ValueModel) -> (r: Result<Record, DecodeError>)
    requires
        id < cat@.len(),
        v matches ValueModel::Obj(_),
    ensures
        match v@ {
            JsonV::Obj(entries) => match r {
                Ok(rec) => sdecode_fields(cat@, cat@[id as int], entries) == Ok::<_, ErrV>(rec@),
                Err(e) => sdecode_fields(cat@, cat@[id as int], entries) == Err::<
                    Seq<ValueV>,
                    _,
                >(e@),
            },
            _ => false,
        },
    decreases v, 0int, 0int,
{
    let ghost entries = match v@ {
        JsonV::Obj(es) => es,
        _ => arbitrary(),
    };
    let schema = cat.schema(id);
    let ghost sv = schema@;
    let nf = schema.fields.len();
    let mut acc: Vec<Value> = Vec::new();
    let mut k: usize = 0;
    proof {
        assert(sv.skip(0) =~= sv);
        assert(val_view_seq(acc@) =~= Seq::<ValueV>::empty());
    }
    while k < nf
        invariant
            k <= nf,
            nf == schema.fields@.len(),
            acc@.len() == k,
            sdecode_fields(cat@, sv, entries) == (match sdecode_fields(
                cat@,
                sv.skip(k as int),
                entries,
            ) {
                Ok(vs) => Ok::<Seq<ValueV>, ErrV>(val_view_seq(acc@) + vs),
                Err(e) => Err::<Seq<ValueV>, ErrV>(e),
            }),
        decreases nf - k,
    {
        let field = &schema.fields[k];
        proof {
            assert(sv[k as int] == schema.fields@[k as int]@);
            assert(sv.skip(k as int)[0] == sv[k as int]);
            assert(sv.skip(k as int).drop_first() =~= sv.skip(k + 1));
        }
        let frag = v.get(field.key.as_str());
        let step = match frag {
            None => decode_absent(&field.shape),
            Some(f) => decode_value(cat, &field.shape, f),
        };
        match step {
            Err(e) => {
                let e2 = prepend_key(&field.key, e);
                proof {
                    assert(sdecode_field(cat@, sv[k as int], entries) == Err::<ValueV, ErrV>(
                        e2@,
                    ));
                }
                return Err(e2);
            },
            Ok(val) => {
                proof {
                    assert(sdecode_field(cat@, sv[k as int], entries) == Ok::<ValueV, ErrV>(
                        val@,
                    ));
                    lemma_val_view_seq_push(acc@, val);
                    let rest = sdecode_fields(cat@, sv.skip(k + 1), entries);
                    match rest {
                        Ok(vs) => {
                            assert(val_view_seq(acc@) + (seq![val@] + vs) =~= val_view_seq(
                                acc@,
                            ).push(val@) + vs);
                        },
                        Err(_) => {},
                    }
                }
                acc.push(val);
                k = k + 1;
            },
        }
    }
    proof {
        assert(sv.skip(nf as int) =~= Seq::<FieldV>::empty());
        assert(val_view_seq(acc@) + Seq::<ValueV>::empty() =~= val_view_seq(acc@));
    }
    Ok(Record { fields: acc })
}

/// Decodes one fragment by an arbitrary shape.
pub fn decode_fragment(cat: &Catalog, shape: &Shape, v: &ValueModel) -> (r: Result<
    Value,
    DecodeError,
>)
    ensures
        res_view(r) == sdecode(cat@, shape@, v@),
        match r {
            Ok(val) => wf_shape(cat@.len() as int, shape@) ==> wf_value(cat@, shape@, val@),
            Err(_) => true,
        },
{
    proof {
        use_type_invariant(cat);
        lemma_vm_fits(*v);
        if wf_shape(cat@.len() as int, shape@) {
            lemma_decode_wf(cat@, shape@, v@);
        }
    }
    decode_value(cat, shape, v)
}

/// Decodes a whole record of the schema at `id` from a mapping fragment.
pub fn decode(cat: &Catalog, id: usize, v: &ValueModel) -> (r: Result<Record, DecodeError>)
    requires
        id < cat@.len(),
    ensures
        match r {
            Ok(rec) => sdecode(cat@, ShapeV::Rec(id as int), v@) == Ok::<_, ErrV>(ValueV::Rec(
                rec@,
            )) && wf_record(cat@, id as int, rec@),
            Err(e) => sdecode(cat@, ShapeV::Rec(id as int), v@) == Err::<ValueV, _>(e@),
        },
{
    proof {
        use_type_invariant(cat);
        lemma_vm_fits(*v);
        lemma_decode_wf(cat@, ShapeV::Rec(id as int), v@);
    }
    match v {
        ValueModel::Obj(_) => decode_fields(cat, id, v),
        ValueModel::Null => Err(mk_err(ErrorKind::MissingRequiredField)),
        _ => Err(mk_err(ErrorKind::TypeMismatch)),
    }
}


proof fn lemma_vm_view_entries_push(s: Seq<(String, ValueModel)>, e: (String, ValueModel))
    ensures
        crate::value::vm_view_entries(s.push(e)) == crate::value::vm_view_entries(s).push(
            (e.0@, crate::value::vm_view(e.1)),
        ),
    decreases s,
{
    reveal_with_fuel(crate::value::vm_view_entries, 3);
    assert(s.push(e)[0] == if s.len() == 0 { e } else { s[0] });
    if s.len() == 0 {
        assert(s.push(e).drop_first() =~= Seq::<(String, ValueModel)>::empty());
        assert(crate::value::vm_view_entries(s.push(e)) =~= crate::value::vm_view_entries(
            s,
        ).push((e.0@, crate::value::vm_view(e.1))));
    } else {
        assert(s.push(e).drop_first() =~= s.drop_first().push(e));
        lemma_vm_view_entries_push(s.drop_first(), e);
        assert(crate::value::vm_view_entries(s.push(e)) =~= crate::value::vm_view_entries(
            s,
        ).push((e.0@, crate::value::vm_view(e.1))));
    }
}

proof fn lemma_vm_view_seq_push(s: Seq<ValueModel>, v: ValueModel)
    ensures
        vm_view_seq(s.push(v)) == vm_view_seq(s).push(crate::value::vm_view(v)),
    decreases s,
{
    reveal_with_fuel(vm_view_seq, 3);
    assert(s.push(v)[0] == if s.len() == 0 { v } else { s[0] });
    if s.len() == 0 {
        assert(s.push(v).drop_first() =~= Seq::<ValueModel>::empty());
        assert(vm_view_seq(s.push(v)) =~= vm_view_seq(s).push(crate::value::vm_view(v)));
    } else {
        assert(s.push(v).drop_first() =~= s.drop_first().push(v));
        lemma_vm_view_seq_push(s.drop_first(), v);
        assert(vm_view_seq(s.push(v)) =~= vm_view_seq(s).push(crate::value::vm_view(v)));
    }
}

/// Is this field value omitted from an encoded mapping?
fn is_absent(shape: &Shape, v: &Value) -> (r: bool)
    ensures
        r == absent_field(shape@, v@),
{
    let optish = match shape {
        Shape::Opt(_) => true,
        Shape::OptBoxed(_) => true,
        Shape::OptMany(_) => true,
        _ => false,
    };
    if !optish {
        return false;
    }
    match v {
        Value::Opt(o) => match o {
            None => true,
            Some(_) => false,
        },
        _ => false,
    }
}

/// Encodes one well-formed native value back into a fragment.
#[verifier::loop_isolation(false)]
#[verifier::rlimit(80)]
fn encode_value(cat: &Catalog, shape: &Shape, v: &Value) -> (r: ValueModel)
    requires
        wf_value(cat@, shape@, v@),
    ensures
        r@ == sencode(cat@, shape@, v@),
    decreases v, 1int, shape_size(shape@),
{
    match shape {
        Shape::Int64 => match v {
            Value::Int(i) => ValueModel::Int(*i),
            _ => {
                proof {
                    assert(false);
                }
                ValueModel::Null
            },
        },
        Shape::Int32 => match v {
            Value::Int(i) => ValueModel::Int(*i),
            _ => {
                proof {
                    assert(false);
                }
                ValueModel::Null
            },
        },
        Shape::Float => match v {
            Value::Big(s) => ValueModel::Big(s.clone()),
            _ => {
                proof {
                    assert(false);
                }
                ValueModel::Null
            },
        },
        Shape::Bool => match v {
            Value::Bool(b) => ValueModel::Bool(*b),
            _ => {
                proof {
                    assert(false);
                }
                ValueModel::Null
            },
        },
        Shape::Str => match v {
            Value::Text(s) => ValueModel::Str(s.clone()),
            _ => {
                proof {
                    assert(false);
                }
                ValueModel::Null
            },
        },
        Shape::Choice(table) => match v {
            Value::Choice(i) => ValueModel::Str(table[*i].clone()),
            _ => {
                proof {
                    assert(false);
                }
                ValueModel::Null
            },
        },
        Shape::Rec(id) => match v {
            Value::Rec(rec) => encode_fields(cat, *id, rec),
            _ => {
                proof {
                    assert(false);
                }
                ValueModel::Null
            },
        },
        Shape::Boxed(id) => match v {
            Value::Rec(rec) => encode_fields(cat, *id, rec),
            _ => {
                proof {
                    assert(false);
                }
                ValueModel::Null
            },
        },
        Shape::OptBoxed(id) => match v {
            Value::Opt(o) => match o {
                None => ValueModel::Null,
                Some(b) => match &**b {
                    Value::Rec(rec) => {
                        proof {
                            assert(decreases_to!(*v => *o));
                            assert(decreases_to!(*o => **b));
                        }
                        encode_fields(cat, *id, rec)
                    },
                    _ => {
                        proof {
                            assert(false);
                        }
                        ValueModel::Null
                    },
                },
            },
            _ => {
                proof {
                    assert(false);
                }
                ValueModel::Null
            },
        },
        Shape::Opt(inner) => match v {
            Value::Opt(o) => match o {
                None => ValueModel::Null,
                Some(b) => {
                    proof {
                        assert(decreases_to!(*v => *o));
                        assert(decreases_to!(*o => **b));
                    }
                    encode_value(cat, inner, b)
                },
            },
            _ => {
                proof {
                    assert(false);
                }
                ValueModel::Null
            },
        },
        Shape::Many(inner) => match v {
            Value::Many(vs) => {
                proof {
                    assert(decreases_to!(*v => *vs));
                }
                ValueModel::Arr(encode_list(cat, inner, vs))
            },
            _ => {
                proof {
                    assert(false);
                }
                ValueModel::Null
            },
        },
        Shape::Grid(inner) => match v {
            Value::Many(vs) => {
                proof {
                    assert(decreases_to!(*v => *vs));
                }
                ValueModel::Arr(encode_grid(cat, inner, vs))
            },
            _ => {
                proof {
                    assert(false);
                }
                ValueModel::Null
            },
        },
        Shape::OptMany(inner) => match v {
            Value::Opt(o) => match o {
                None => ValueModel::Null,
                Some(b) => match &**b {
                    Value::Many(vs) => {
                        proof {
                            assert(decreases_to!(*v => *o));
                            assert(decreases_to!(*o => **b));
                            assert(decreases_to!(**b => *vs));
                        }
                        let r = ValueModel::Arr(encode_list(cat, inner, vs));
                        proof {
                            reveal_with_fuel(val_view, 3);
                            assert(r@ == sencode(cat@, shape@, v@));
                        }
                        r
                    },
                    _ => {
                        proof {
                            assert(false);
                        }
                        ValueModel::Null
                    },
                },
            },
            _ => {
                proof {
                    assert(false);
                }
                ValueModel::Null
            },
        },
    }
}

#[verifier::loop_isolation(false)]
fn encode_list(cat: &Catalog, shape: &Shape, vs: &Vec<Value>) -> (r: Vec<ValueModel>)
    requires
        wf_list(cat@, shape@, val_view_seq(vs@)),
    ensures
        vm_view_seq(r@) == sencode_list(cat@, shape@, val_view_seq(vs@)),
    decreases vs, 1int, shape_size(shape@),
{
    let ghost vv = val_view_seq(vs@);
    proof {
        lemma_val_view_seq(vs@);
        assert(vv.skip(0) =~= vv);
    }
    let n = vs.len();
    let mut acc: Vec<ValueModel> = Vec::new();
    let mut i: usize = 0;
    proof {
        assert(vm_view_seq(acc@) =~= Seq::<JsonV>::empty());
    }
    while i < n
        invariant
            i <= n,
            wf_list(cat@, shape@, vv.skip(i as int)),
            sencode_list(cat@, shape@, vv) == vm_view_seq(acc@) + sencode_list(
                cat@,
                shape@,
                vv.skip(i as int),
            ),
        decreases n - i,
    {
        proof {
            assert(decreases_to!(*vs => vs@[i as int]));
            assert(vv.skip(i as int)[0] == vv[i as int]);
            assert(vv.skip(i as int).drop_first() =~= vv.skip(i + 1));
        }
        let e = encode_value(cat, shape, &vs[i]);
        proof {
            lemma_vm_view_seq_push(acc@, e);
            assert(vm_view_seq(acc@).push(e@) + sencode_list(cat@, shape@, vv.skip(i + 1))
                =~= vm_view_seq(acc@) + (seq![e@] + sencode_list(cat@, shape@, vv.skip(i + 1))));
        }
        acc.push(e);
        i = i + 1;
    }
    proof {
        assert(vv.skip(n as int) =~= Seq::<ValueV>::empty());
        assert(vm_view_seq(acc@) + Seq::<JsonV>::empty() =~= vm_view_seq(acc@));
    }
    acc
}

#[verifier::loop_isolation(false)]
fn encode_grid(cat: &Catalog, shape: &Shape, vs: &Vec<Value>) -> (r: Vec<ValueModel>)
    requires
        wf_grid(cat@, shape@, val_view_seq(vs@)),
    ensures
        vm_view_seq(r@) == sencode_grid(cat@, shape@, val_view_seq(vs@)),
    decreases vs, 1int, shape_size(shape@),
{
    let ghost vv = val_view_seq(vs@);
    proof {
        lemma_val_view_seq(vs@);
        assert(vv.skip(0) =~= vv);
    }
    let n = vs.len();
    let mut acc: Vec<ValueModel> = Vec::new();
    let mut i: usize = 0;
    proof {
        assert(vm_view_seq(acc@) =~= Seq::<JsonV>::empty());
    }
    while i < n
        invariant
            i <= n,
            wf_grid(cat@, shape@, vv.skip(i as int)),
            sencode_grid(cat@, shape@, vv) == vm_view_seq(acc@) + sencode_grid(
                cat@,
                shape@,
                vv.skip(i as int),
            ),
        decreases n - i,
    {
        proof {
            assert(decreases_to!(*vs => vs@[i as int]));
            assert(vv.skip(i as int)[0] == vv[i as int]);
            assert(vv.skip(i as int).drop_first() =~= vv.skip(i + 1));
        }
        let e = match &vs[i] {
            Value::Many(row) => {
                proof {
                    assert(decreases_to!(vs@[i as int] => *row));
                }
                ValueModel::Arr(encode_list(cat, shape, row))
            },
            _ => {
                proof {
                    assert(false);
                }
                ValueModel::Null
            },
        };
        proof {
            lemma_vm_view_seq_push(acc@, e);
            assert(vm_view_seq(acc@).push(e@) + sencode_grid(cat@, shape@, vv.skip(i + 1))
                =~= vm_view_seq(acc@) + (seq![e@] + sencode_grid(cat@, shape@, vv.skip(i + 1))));
        }
        acc.push(e);
        i = i + 1;
    }
    proof {
        assert(vv.skip(n as int) =~= Seq::<ValueV>::empty());
        assert(vm_view_seq(acc@) + Seq::<JsonV>::empty() =~= vm_view_seq(acc@));
    }
    acc
}

/// Encodes a whole record as a mapping, fields in schema order, absent
/// optionals omitted.
#[verifier::loop_isolation(false)]
#[verifier::rlimit(60)]
fn encode_fields(cat: &Catalog, id: usize, rec: &Record) -> (r: ValueModel)
    requires
        id < cat@.len(),
        wf_values(cat@, cat@[id as int], rec@),
    ensures
        r@ == JsonV::Obj(sencode_fields(cat@, cat@[id as int], rec@)),
    decreases rec, 0int, 0int,
{
    let schema = cat.schema(id);
    let ghost sv = schema@;
    let ghost fvs = rec@;
    proof {
        lemma_val_view_seq(rec.fields@);
        assert(sv.skip(0) =~= sv);
        assert(fvs.skip(0) =~= fvs);
    }
    let nf = schema.fields.len();
    proof {
        lemma_wf_values_len(cat@, sv, fvs);
    }
    let mut acc: Vec<(String, ValueModel)> = Vec::new();
    let mut k: usize = 0;
    proof {
        assert(crate::value::vm_view_entries(acc@) =~= Seq::<(Seq<char>, JsonV)>::empty());
    }
    while k < nf
        invariant
            k <= nf,
            nf == schema.fields@.len(),
            nf == rec.fields@.len(),
            wf_values(cat@, sv.skip(k as int), fvs.skip(k as int)),
            sencode_fields(cat@, sv, fvs) == crate::value::vm_view_entries(acc@)
                + sencode_fields(cat@, sv.skip(k as int), fvs.skip(k as int)),
        decreases nf - k,
    {
        let field = &schema.fields[k];
        proof {
            assert(sv[k as int] == schema.fields@[k as int]@);
            assert(sv.skip(k as int)[0] == sv[k as int]);
            assert(fvs.skip(k as int)[0] == fvs[k as int]);
            assert(fvs[k as int] == val_view(rec.fields@[k as int]));
            assert(sv.skip(k as int).drop_first() =~= sv.skip(k + 1));
            assert(fvs.skip(k as int).drop_first() =~= fvs.skip(k + 1));
            assert(decreases_to!(*rec => rec.fields@[k as int]));
        }
        let val = &rec.fields[k];
        if is_absent(&field.shape, val) {
            proof {
                assert(crate::value::vm_view_entries(acc@) + (Seq::<
                    (Seq<char>, JsonV),
                >::empty() + sencode_fields(cat@, sv.skip(k + 1), fvs.skip(k + 1)))
                    =~= crate::value::vm_view_entries(acc@) + sencode_fields(
                    cat@,
                    sv.skip(k + 1),
                    fvs.skip(k + 1),
                ));
            }
        } else {
            let e = encode_value(cat, &field.shape, val);
            let entry = (field.key.clone(), e);
            proof {
                lemma_vm_view_entries_push(acc@, entry);
                assert(crate::value::vm_view_entries(acc@).push((field.key@, e@))
                    + sencode_fields(cat@, sv.skip(k + 1), fvs.skip(k + 1))
                    =~= crate::value::vm_view_entries(acc@) + (seq![
                    (field.key@, e@),
                ] + sencode_fields(cat@, sv.skip(k + 1), fvs.skip(k + 1))));
            }
            acc.push(entry);
        }
        k = k + 1;
    }
    proof {
        assert(sv.skip(nf as int) =~= Seq::<FieldV>::empty());
        assert(fvs.skip(nf as int) =~= Seq::<ValueV>::empty());
        assert(crate::value::vm_view_entries(acc@) + Seq::<(Seq<char>, JsonV)>::empty()
            =~= crate::value::vm_view_entries(acc@));
    }
    ValueModel::Obj(acc)
}

/// Matching schemas and field lists have the same length.
pub proof fn lemma_wf_values_len(cat: Seq<SchemaV>, fields: Seq<FieldV>, fvs: Seq<ValueV>)
    requires
        wf_values(cat, fields, fvs),
    ensures
        fields.len() == fvs.len(),
    decreases fvs,
{
    if fields.len() > 0 && fvs.len() > 0 {
        lemma_wf_values_len(cat, fields.drop_first(), fvs.drop_first());
    }
}

/// Encodes a whole record of the schema at `id`.  Encoding never fails:
/// every record this library hands out is well formed by construction.
pub fn encode(cat: &Catalog, id: usize, rec: &Record) -> (r: ValueModel)
    requires
        wf_record(cat@, id as int, rec@),
    ensures
        r@ == sencode(cat@, ShapeV::Rec(id as int), ValueV::Rec(rec@)),
{
    encode_fields(cat, id, rec)
}


/// The structural default of one shape: canonical zero for scalars, the
/// empty string, the first enum variant, an empty sequence, an absent
/// optional, or a default nested record.
pub open spec fn sdefault_shape(cat: Seq<SchemaV>, bound: int, shape: ShapeV) -> ValueV
    decreases bound, 0int, 0int,
{
    match shape {
        ShapeV::Int64 => ValueV::Int(0),
        ShapeV::Int32 => ValueV::Int(0),
        ShapeV::Float => ValueV::Big(seq!['0']),
        ShapeV::Bool => ValueV::Bool(false),
        ShapeV::Str => ValueV::Text(Seq::empty()),
        ShapeV::Choice(_) => ValueV::Choice(0),
        ShapeV::Rec(id) => if 0 <= id < bound {
            ValueV::Rec(sdefault_schema(cat, id))
        } else {
            arbitrary()
        },
        ShapeV::Boxed(id) => if 0 <= id < bound {
            ValueV::Rec(sdefault_schema(cat, id))
        } else {
            arbitrary()
        },
        ShapeV::OptBoxed(_) => ValueV::Opt(None),
        ShapeV::Opt(_) => ValueV::Opt(None),
        ShapeV::Many(_) => ValueV::Many(Seq::empty()),
        ShapeV::Grid(_) => ValueV::Many(Seq::empty()),
        ShapeV::OptMany(_) => ValueV::Opt(None),
    }
}

/// The all-defaults record of the schema at `id`.
pub open spec fn sdefault_schema(cat: Seq<SchemaV>, id: int) -> Seq<ValueV>
    decreases id, 1int, 0int,
{
    if 0 <= id < cat.len() {
        sdefault_fields(cat, id, cat[id])
    } else {
        arbitrary()
    }
}

pub open spec fn sdefault_fields(cat: Seq<SchemaV>, id: int, fields: Seq<FieldV>) -> Seq<ValueV>
    decreases id, 0int, fields.len(),
{
    if fields.len() == 0 {
        Seq::empty()
    } else {
        seq![sdefault_shape(cat, id, fields[0].shape)] + sdefault_fields(
            cat,
            id,
            fields.drop_first(),
        )
    }
}

#[verifier::loop_isolation(false)]
fn default_shape(cat: &Catalog, bound: usize, shape: &Shape) -> (r: Value)
    requires
        bound <= cat@.len(),
        top_ref_lt(shape@, bound as int),
    ensures
        r@ == sdefault_shape(cat@, bound as int, shape@),
    decreases bound, 0int, 0int,
{
    match shape {
        Shape::Int64 => Value::Int(0),
        Shape::Int32 => Value::Int(0),
        Shape::Float => {
            let s = String::from_str("0");
            proof {
                reveal_strlit("0");
                assert(s@ =~= seq!['0']);
            }
            Value::Big(s)
        },
        Shape::Bool => Value::Bool(false),
        Shape::Str => Value::Text(String::new()),
        Shape::Choice(_) => Value::Choice(0),
        Shape::Rec(id) => Value::Rec(default_of(cat, *id)),
        Shape::Boxed(id) => Value::Rec(default_of(cat, *id)),
        Shape::OptBoxed(_) => Value::Opt(None),
        Shape::Opt(_) => Value::Opt(None),
        Shape::Many(_) => {
            let vs: Vec<Value> = Vec::new();
            proof {
                assert(val_view_seq(vs@) =~= Seq::<ValueV>::empty());
            }
            Value::Many(vs)
        },
        Shape::Grid(_) => {
            let vs: Vec<Value> = Vec::new();
            proof {
                assert(val_view_seq(vs@) =~= Seq::<ValueV>::empty());
            }
            Value::Many(vs)
        },
        Shape::OptMany(_) => Value::Opt(None),
    }
}

/// The all-defaults record of the schema at `id`: every required field
/// holds its shape's canonical zero value, every optional field is
/// absent.
#[verifier::loop_isolation(false)]
pub fn default_of(cat: &Catalog, id: usize) -> (r: Record)
    requires
        id < cat@.len(),
    ensures
        r@ == sdefault_schema(cat@, id as int),
        wf_record(cat@, id as int, r@),
    decreases id, 1int, 0int,
{
    proof {
        use_type_invariant(cat);
        lemma_default_schema_wf(cat@, id as int);
    }
    let schema = cat.schema(id);
    let ghost sv = schema@;
    proof {
        assert(sv.skip(0) =~= sv);
    }
    let nf = schema.fields.len();
    let mut acc: Vec<Value> = Vec::new();
    let mut k: usize = 0;
    proof {
        assert(val_view_seq(acc@) =~= Seq::<ValueV>::empty());
    }
    while k < nf
        invariant
            k <= nf,
            nf == schema.fields@.len(),
            acc@.len() == k,
            sdefault_fields(cat@, id as int, sv) == val_view_seq(acc@) + sdefault_fields(
                cat@,
                id as int,
                sv.skip(k as int),
            ),
        decreases nf - k,
    {
        let field = &schema.fields[k];
        proof {
            assert(sv[k as int] == schema.fields@[k as int]@);
            assert(sv.skip(k as int)[0] == sv[k as int]);
            assert(sv.skip(k as int).drop_first() =~= sv.skip(k + 1));
        }
        let val = default_shape(cat, id, &field.shape);
        proof {
            lemma_val_view_seq_push(acc@, val);
            assert(val_view_seq(acc@).push(val@) + sdefault_fields(
                cat@,
                id as int,
                sv.skip(k + 1),
            ) =~= val_view_seq(acc@) + (seq![val@] + sdefault_fields(
                cat@,
                id as int,
                sv.skip(k + 1),
            )));
        }
        acc.push(val);
        k = k + 1;
    }
    proof {
        assert(sv.skip(nf as int) =~= Seq::<FieldV>::empty());
        assert(val_view_seq(acc@) + Seq::<ValueV>::empty() =~= val_view_seq(acc@));
    }
    Record { fields: acc }
}

/// The debug text of one present field value.
pub open spec fn srender_value(cat: Seq<SchemaV>, shape: ShapeV, v: ValueV) -> Seq<char>
    decreases v, 1int, shape_size(shape),
{
    match shape {
        ShapeV::Int64 => match v {
            ValueV::Int(i) => dec_i64(i),
            _ => arbitrary(),
        },
        ShapeV::Int32 => match v {
            ValueV::Int(i) => dec_i64(i),
            _ => arbitrary(),
        },
        ShapeV::Float => match v {
            ValueV::Big(s) => s,
            _ => arbitrary(),
        },
        ShapeV::Bool => match v {
            ValueV::Bool(b) => if b {
                seq!['t', 'r', 'u', 'e']
            } else {
                seq!['f', 'a', 'l', 's', 'e']
            },
            _ => arbitrary(),
        },
        ShapeV::Str => match v {
            ValueV::Text(s) => s,
            _ => arbitrary(),
        },
        ShapeV::Choice(table) => match v {
            ValueV::Choice(i) => table[i],
            _ => arbitrary(),
        },
        ShapeV::Rec(id) => match v {
            ValueV::Rec(fvs) => if 0 <= id < cat.len() {
                srender_fields(cat, cat[id], fvs)
            } else {
                arbitrary()
            },
            _ => arbitrary(),
        },
        ShapeV::Boxed(id) => match v {
            ValueV::Rec(fvs) => if 0 <= id < cat.len() {
                srender_fields(cat, cat[id], fvs)
            } else {
                arbitrary()
            },
            _ => arbitrary(),
        },
        ShapeV::OptBoxed(id) => match v {
            ValueV::Opt(Some(b)) => match *b {
                ValueV::Rec(fvs) => if 0 <= id < cat.len() {
                    srender_fields(cat, cat[id], fvs)
                } else {
                    arbitrary()
                },
                _ => arbitrary(),
            },
            ValueV::Opt(None) => Seq::empty(),
            _ => arbitrary(),
        },
        ShapeV::Opt(inner) => match v {
            ValueV::Opt(Some(b)) => srender_value(cat, *inner, *b),
            ValueV::Opt(None) => Seq::empty(),
            _ => arbitrary(),
        },
        ShapeV::Many(_) => crate::text::sdump(sencode(cat, shape, v)),
        ShapeV::Grid(_) => crate::text::sdump(sencode(cat, shape, v)),
        ShapeV::OptMany(_) => crate::text::sdump(sencode(cat, shape, v)),
    }
}

/// The rendered pieces of a record, one per present field: the wire key,
/// a colon and space, and the field's text.  Absent optionals are
/// skipped; required fields always render.
pub open spec fn srender_pieces(cat: Seq<SchemaV>, fields: Seq<FieldV>, fvs: Seq<ValueV>) -> Seq<
    Seq<char>,
>
    decreases fvs, 0int, fields.len(),
{
    if fields.len() == 0 || fvs.len() == 0 {
        Seq::empty()
    } else {
        (if absent_field(fields[0].shape, fvs[0]) {
            Seq::empty()
        } else {
            seq![
                fields[0].key + seq![':', ' '] + srender_value(cat, fields[0].shape, fvs[0]),
            ]
        }) + srender_pieces(cat, fields.drop_first(), fvs.drop_first())
    }
}

/// `parts` joined by `sep`.
pub open spec fn sjoin(parts: Seq<Seq<char>>, sep: Seq<char>) -> Seq<char>
    decreases parts,
{
    if parts.len() == 0 {
        Seq::empty()
    } else if parts.len() == 1 {
        parts[0]
    } else {
        parts[0] + sep + sjoin(parts.drop_first(), sep)
    }
}

/// The debug text of a whole record: its present fields' pieces joined
/// by a semicolon and space.
pub open spec fn srender_fields(cat: Seq<SchemaV>, fields: Seq<FieldV>, fvs: Seq<ValueV>) -> Seq<
    char,
>
    decreases fvs, 1int, 0int,
{
    sjoin(srender_pieces(cat, fields, fvs), seq![';', ' '])
}


proof fn lemma_sjoin_push(parts: Seq<Seq<char>>, sep: Seq<char>, p: Seq<char>)
    ensures
        sjoin(parts.push(p), sep) == if parts.len() == 0 {
            p
        } else {
            sjoin(parts, sep) + sep + p
        },
    decreases parts,
{
    reveal_with_fuel(sjoin, 3);
    assert(parts.push(p)[0] == if parts.len() == 0 { p } else { parts[0] });
    if parts.len() == 0 {
        assert(sjoin(parts.push(p), sep) =~= p);
    } else if parts.len() == 1 {
        assert(parts.push(p).drop_first() =~= parts.drop_first().push(p));
        assert(parts.drop_first().push(p) =~= seq![p]);
        assert(sjoin(parts.push(p), sep) =~= sjoin(parts, sep) + sep + p);
    } else {
        assert(parts.push(p).drop_first() =~= parts.drop_first().push(p));
        lemma_sjoin_push(parts.drop_first(), sep, p);
        assert(sjoin(parts.push(p), sep) =~= sjoin(parts, sep) + sep + p);
    }
}

proof fn lemma_pieces_push(
    cat: Seq<SchemaV>,
    fields: Seq<FieldV>,
    fvs: Seq<ValueV>,
    f: FieldV,
    v: ValueV,
)
    requires
        fields.len() == fvs.len(),
    ensures
        srender_pieces(cat, fields.push(f), fvs.push(v)) == srender_pieces(cat, fields, fvs) + (
        if absent_field(f.shape, v) {
            Seq::<Seq<char>>::empty()
        } else {
            seq![f.key + seq![':', ' '] + srender_value(cat, f.shape, v)]
        }),
    decreases fields,
{
    reveal_with_fuel(srender_pieces, 3);
    assert(fields.push(f)[0] == if fields.len() == 0 { f } else { fields[0] });
    assert(fvs.push(v)[0] == if fvs.len() == 0 { v } else { fvs[0] });
    if fields.len() == 0 {
        assert(fields.push(f).drop_first() =~= Seq::<FieldV>::empty());
        assert(fvs.push(v).drop_first() =~= Seq::<ValueV>::empty());
        assert(srender_pieces(cat, fields.push(f), fvs.push(v)) =~= srender_pieces(
            cat,
            fields,
            fvs,
        ) + (if absent_field(f.shape, v) {
            Seq::<Seq<char>>::empty()
        } else {
            seq![f.key + seq![':', ' '] + srender_value(cat, f.shape, v)]
        }));
    } else {
        assert(fields.push(f).drop_first() =~= fields.drop_first().push(f));
        assert(fvs.push(v).drop_first() =~= fvs.drop_first().push(v));
        lemma_pieces_push(cat, fields.drop_first(), fvs.drop_first(), f, v);
        assert(srender_pieces(cat, fields.push(f), fvs.push(v)) =~= srender_pieces(
            cat,
            fields,
            fvs,
        ) + (if absent_field(f.shape, v) {
            Seq::<Seq<char>>::empty()
        } else {
            seq![f.key + seq![':', ' '] + srender_value(cat, f.shape, v)]
        }));
    }
}

/// Renders one present field value as debug text.
#[verifier::loop_isolation(false)]
#[verifier::rlimit(80)]
fn render_value(cat: &Catalog, shape: &Shape, v: &Value) -> (r: String)
    requires
        wf_value(cat@, shape@, v@),
    ensures
        r@ == srender_value(cat@, shape@, v@),
    decreases v, 1int, shape_size(shape@),
{
    match shape {
        Shape::Int64 => match v {
            Value::Int(i) => crate::num::i64_text(*i),
            _ => {
                proof {
                    assert(false);
                }
                String::new()
            },
        },
        Shape::Int32 => match v {
            Value::Int(i) => crate::num::i64_text(*i),
            _ => {
                proof {
                    assert(false);
                }
                String::new()
            },
        },
        Shape::Float => match v {
            Value::Big(s) => s.clone(),
            _ => {
                proof {
                    assert(false);
                }
                String::new()
            },
        },
        Shape::Bool => match v {
            Value::Bool(b) => {
                if *b {
                    let s = String::from_str("true");
                    proof {
                        reveal_strlit("true");
                        assert(s@ =~= seq!['t', 'r', 'u', 'e']);
                    }
                    s
                } else {
                    let s = String::from_str("false");
                    proof {
                        reveal_strlit("false");
                        assert(s@ =~= seq!['f', 'a', 'l', 's', 'e']);
                    }
                    s
                }
            },
            _ => {
                proof {
                    assert(false);
                }
                String::new()
            },
        },
        Shape::Str => match v {
            Value::Text(s) => s.clone(),
            _ => {
                proof {
                    assert(false);
                }
                String::new()
            },
        },
        Shape::Choice(table) => match v {
            Value::Choice(i) => table[*i].clone(),
            _ => {
                proof {
                    assert(false);
                }
                String::new()
            },
        },
        Shape::Rec(id) => match v {
            Value::Rec(rec) => render_fields(cat, *id, rec),
            _ => {
                proof {
                    assert(false);
                }
                String::new()
            },
        },
        Shape::Boxed(id) => match v {
            Value::Rec(rec) => render_fields(cat, *id, rec),
            _ => {
                proof {
                    assert(false);
                }
                String::new()
            },
        },
        Shape::OptBoxed(id) => match v {
            Value::Opt(o) => match o {
                Some(b) => match &**b {
                    Value::Rec(rec) => {
                        proof {
                            assert(decreases_to!(*v => *o));
                            assert(decreases_to!(*o => **b));
                        }
                        render_fields(cat, *id, rec)
                    },
                    _ => {
                        proof {
                            assert(false);
                        }
                        String::new()
                    },
                },
                None => String::new(),
            },
            _ => {
                proof {
                    assert(false);
                }
                String::new()
            },
        },
        Shape::Opt(inner) => match v {
            Value::Opt(o) => match o {
                Some(b) => {
                    proof {
                        assert(decreases_to!(*v => *o));
                        assert(decreases_to!(*o => **b));
                    }
                    render_value(cat, inner, b)
                },
                None => String::new(),
            },
            _ => {
                proof {
                    assert(false);
                }
                String::new()
            },
        },
        Shape::Many(_) => {
            let vm = encode_value(cat, shape, v);
            crate::text::dump(&vm)
        },
        Shape::Grid(_) => {
            let vm = encode_value(cat, shape, v);
            crate::text::dump(&vm)
        },
        Shape::OptMany(_) => {
            let vm = encode_value(cat, shape, v);
            crate::text::dump(&vm)
        },
    }
}

/// Renders a whole record: `key: value` for every present field, joined
/// by semicolons.
#[verifier::loop_isolation(false)]
#[verifier::rlimit(60)]
fn render_fields(cat: &Catalog, id: usize, rec: &Record) -> (r: String)
    requires
        id < cat@.len(),
        wf_values(cat@, cat@[id as int], rec@),
    ensures
        r@ == srender_fields(cat@, cat@[id as int], rec@),
    decreases rec, 0int, 0int,
{
    let schema = cat.schema(id);
    let ghost sv = schema@;
    let ghost fvs = rec@;
    let ghost sep = seq![';', ' '];
    proof {
        lemma_val_view_seq(rec.fields@);
        lemma_wf_values_len(cat@, sv, fvs);
        assert(sv.take(0) =~= Seq::<FieldV>::empty());
        assert(fvs.take(0) =~= Seq::<ValueV>::empty());
    }
    let nf = schema.fields.len();
    let mut out = String::new();
    let mut started = false;
    let mut k: usize = 0;
    while k < nf
        invariant
            k <= nf,
            nf == schema.fields@.len(),
            nf == rec.fields@.len(),
            started == (srender_pieces(cat@, sv.take(k as int), fvs.take(k as int)).len() != 0),
            out@ == sjoin(srender_pieces(cat@, sv.take(k as int), fvs.take(k as int)), sep),
        decreases nf - k,
    {
        let field = &schema.fields[k];
        let val = &rec.fields[k];
        proof {
            assert(sv[k as int] == schema.fields@[k as int]@);
            assert(fvs[k as int] == val_view(rec.fields@[k as int]));
            assert(sv.take(k + 1) =~= sv.take(k as int).push(sv[k as int]));
            assert(fvs.take(k + 1) =~= fvs.take(k as int).push(fvs[k as int]));
            lemma_pieces_push(
                cat@,
                sv.take(k as int),
                fvs.take(k as int),
                sv[k as int],
                fvs[k as int],
            );
            assert(decreases_to!(*rec => rec.fields@[k as int]));
            lemma_wf_values_index(cat@, sv, fvs, k as int);
        }
        if !is_absent(&field.shape, val) {
            if started {
                out.append("; ");
                proof {
                    reveal_strlit("; ");
                    assert("; "@ =~= sep);
                }
            }
            out.append(field.key.as_str());
            out.append(": ");
            let piece = render_value(cat, &field.shape, val);
            out.append(piece.as_str());
            proof {
                reveal_strlit(": ");
                assert(": "@ =~= seq![':', ' ']);
                let parts = srender_pieces(cat@, sv.take(k as int), fvs.take(k as int));
                let p = sv[k as int].key + seq![':', ' '] + srender_value(
                    cat@,
                    sv[k as int].shape,
                    fvs[k as int],
                );
                lemma_sjoin_push(parts, sep, p);
                assert(srender_pieces(cat@, sv.take(k + 1), fvs.take(k + 1)) =~= parts.push(p));
                assert(out@ =~= sjoin(parts.push(p), sep));
            }
            started = true;
        } else {
            proof {
                assert(srender_pieces(cat@, sv.take(k + 1), fvs.take(k + 1)) =~= srender_pieces(
                    cat@,
                    sv.take(k as int),
                    fvs.take(k as int),
                ));
            }
        }
        k = k + 1;
    }
    proof {
        assert(sv.take(nf as int) =~= sv);
        assert(fvs.take(nf as int) =~= fvs);
    }
    out
}

/// Pointwise well-formedness of matching schema and value lists.
pub proof fn lemma_wf_values_index(
    cat: Seq<SchemaV>,
    fields: Seq<FieldV>,
    fvs: Seq<ValueV>,
    i: int,
)
    requires
        wf_values(cat, fields, fvs),
        0 <= i < fields.len(),
    ensures
        wf_value(cat, fields[i].shape, fvs[i]),
    decreases i,
{
    lemma_wf_values_len(cat, fields, fvs);
    if i > 0 {
        lemma_wf_values_index(cat, fields.drop_first(), fvs.drop_first(), i - 1);
    }
}

/// Renders a whole record of the schema at `id` for debugging: a join
/// of `key: value` over its present fields, separated by `"; "`.
pub fn render(cat: &Catalog, id: usize, rec: &Record) -> (r: String)
    requires
        wf_record(cat@, id as int, rec@),
    ensures
        r@ == srender_fields(cat@, cat@[id as int], rec@),
{
    render_fields(cat, id, rec)
}


impl Value {
    /// An independent deep copy, field for field.
    pub fn duplicate(&self) -> (r: Value)
        ensures
            r@ == self@,
        decreases self,
    {
        match self {
            Value::Int(i) => Value::Int(*i),
            Value::Big(s) => Value::Big(s.clone()),
            Value::Bool(b) => Value::Bool(*b),
            Value::Text(s) => Value::Text(s.clone()),
            Value::Choice(i) => Value::Choice(*i),
            Value::Rec(rec) => Value::Rec(rec.duplicate()),
            Value::Opt(o) => match o {
                None => Value::Opt(None),
                Some(b) => {
                    proof {
                        assert(decreases_to!(*self => *o));
                        assert(decreases_to!(*o => **b));
                    }
                    Value::Opt(Some(Box::new((**b).duplicate())))
                },
            },
            Value::Many(vs) => {
                proof {
                    assert(decreases_to!(*self => *vs));
                }
                Value::Many(dup_values(vs))
            },
        }
    }
}

fn dup_values(vs: &Vec<Value>) -> (r: Vec<Value>)
    ensures
        val_view_seq(r@) == val_view_seq(vs@),
        r@.len() == vs@.len(),
    decreases vs,
{
    proof {
        lemma_val_view_seq(vs@);
    }
    let n = vs.len();
    let mut acc: Vec<Value> = Vec::new();
    let mut i: usize = 0;
    while i < n
        invariant
            i <= n,
            n == vs@.len(),
            acc@.len() == i,
            forall|k: int|
                0 <= k < i ==> val_view(#[trigger] acc@[k]) == val_view(vs@[k]),
        decreases n - i,
    {
        proof {
            assert(decreases_to!(*vs => vs@[i as int]));
        }
        let d = vs[i].duplicate();
        acc.push(d);
        i = i + 1;
    }
    proof {
        lemma_val_view_seq(acc@);
        assert(val_view_seq(acc@) =~= val_view_seq(vs@));
    }
    acc
}

impl Record {
    /// An independent deep copy of a whole record.
    pub fn duplicate(&self) -> (r: Record)
        ensures
            r@ == self@,
        decreases self,
    {
        proof {
            assert(decreases_to!(*self => self.fields));
        }
        Record { fields: dup_values(&self.fields) }
    }
}


/// Tests whether a value fits a shape, exactly as [`wf_value`] says.
#[verifier::loop_isolation(false)]
#[verifier::rlimit(60)]
pub fn check_value(cat: &Catalog, shape: &Shape, v: &Value) -> (r: bool)
    ensures
        r == wf_value(cat@, shape@, v@),
    decreases v, 1int, shape_size(shape@),
{
    match shape {
        Shape::Int64 => matches!(v, Value::Int(_)),
        Shape::Int32 => match v {
            Value::Int(i) => -0x8000_0000i64 <= *i && *i < 0x8000_0000i64,
            _ => false,
        },
        Shape::Float => matches!(v, Value::Big(_)),
        Shape::Bool => matches!(v, Value::Bool(_)),
        Shape::Str => matches!(v, Value::Text(_)),
        Shape::Choice(table) => match v {
            Value::Choice(i) => *i < table.len(),
            _ => false,
        },
        Shape::Rec(id) => match v {
            Value::Rec(rec) => *id < cat.len() && check_values(cat, *id, rec),
            _ => false,
        },
        Shape::Boxed(id) => match v {
            Value::Rec(rec) => *id < cat.len() && check_values(cat, *id, rec),
            _ => false,
        },
        Shape::OptBoxed(id) => match v {
            Value::Opt(o) => match o {
                None => true,
                Some(b) => match &**b {
                    Value::Rec(rec) => {
                        proof {
                            assert(decreases_to!(*v => *o));
                            assert(decreases_to!(*o => **b));
                        }
                        *id < cat.len() && check_values(cat, *id, rec)
                    },
                    _ => false,
                },
            },
            _ => false,
        },
        Shape::Opt(inner) => match v {
            Value::Opt(o) => match o {
                None => true,
                Some(b) => {
                    proof {
                        assert(decreases_to!(*v => *o));
                        assert(decreases_to!(*o => **b));
                    }
                    check_value(cat, inner, b)
                },
            },
            _ => false,
        },
        Shape::Many(inner) => match v {
            Value::Many(vs) => {
                proof {
                    assert(decreases_to!(*v => *vs));
                }
                check_list(cat, inner, vs)
            },
            _ => false,
        },
        Shape::Grid(inner) => match v {
            Value::Many(vs) => {
                proof {
                    assert(decreases_to!(*v => *vs));
                }
                check_grid(cat, inner, vs)
            },
            _ => false,
        },
        Shape::OptMany(inner) => match v {
            Value::Opt(o) => match o {
                None => true,
                Some(b) => match &**b {
                    Value::Many(vs) => {
                        proof {
                            assert(decreases_to!(*v => *o));
                            assert(decreases_to!(*o => **b));
                            assert(decreases_to!(**b => *vs));
                        }
                        check_list(cat, inner, vs)
                    },
                    _ => false,
                },
            },
            _ => false,
        },
    }
}

#[verifier::loop_isolation(false)]
fn check_list(cat: &Catalog, shape: &Shape, vs: &Vec<Value>) -> (r: bool)
    ensures
        r == wf_list(cat@, shape@, val_view_seq(vs@)),
    decreases vs, 1int, shape_size(shape@),
{
    let ghost vv = val_view_seq(vs@);
    proof {
        lemma_val_view_seq(vs@);
        assert(vv.skip(0) =~= vv);
    }
    let n = vs.len();
    let mut i: usize = 0;
    while i < n
        invariant
            i <= n,
            wf_list(cat@, shape@, vv) == wf_list(cat@, shape@, vv.skip(i as int)),
        decreases n - i,
    {
        proof {
            assert(decreases_to!(*vs => vs@[i as int]));
            assert(vv.skip(i as int)[0] == vv[i as int]);
            assert(vv.skip(i as int).drop_first() =~= vv.skip(i + 1));
        }
        if !check_value(cat, shape, &vs[i]) {
            return false;
        }
        i = i + 1;
    }
    proof {
        assert(vv.skip(n as int) =~= Seq::<ValueV>::empty());
    }
    true
}

#[verifier::loop_isolation(false)]
fn check_grid(cat: &Catalog, shape: &Shape, vs: &Vec<Value>) -> (r: bool)
    ensures
        r == wf_grid(cat@, shape@, val_view_seq(vs@)),
    decreases vs, 1int, shape_size(shape@),
{
    let ghost vv = val_view_seq(vs@);
    proof {
        lemma_val_view_seq(vs@);
        assert(vv.skip(0) =~= vv);
    }
    let n = vs.len();
    let mut i: usize = 0;
    while i < n
        invariant
            i <= n,
            wf_grid(cat@, shape@, vv) == wf_grid(cat@, shape@, vv.skip(i as int)),
        decreases n - i,
    {
        proof {
            assert(vv.skip(i as int)[0] == vv[i as int]);
            assert(vv.skip(i as int).drop_first() =~= vv.skip(i + 1));
        }
        match &vs[i] {
            Value::Many(row) => {
                proof {
                    assert(decreases_to!(*vs => vs@[i as int]));
                    assert(decreases_to!(vs@[i as int] => *row));
                }
                if !check_list(cat, shape, row) {
                    return false;
                }
            },
            _ => {
                return false;
            },
        }
        i = i + 1;
    }
    proof {
        assert(vv.skip(n as int) =~= Seq::<ValueV>::empty());
    }
    true
}

#[verifier::loop_isolation(false)]
fn check_values(cat: &Catalog, id: usize, rec: &Record) -> (r: bool)
    requires
        id < cat@.len(),
    ensures
        r == wf_values(cat@, cat@[id as int], rec@),
    decreases rec, 0int, 0int,
{
    let schema = cat.schema(id);
    let ghost sv = schema@;
    let ghost fvs = rec@;
    proof {
        lemma_val_view_seq(rec.fields@);
        assert(sv.skip(0) =~= sv);
        assert(fvs.skip(0) =~= fvs);
    }
    let nf = schema.fields.len();
    if rec.fields.len() != nf {
        proof {
            lemma_wf_values_skip_len(cat@, sv, fvs);
        }
        return false;
    }
    let mut k: usize = 0;
    while k < nf
        invariant
            k <= nf,
            nf == schema.fields@.len(),
            nf == rec.fields@.len(),
            wf_values(cat@, sv, fvs) == wf_values(cat@, sv.skip(k as int), fvs.skip(k as int)),
        decreases nf - k,
    {
        proof {
            assert(sv[k as int] == schema.fields@[k as int]@);
            assert(sv.skip(k as int)[0] == sv[k as int]);
            assert(fvs.skip(k as int)[0] == fvs[k as int]);
            assert(fvs[k as int] == val_view(rec.fields@[k as int]));
            assert(sv.skip(k as int).drop_first() =~= sv.skip(k + 1));
            assert(fvs.skip(k as int).drop_first() =~= fvs.skip(k + 1));
            assert(decreases_to!(*rec => rec.fields@[k as int]));
        }
        if !check_value(cat, &schema.fields[k].shape, &rec.fields[k]) {
            return false;
        }
        k = k + 1;
    }
    proof {
        assert(sv.skip(nf as int) =~= Seq::<FieldV>::empty());
        assert(fvs.skip(nf as int) =~= Seq::<ValueV>::empty());
    }
    true
}

proof fn lemma_wf_values_skip_len(cat: Seq<SchemaV>, fields: Seq<FieldV>, fvs: Seq<ValueV>)
    requires
        fields.len() != fvs.len(),
    ensures
        !wf_values(cat, fields, fvs),
    decreases fvs,
{
    if fields.len() > 0 && fvs.len() > 0 {
        lemma_wf_values_skip_len(cat, fields.drop_first(), fvs.drop_first());
    }
}

/// Tests whether a record fits the schema at `id`, exactly as
/// [`wf_record`] says; what this accepts, [`encode`] and [`render`]
/// take.
pub fn check_record(cat: &Catalog, id: usize, rec: &Record) -> (r: bool)
    requires
        id < cat@.len(),
    ensures
        r == wf_record(cat@, id as int, rec@),
{
    check_values(cat, id, rec)
}


/// Is every integer of the fragment machine-representable?  Every tree
/// the executable [`ValueModel`] can hold satisfies this.
pub open spec fn jfits(j: JsonV) -> bool
    decreases j,
{
    match j {
        JsonV::Int(i) => -0x8000_0000_0000_0000 <= i < 0x8000_0000_0000_0000,
        JsonV::Arr(elems) => jfits_list(elems),
        JsonV::Obj(entries) => jfits_entries(entries),
        _ => true,
    }
}

pub open spec fn jfits_list(elems: Seq<JsonV>) -> bool
    decreases elems,
{
    if elems.len() == 0 {
        true
    } else {
        jfits(elems[0]) && jfits_list(elems.drop_first())
    }
}

pub open spec fn jfits_entries(entries: Seq<(Seq<char>, JsonV)>) -> bool
    decreases entries,
{
    if entries.len() == 0 {
        true
    } else {
        jfits(entries[0].1) && jfits_entries(entries.drop_first())
    }
}

pub proof fn lemma_vm_fits(v: ValueModel)
    ensures
        jfits(v@),
    decreases v,
{
    match v {
        ValueModel::Arr(elems) => {
            lemma_vm_fits_list(elems@);
        },
        ValueModel::Obj(entries) => {
            lemma_vm_fits_entries(entries@);
        },
        _ => {},
    }
}

proof fn lemma_vm_fits_list(elems: Seq<ValueModel>)
    ensures
        jfits_list(vm_view_seq(elems)),
    decreases elems,
{
    if elems.len() > 0 {
        lemma_vm_fits(elems[0]);
        lemma_vm_fits_list(elems.drop_first());
        assert(vm_view_seq(elems)[0] == crate::value::vm_view(elems[0]));
        assert(vm_view_seq(elems).drop_first() =~= vm_view_seq(elems.drop_first()));
    }
}

proof fn lemma_vm_fits_entries(entries: Seq<(String, ValueModel)>)
    ensures
        jfits_entries(crate::value::vm_view_entries(entries)),
    decreases entries,
{
    if entries.len() > 0 {
        lemma_vm_fits(entries[0].1);
        lemma_vm_fits_entries(entries.drop_first());
        assert(crate::value::vm_view_entries(entries)[0] == (
            entries[0].0@,
            crate::value::vm_view(entries[0].1),
        ));
        assert(crate::value::vm_view_entries(entries).drop_first()
            =~= crate::value::vm_view_entries(entries.drop_first()));
    }
}

proof fn lemma_first_index_range(table: Seq<Seq<char>>, s: Seq<char>)
    ensures
        first_index(table, s) < table.len(),
        first_index(table, s) >= 0 ==> table[first_index(table, s)] == s,
    decreases table,
{
    if table.len() > 0 && table[0] != s {
        lemma_first_index_range(table.drop_first(), s);
    }
}

proof fn lemma_jlookup_fits(entries: Seq<(Seq<char>, JsonV)>, key: Seq<char>)
    requires
        jfits_entries(entries),
    ensures
        match jlookup(entries, key) {
            Some(j) => jfits(j),
            None => true,
        },
    decreases entries,
{
    if entries.len() > 0 && entries[0].0 != key {
        lemma_jlookup_fits(entries.drop_first(), key);
    }
}

/// Whatever a decode accepts is well formed: every record the codec
/// hands out may be encoded and rendered.
pub proof fn lemma_decode_wf(cat: Seq<SchemaV>, shape: ShapeV, j: JsonV)
    requires
        wf_catalog(cat),
        wf_shape(cat.len() as int, shape),
        jfits(j),
    ensures
        match sdecode(cat, shape, j) {
            Ok(v) => wf_value(cat, shape, v),
            Err(_) => true,
        },
    decreases j, 1int, shape_size(shape),
{
    match shape {
        ShapeV::Choice(table) => {
            match j {
                JsonV::Str(s) => {
                    lemma_first_index_range(table, s);
                },
                _ => {},
            }
        },
        ShapeV::Rec(id) => {
            match j {
                JsonV::Obj(entries) => {
                    if 0 <= id < cat.len() {
                        assert(wf_schema(cat.len() as int, id, cat[id]));
                        lemma_decode_fields_wf(cat, cat[id], entries);
                    }
                },
                _ => {},
            }
        },
        ShapeV::Boxed(id) => {
            match j {
                JsonV::Obj(entries) => {
                    if 0 <= id < cat.len() {
                        assert(wf_schema(cat.len() as int, id, cat[id]));
                        lemma_decode_fields_wf(cat, cat[id], entries);
                    }
                },
                _ => {},
            }
        },
        ShapeV::OptBoxed(id) => {
            match j {
                JsonV::Obj(entries) => {
                    if 0 <= id < cat.len() {
                        assert(wf_schema(cat.len() as int, id, cat[id]));
                        lemma_decode_fields_wf(cat, cat[id], entries);
                    }
                },
                _ => {},
            }
        },
        ShapeV::Opt(inner) => {
            match j {
                JsonV::Null => {},
                _ => {
                    lemma_decode_wf(cat, *inner, j);
                },
            }
        },
        ShapeV::Many(inner) => {
            match j {
                JsonV::Arr(elems) => {
                    lemma_decode_list_wf(cat, *inner, elems);
                },
                _ => {
                    assert(wf_list(cat, *inner, Seq::<ValueV>::empty()));
                },
            }
        },
        ShapeV::Grid(inner) => {
            match j {
                JsonV::Arr(elems) => {
                    lemma_decode_grid_wf(cat, *inner, elems);
                },
                _ => {
                    assert(wf_grid(cat, *inner, Seq::<ValueV>::empty()));
                },
            }
        },
        ShapeV::OptMany(inner) => {
            match j {
                JsonV::Arr(elems) => {
                    lemma_decode_list_wf(cat, *inner, elems);
                },
                _ => {},
            }
        },
        _ => {},
    }
}

proof fn lemma_decode_list_wf(cat: Seq<SchemaV>, shape: ShapeV, elems: Seq<JsonV>)
    requires
        wf_catalog(cat),
        wf_shape(cat.len() as int, shape),
        jfits_list(elems),
    ensures
        match sdecode_list(cat, shape, elems) {
            Ok(vs) => wf_list(cat, shape, vs),
            Err(_) => true,
        },
    decreases elems, 1int, shape_size(shape),
{
    if elems.len() > 0 {
        lemma_decode_wf(cat, shape, elems[0]);
        lemma_decode_list_wf(cat, shape, elems.drop_first());
        match sdecode_list(cat, shape, elems) {
            Ok(vs) => {
                let head = sdecode(cat, shape, elems[0])->Ok_0;
                let tail = sdecode_list(cat, shape, elems.drop_first())->Ok_0;
                assert(vs == seq![head] + tail);
                assert(vs[0] == head);
                assert(vs.drop_first() =~= tail);
            },
            Err(_) => {},
        }
    }
}

proof fn lemma_decode_grid_wf(cat: Seq<SchemaV>, shape: ShapeV, elems: Seq<JsonV>)
    requires
        wf_catalog(cat),
        wf_shape(cat.len() as int, shape),
        jfits_list(elems),
    ensures
        match sdecode_grid(cat, shape, elems) {
            Ok(vs) => wf_grid(cat, shape, vs),
            Err(_) => true,
        },
    decreases elems, 1int, shape_size(shape),
{
    if elems.len() > 0 {
        assert(jfits(elems[0]));
        match elems[0] {
            JsonV::Arr(row) => {
                assert(jfits_list(row));
                lemma_decode_list_wf(cat, shape, row);
                lemma_decode_grid_wf(cat, shape, elems.drop_first());
                match sdecode_grid(cat, shape, elems) {
                    Ok(vs) => {
                        let head = ValueV::Many(sdecode_list(cat, shape, row)->Ok_0);
                        let tail = sdecode_grid(cat, shape, elems.drop_first())->Ok_0;
                        assert(vs == seq![head] + tail);
                        assert(vs[0] == head);
                        assert(vs.drop_first() =~= tail);
                    },
                    Err(_) => {},
                }
            },
            _ => {},
        }
    }
}

proof fn lemma_decode_fields_wf(
    cat: Seq<SchemaV>,
    fields: Seq<FieldV>,
    entries: Seq<(Seq<char>, JsonV)>,
)
    requires
        wf_catalog(cat),
        forall|i: int|
            0 <= i < fields.len() ==> wf_shape(cat.len() as int, #[trigger] fields[i].shape),
        jfits_entries(entries),
    ensures
        match sdecode_fields(cat, fields, entries) {
            Ok(vs) => wf_values(cat, fields, vs),
            Err(_) => true,
        },
    decreases entries, 0int, fields.len(),
{
    if fields.len() > 0 {
        let f0 = fields[0];
        lemma_jlookup_fits(entries, f0.key);
        match jlookup(entries, f0.key) {
            Some(j) => {
                lemma_jlookup_decreases(entries, f0.key);
                lemma_decode_wf(cat, f0.shape, j);
            },
            None => {},
        }
        assert(forall|i: int|
            0 <= i < fields.drop_first().len() ==> #[trigger] fields.drop_first()[i].shape
                == fields[i + 1].shape);
        lemma_decode_fields_wf(cat, fields.drop_first(), entries);
        match sdecode_fields(cat, fields, entries) {
            Ok(vs) => {
                let head = sdecode_field(cat, f0, entries)->Ok_0;
                let tail = sdecode_fields(cat, fields.drop_first(), entries)->Ok_0;
                assert(vs == seq![head] + tail);
                assert(vs[0] == head);
                assert(vs.drop_first() =~= tail);
                // an absent optional decodes to a well-formed "no value"
                match jlookup(entries, f0.key) {
                    Some(_) => {},
                    None => {
                        match f0.shape {
                            ShapeV::Many(inner) => {
                                assert(wf_list(cat, *inner, Seq::<ValueV>::empty()));
                            },
                            ShapeV::Grid(inner) => {
                                assert(wf_grid(cat, *inner, Seq::<ValueV>::empty()));
                            },
                            _ => {},
                        }
                        assert(wf_value(cat, f0.shape, head));
                    },
                }
            },
            Err(_) => {},
        }
    } else {
        match sdecode_fields(cat, fields, entries) {
            Ok(vs) => {
                assert(vs =~= Seq::<ValueV>::empty());
            },
            Err(_) => {},
        }
    }
}

/// Pointwise well-formedness of a well-formed list's elements.
pub proof fn lemma_wf_list_index(cat: Seq<SchemaV>, shape: ShapeV, vs: Seq<ValueV>, i: int)
    requires
        wf_list(cat, shape, vs),
        0 <= i < vs.len(),
    ensures
        wf_value(cat, shape, vs[i]),
    decreases i,
{
    if i > 0 {
        lemma_wf_list_index(cat, shape, vs.drop_first(), i - 1);
    }
}

/// The structural default of any shape is well formed.
pub proof fn lemma_default_wf(cat: Seq<SchemaV>, bound: int, shape: ShapeV)
    requires
        wf_catalog(cat),
        wf_shape(cat.len() as int, shape),
        top_ref_lt(shape, bound),
        0 <= bound <= cat.len(),
    ensures
        wf_value(cat, shape, sdefault_shape(cat, bound, shape)),
    decreases bound, 0int, 0int,
{
    match shape {
        ShapeV::Rec(id) => {
            lemma_default_schema_wf(cat, id);
        },
        ShapeV::Boxed(id) => {
            lemma_default_schema_wf(cat, id);
        },
        ShapeV::Many(inner) => {
            assert(wf_list(cat, *inner, Seq::<ValueV>::empty()));
        },
        ShapeV::Grid(inner) => {
            assert(wf_grid(cat, *inner, Seq::<ValueV>::empty()));
        },
        ShapeV::Str => {
            assert(sdefault_shape(cat, bound, shape) == ValueV::Text(Seq::<char>::empty()));
        },
        _ => {},
    }
}

/// The all-defaults record of any schema is well formed.
pub proof fn lemma_default_schema_wf(cat: Seq<SchemaV>, id: int)
    requires
        wf_catalog(cat),
        0 <= id < cat.len(),
    ensures
        wf_values(cat, cat[id], sdefault_schema(cat, id)),
    decreases id, 1int, 0int,
{
    assert(wf_schema(cat.len() as int, id, cat[id]));
    lemma_default_fields_wf(cat, id, cat[id]);
}

proof fn lemma_default_fields_wf(cat: Seq<SchemaV>, id: int, fields: Seq<FieldV>)
    requires
        wf_catalog(cat),
        0 <= id <= cat.len(),
        forall|i: int|
            0 <= i < fields.len() ==> wf_shape(cat.len() as int, #[trigger] fields[i].shape),
        forall|i: int| 0 <= i < fields.len() ==> top_ref_lt(#[trigger] fields[i].shape, id),
    ensures
        wf_values(cat, fields, sdefault_fields(cat, id, fields)),
    decreases id, 0int, fields.len(),
{
    if fields.len() > 0 {
        lemma_default_wf(cat, id, fields[0].shape);
        assert(forall|i: int|
            0 <= i < fields.drop_first().len() ==> #[trigger] fields.drop_first()[i].shape
                == fields[i + 1].shape);
        lemma_default_fields_wf(cat, id, fields.drop_first());
        let vs = sdefault_fields(cat, id, fields);
        let head = sdefault_shape(cat, id, fields[0].shape);
        let tail = sdefault_fields(cat, id, fields.drop_first());
        assert(vs == seq![head] + tail);
        assert(vs[0] == head);
        assert(vs.drop_first() =~= tail);
    } else {
        assert(sdefault_fields(cat, id, fields) =~= Seq::<ValueV>::empty());
    }
}

} // verus!







