//! The round-trip guarantees of the codec.
//!
//! The central theorem: decoding the encoding of any well-formed record
//! gives back exactly that record, and therefore any fragment that a
//! correct encoding could have produced survives a decode/encode round
//! trip byte for byte.

use vstd::prelude::*;
use crate::codec::ValueV;
use crate::codec::ErrV;
use crate::codec::sdecode;
use crate::codec::sdecode_absent;
use crate::codec::sdecode_list;
use crate::codec::sdecode_grid;
use crate::codec::sdecode_field;
use crate::codec::sdecode_fields;
use crate::codec::sencode;
use crate::codec::sencode_list;
use crate::codec::sencode_grid;
use crate::codec::sencode_fields;
use crate::codec::absent_field;
use crate::codec::wf_value;
use crate::codec::wf_list;
use crate::codec::wf_grid;
use crate::codec::wf_values;
use crate::codec::wf_record;
use crate::codec::lemma_first_index_found;
use crate::codec::lemma_wf_values_len;
use crate::shape::FieldV;
use crate::shape::SchemaV;
use crate::shape::ShapeV;
use crate::shape::opt_like;
use crate::shape::wf_shape;
use crate::shape::wf_schema;
use crate::shape::wf_catalog;
use crate::value::JsonV;
use crate::value::jlookup;

verus! {

/// No key of `extra` is a wire key of `fields`.
pub open spec fn keys_disjoint(extra: Seq<(Seq<char>, JsonV)>, fields: Seq<FieldV>) -> bool {
    forall|i: int, j: int|
        0 <= i < extra.len() && 0 <= j < fields.len() ==> #[trigger] extra[i].0
            != #[trigger] fields[j].key
}

proof fn lemma_jlookup_prepend(extra: Seq<(Seq<char>, JsonV)>, rest: Seq<(Seq<char>, JsonV)>, k: Seq<char>)
    requires
        forall|i: int| 0 <= i < extra.len() ==> #[trigger] extra[i].0 != k,
    ensures
        jlookup(extra + rest, k) == jlookup(rest, k),
    decreases extra,
{
    if extra.len() == 0 {
        assert(extra + rest =~= rest);
    } else {
        assert((extra + rest)[0] == extra[0]);
        assert((extra + rest).drop_first() =~= extra.drop_first() + rest);
        assert(forall|i: int|
            0 <= i < extra.drop_first().len() ==> #[trigger] extra.drop_first()[i].0
                == extra[i + 1].0);
        lemma_jlookup_prepend(extra.drop_first(), rest, k);
    }
}

/// A key that is no wire key of the schema never appears in an encoded
/// mapping: an encode emits schema keys only, and an absent optional is
/// omitted entirely rather than emitted under its key.
pub proof fn lemma_encoded_keys_none(
    cat: Seq<SchemaV>,
    fields: Seq<FieldV>,
    fvs: Seq<ValueV>,
    k: Seq<char>,
)
    requires
        forall|j: int| 0 <= j < fields.len() ==> #[trigger] fields[j].key != k,
    ensures
        jlookup(sencode_fields(cat, fields, fvs), k) == None::<JsonV>,
    decreases fields,
{
    if fields.len() == 0 || fvs.len() == 0 {
    } else {
        assert(forall|j: int|
            0 <= j < fields.drop_first().len() ==> #[trigger] fields.drop_first()[j].key
                == fields[j + 1].key);
        lemma_encoded_keys_none(cat, fields.drop_first(), fvs.drop_first(), k);
        let head = if absent_field(fields[0].shape, fvs[0]) {
            Seq::<(Seq<char>, JsonV)>::empty()
        } else {
            seq![(fields[0].key, sencode(cat, fields[0].shape, fvs[0]))]
        };
        assert(forall|i: int| 0 <= i < head.len() ==> #[trigger] head[i].0 != k);
        lemma_jlookup_prepend(head, sencode_fields(cat, fields.drop_first(), fvs.drop_first()), k);
    }
}

/// The encoding of a present well-formed value is never JSON null, so
/// re-decoding an optional field cannot mistake it for "no value".
proof fn lemma_encode_not_null(cat: Seq<SchemaV>, shape: ShapeV, v: ValueV)
    requires
        wf_shape(cat.len() as int, shape),
        wf_value(cat, shape, v),
        !opt_like(shape),
    ensures
        sencode(cat, shape, v) != JsonV::Null,
{
}

proof fn lemma_rt_value(cat: Seq<SchemaV>, shape: ShapeV, v: ValueV)
    requires
        wf_catalog(cat),
        wf_shape(cat.len() as int, shape),
        wf_value(cat, shape, v),
    ensures
        sdecode(cat, shape, sencode(cat, shape, v)) == Ok::<ValueV, ErrV>(v),
    decreases v, 1int, crate::codec::shape_size(shape),
{
    match shape {
        ShapeV::Choice(table) => {
            let i = v->Choice_0;
            assert(forall|k: int| 0 <= k < i ==> table[k] != table[i]);
            lemma_first_index_found(table, table[i], i);
        },
        ShapeV::Rec(id) => {
            let fvs = v->Rec_0;
            assert(wf_schema(cat.len() as int, id, cat[id]));
            lemma_rt_fields(cat, cat[id], fvs, Seq::empty());
            assert(Seq::<(Seq<char>, JsonV)>::empty() + sencode_fields(cat, cat[id], fvs)
                =~= sencode_fields(cat, cat[id], fvs));
        },
        ShapeV::Boxed(id) => {
            let fvs = v->Rec_0;
            assert(wf_schema(cat.len() as int, id, cat[id]));
            lemma_rt_fields(cat, cat[id], fvs, Seq::empty());
            assert(Seq::<(Seq<char>, JsonV)>::empty() + sencode_fields(cat, cat[id], fvs)
                =~= sencode_fields(cat, cat[id], fvs));
        },
        ShapeV::OptBoxed(id) => {
            match v {
                ValueV::Opt(Some(b)) => {
                    let fvs = (*b)->Rec_0;
                    assert(wf_schema(cat.len() as int, id, cat[id]));
                    lemma_rt_fields(cat, cat[id], fvs, Seq::empty());
                    assert(Seq::<(Seq<char>, JsonV)>::empty() + sencode_fields(cat, cat[id], fvs)
                        =~= sencode_fields(cat, cat[id], fvs));
                },
                _ => {},
            }
        },
        ShapeV::Opt(inner) => {
            match v {
                ValueV::Opt(Some(b)) => {
                    lemma_encode_not_null(cat, *inner, *b);
                    lemma_rt_value(cat, *inner, *b);
                },
                _ => {},
            }
        },
        ShapeV::Many(inner) => {
            let vs = v->Many_0;
            lemma_rt_list(cat, *inner, vs);
        },
        ShapeV::Grid(inner) => {
            let vs = v->Many_0;
            lemma_rt_grid(cat, *inner, vs);
        },
        ShapeV::OptMany(inner) => {
            match v {
                ValueV::Opt(Some(b)) => {
                    let vs = (*b)->Many_0;
                    lemma_rt_list(cat, *inner, vs);
                },
                _ => {},
            }
        },
        _ => {},
    }
}

proof fn lemma_rt_list(cat: Seq<SchemaV>, shape: ShapeV, vs: Seq<ValueV>)
    requires
        wf_catalog(cat),
        wf_shape(cat.len() as int, shape),
        wf_list(cat, shape, vs),
    ensures
        sdecode_list(cat, shape, sencode_list(cat, shape, vs)) == Ok::<Seq<ValueV>, ErrV>(vs),
    decreases vs, 1int, crate::codec::shape_size(shape),
{
    if vs.len() == 0 {
        assert(vs =~= Seq::<ValueV>::empty());
        assert(sencode_list(cat, shape, vs) =~= Seq::<JsonV>::empty());
    } else {
        let enc = sencode_list(cat, shape, vs);
        assert(enc[0] == sencode(cat, shape, vs[0]));
        assert(enc.drop_first() =~= sencode_list(cat, shape, vs.drop_first()));
        lemma_rt_value(cat, shape, vs[0]);
        lemma_rt_list(cat, shape, vs.drop_first());
        assert(seq![vs[0]] + vs.drop_first() =~= vs);
    }
}

proof fn lemma_rt_grid(cat: Seq<SchemaV>, shape: ShapeV, vs: Seq<ValueV>)
    requires
        wf_catalog(cat),
        wf_shape(cat.len() as int, shape),
        wf_grid(cat, shape, vs),
    ensures
        sdecode_grid(cat, shape, sencode_grid(cat, shape, vs)) == Ok::<Seq<ValueV>, ErrV>(vs),
    decreases vs, 1int, crate::codec::shape_size(shape),
{
    if vs.len() == 0 {
        assert(vs =~= Seq::<ValueV>::empty());
        assert(sencode_grid(cat, shape, vs) =~= Seq::<JsonV>::empty());
    } else {
        let enc = sencode_grid(cat, shape, vs);
        let row = vs[0]->Many_0;
        assert(enc[0] == JsonV::Arr(sencode_list(cat, shape, row)));
        assert(enc.drop_first() =~= sencode_grid(cat, shape, vs.drop_first()));
        lemma_rt_list(cat, shape, row);
        lemma_rt_grid(cat, shape, vs.drop_first());
        assert(seq![vs[0]] + vs.drop_first() =~= vs);
    }
}

proof fn lemma_rt_fields(
    cat: Seq<SchemaV>,
    fields: Seq<FieldV>,
    fvs: Seq<ValueV>,
    extra: Seq<(Seq<char>, JsonV)>,
)
    requires
        wf_catalog(cat),
        forall|i: int| 0 <= i < fields.len() ==> wf_shape(cat.len() as int, #[trigger] fields[i].shape),
        forall|i: int, j: int| 0 <= i < j < fields.len() ==> fields[i].key != fields[j].key,
        wf_values(cat, fields, fvs),
        keys_disjoint(extra, fields),
    ensures
        sdecode_fields(cat, fields, extra + sencode_fields(cat, fields, fvs)) == Ok::<
            Seq<ValueV>,
            ErrV,
        >(fvs),
    decreases fvs, 0int, fields.len(),
{
    lemma_wf_values_len(cat, fields, fvs);
    let entries = extra + sencode_fields(cat, fields, fvs);
    if fields.len() == 0 {
        assert(fvs =~= Seq::<ValueV>::empty());
    } else {
        let f0 = fields[0];
        let v0 = fvs[0];
        let head = if absent_field(f0.shape, v0) {
            Seq::<(Seq<char>, JsonV)>::empty()
        } else {
            seq![(f0.key, sencode(cat, f0.shape, v0))]
        };
        let enc_tail = sencode_fields(cat, fields.drop_first(), fvs.drop_first());
        assert(sencode_fields(cat, fields, fvs) == head + enc_tail);

        // the head field finds its own entry, or correctly finds none
        assert(forall|i: int| 0 <= i < extra.len() ==> #[trigger] extra[i].0 != f0.key);
        lemma_jlookup_prepend(extra, head + enc_tail, f0.key);
        if absent_field(f0.shape, v0) {
            assert(head + enc_tail =~= enc_tail);
            assert(forall|j: int|
                0 <= j < fields.drop_first().len() ==> #[trigger] fields.drop_first()[j].key
                    == fields[j + 1].key);
            lemma_encoded_keys_none(cat, fields.drop_first(), fvs.drop_first(), f0.key);
            assert(jlookup(entries, f0.key) == None::<JsonV>);
            assert(sdecode_absent(f0.shape) == Ok::<ValueV, ErrV>(v0));
            assert(sdecode_field(cat, f0, entries) == Ok::<ValueV, ErrV>(v0));
        } else {
            assert((head + enc_tail)[0] == (f0.key, sencode(cat, f0.shape, v0)));
            assert(jlookup(head + enc_tail, f0.key) == Some(sencode(cat, f0.shape, v0)));
            assert(jlookup(entries, f0.key) == Some(sencode(cat, f0.shape, v0)));
            lemma_rt_value(cat, f0.shape, v0);
            assert(sdecode_field(cat, f0, entries) == Ok::<ValueV, ErrV>(v0));
        }

        // the remaining fields decode against the same mapping
        let extra2 = extra + head;
        assert(extra2 + enc_tail =~= entries);
        assert(forall|j: int|
            0 <= j < fields.drop_first().len() ==> #[trigger] fields.drop_first()[j].key
                == fields[j + 1].key);
        assert(forall|i: int, j: int|
            0 <= i < extra2.len() && 0 <= j < fields.drop_first().len() ==> #[trigger] extra2[i].0
                != #[trigger] fields.drop_first()[j].key);
        lemma_rt_fields(cat, fields.drop_first(), fvs.drop_first(), extra2);
        assert(sdecode_fields(cat, fields.drop_first(), entries) == Ok::<Seq<ValueV>, ErrV>(
            fvs.drop_first(),
        ));
        assert(seq![v0] + fvs.drop_first() =~= fvs);
    }
}

/// Decoding the encoding of a well-formed record yields that record.
///
/// Together with the exact contracts of [`crate::codec::decode`] and
/// [`crate::codec::encode`] this is the round-trip guarantee of the
/// codec: nothing is lost or reordered between a record and its wire
/// form.
pub proof fn lemma_decode_encode(cat: Seq<SchemaV>, id: int, fvs: Seq<ValueV>)
    requires
        wf_catalog(cat),
        wf_record(cat, id, fvs),
    ensures
        sdecode(cat, ShapeV::Rec(id), sencode(cat, ShapeV::Rec(id), ValueV::Rec(fvs))) == Ok::<
            ValueV,
            ErrV,
        >(ValueV::Rec(fvs)),
{
    lemma_rt_value(cat, ShapeV::Rec(id), ValueV::Rec(fvs));
}

/// Any fragment that a correct encode could have produced survives a
/// decode/encode round trip unchanged: canonical key order, no
/// extraneous null fields, every byte reproduced.
pub proof fn lemma_encode_decode_id(cat: Seq<SchemaV>, id: int, fvs: Seq<ValueV>, j: JsonV)
    requires
        wf_catalog(cat),
        wf_record(cat, id, fvs),
        j == sencode(cat, ShapeV::Rec(id), ValueV::Rec(fvs)),
    ensures
        sdecode(cat, ShapeV::Rec(id), j) matches Ok(v) && sencode(cat, ShapeV::Rec(id), v) == j,
{
    lemma_decode_encode(cat, id, fvs);
}

/// A present `false` is not an absent field: decoding an optional
/// boolean from the fragment `false` yields a present `false`, while an
/// absent or null fragment yields "no value"; on encode a present
/// `false` is re-emitted and an absent value is omitted.
pub proof fn lemma_optional_false_vs_absent(cat: Seq<SchemaV>, inner: ShapeV)
    ensures
        sdecode_absent(ShapeV::Opt(Box::new(inner))) == Ok::<ValueV, ErrV>(ValueV::Opt(None)),
        sdecode(cat, ShapeV::Opt(Box::new(inner)), JsonV::Null) == Ok::<ValueV, ErrV>(
            ValueV::Opt(None),
        ),
        sdecode(cat, ShapeV::Opt(Box::new(ShapeV::Bool)), JsonV::Bool(false)) == Ok::<
            ValueV,
            ErrV,
        >(ValueV::Opt(Some(Box::new(ValueV::Bool(false))))),
        sencode(
            cat,
            ShapeV::Opt(Box::new(ShapeV::Bool)),
            ValueV::Opt(Some(Box::new(ValueV::Bool(false)))),
        ) == JsonV::Bool(false),
        absent_field(ShapeV::Opt(Box::new(inner)), ValueV::Opt(None)),
{
    let ob = ShapeV::Opt(Box::new(ShapeV::Bool));
    assert(ob matches ShapeV::Opt(b) && *b == ShapeV::Bool);
    assert(sdecode(cat, ShapeV::Bool, JsonV::Bool(false)) == Ok::<ValueV, ErrV>(
        ValueV::Bool(false),
    ));
    assert(sencode(cat, ShapeV::Bool, ValueV::Bool(false)) == JsonV::Bool(false));
}


/// A field decodes from its wire key alone: two mappings that agree
/// under every wire key of the schema decode identically, whatever
/// other keys they carry.  Together with [`lemma_encoded_keys_none`]
/// this pins the renamed discriminator field to its wire key `"type"`:
/// neither decode nor encode ever consults an internal field name.
pub proof fn lemma_decode_reads_wire_keys_only(
    cat: Seq<SchemaV>,
    fields: Seq<FieldV>,
    entries1: Seq<(Seq<char>, JsonV)>,
    entries2: Seq<(Seq<char>, JsonV)>,
)
    requires
        forall|i: int|
            0 <= i < fields.len() ==> jlookup(entries1, #[trigger] fields[i].key) == jlookup(
                entries2,
                fields[i].key,
            ),
    ensures
        sdecode_fields(cat, fields, entries1) == sdecode_fields(cat, fields, entries2),
    decreases fields,
{
    if fields.len() > 0 {
        assert(jlookup(entries1, fields[0].key) == jlookup(entries2, fields[0].key));
        assert(sdecode_field(cat, fields[0], entries1) == sdecode_field(cat, fields[0], entries2));
        assert(forall|i: int|
            0 <= i < fields.drop_first().len() ==> #[trigger] fields.drop_first()[i].key
                == fields[i + 1].key);
        lemma_decode_reads_wire_keys_only(cat, fields.drop_first(), entries1, entries2);
    }
}

} // verus!

