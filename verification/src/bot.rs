//! Request construction for the service's remote procedures.
//!
//! A [`Bot`] holds the caller's API key and the long-poll cursor.  Each
//! remote procedure has a builder that turns typed arguments into an
//! [`ApiRequest`]: the procedure's wire name and its query string, every
//! argument percent-encoded in the order the service expects.  The
//! transport layer sends the request and hands the parsed reply to the
//! response readers at the end of this module.

use vstd::prelude::*;
use vstd::string::StrSliceExecFns;
use crate::catalog::BOT_COMMAND;
use crate::catalog::INLINE_KEYBOARD_MARKUP;
use crate::catalog::CHAT_PERMISSIONS;
use crate::catalog::FORCE_REPLY;
use crate::catalog::INPUT_MEDIA;
use crate::catalog::MASK_POSITION;
use crate::catalog::UPDATE;
use crate::catalog::MESSAGE_ENTITY;
use crate::catalog::REPLY_KEYBOARD_MARKUP;
use crate::catalog::REPLY_KEYBOARD_REMOVE;
use crate::codec::DecodeError;
use crate::codec::Record;
use crate::codec::Value;
use crate::codec::ValueV;
use crate::codec::encode;
use crate::codec::sencode;
use crate::codec::sencode_list;
use crate::codec::wf_record;
use crate::codec::wf_values;
use crate::num::dec_i64;
use crate::num::i64_text;
use crate::shape::Catalog;
use crate::shape::SchemaV;
use crate::shape::ShapeV;
use crate::text::sdump;
use crate::text::dump;
use crate::value::JsonV;
use crate::value::ValueModel;
use crate::value::jlookup;
use crate::value::vm_view_seq;
use crate::value::lemma_vm_view_seq;

verus! {

/// What percent-encoding makes of a string.  The encoding depends on
/// the input characters alone.
pub uninterp spec fn url_encoded(s: Seq<char>) -> Seq<char>;

/// Relies on `urlencoding::encode`: percent-encodes every byte except
/// ASCII alphanumerics and `-`, `.`, `_`, `~`.
#[verifier::external_body]
fn url_encode(s: &str) -> (r: String)
    ensures
        r@ == url_encoded(s@),
{
    urlencoding::encode(s).into_owned()
}

/// One `name=value&` piece of a query string, value percent-encoded.
pub open spec fn qpiece(name: Seq<char>, value: Seq<char>) -> Seq<char> {
    name + seq!['='] + url_encoded(value) + seq!['&']
}

/// One `name=value&` piece with the value taken verbatim, as the
/// long-poll procedure sends its cursor and options.
pub open spec fn rpiece(name: Seq<char>, value: Seq<char>) -> Seq<char> {
    name + seq!['='] + value + seq!['&']
}

/// A finished query string: the pieces in order, with the trailing
/// separator removed.
pub open spec fn params_done(s: Seq<char>) -> Seq<char> {
    if s.len() == 0 {
        s
    } else {
        s.drop_last()
    }
}

/// The text form of a boolean argument.
pub open spec fn bool_text(b: bool) -> Seq<char> {
    if b {
        "true"@
    } else {
        "false"@
    }
}

/// The text form of a record argument: its encoded mapping, serialized.
pub open spec fn rec_text(cat: Seq<SchemaV>, id: int, fvs: Seq<ValueV>) -> Seq<char> {
    sdump(sencode(cat, ShapeV::Rec(id), ValueV::Rec(fvs)))
}

/// The text form of a list-of-records argument: the encoded array,
/// serialized.
pub open spec fn recs_text(cat: Seq<SchemaV>, id: int, rs: Seq<Seq<ValueV>>) -> Seq<char> {
    sdump(JsonV::Arr(sencode_list(cat, ShapeV::Rec(id), rs.map_values(|fvs| ValueV::Rec(fvs)))))
}

/// The text form of a list-of-strings argument.
pub open spec fn strs_text(ss: Seq<Seq<char>>) -> Seq<char> {
    sdump(JsonV::Arr(ss.map_values(|s| JsonV::Str(s))))
}

/// The views of a list of records.
pub open spec fn recs_view(rs: Seq<Record>) -> Seq<Seq<ValueV>> {
    rs.map_values(|x: Record| x@)
}

/// Does a decoded batch let the long-poll cursor advance: it is
/// non-empty and its last update's identifier has room to step past.
pub open spec fn batch_advances(vs: Seq<ValueV>) -> bool {
    vs.len() > 0 && (match vs[vs.len() - 1] {
        ValueV::Rec(fvs) => fvs.len() > 0 && (fvs[0] matches ValueV::Int(i) && i
            < 0x7fff_ffff_ffff_ffff),
        _ => false,
    })
}

/// The cursor after a batch that advances: one past the last update's
/// identifier.
pub open spec fn batch_next_offset(vs: Seq<ValueV>) -> int {
    (match vs[vs.len() - 1] {
        ValueV::Rec(fvs) => fvs[0]->Int_0,
        _ => arbitrary(),
    }) + 1
}

/// Every record of the list fits the schema at `id`.
pub open spec fn wf_rec_list(cat: Seq<SchemaV>, id: int, rs: Seq<Seq<ValueV>>) -> bool {
    0 <= id < cat.len() && forall|i: int| 0 <= i < rs.len() ==> wf_values(cat, cat[id], #[trigger] rs[i])
}

fn push_piece(out: &mut String, name: &str, value_text: &str)
    ensures
        final(out)@ == old(out)@ + qpiece(name@, value_text@),
{
    out.append(name);
    out.append("=");
    let enc = url_encode(value_text);
    out.append(enc.as_str());
    out.append("&");
    proof {
        reveal_strlit("=");
        reveal_strlit("&");
        assert("="@ =~= seq!['=']);
        assert("&"@ =~= seq!['&']);
        assert(out@ =~= old(out)@ + qpiece(name@, value_text@));
    }
}

fn push_raw_piece(out: &mut String, name: &str, value_text: &str)
    ensures
        final(out)@ == old(out)@ + rpiece(name@, value_text@),
{
    out.append(name);
    out.append("=");
    out.append(value_text);
    out.append("&");
    proof {
        reveal_strlit("=");
        reveal_strlit("&");
        assert("="@ =~= seq!['=']);
        assert("&"@ =~= seq!['&']);
        assert(out@ =~= old(out)@ + rpiece(name@, value_text@));
    }
}

fn push_i64(out: &mut String, name: &str, x: i64)
    ensures
        final(out)@ == old(out)@ + qpiece(name@, dec_i64(x as int)),
{
    let t = i64_text(x);
    push_piece(out, name, t.as_str());
}

fn push_i32(out: &mut String, name: &str, x: i32)
    ensures
        final(out)@ == old(out)@ + qpiece(name@, dec_i64(x as int)),
{
    let t = i64_text(x as i64);
    push_piece(out, name, t.as_str());
}

fn bool_str(b: bool) -> (r: String)
    ensures
        r@ == bool_text(b),
{
    if b {
        String::from_str("true")
    } else {
        String::from_str("false")
    }
}

fn push_opt_str(out: &mut String, name: &str, o: Option<&str>)
    ensures
        final(out)@ == old(out)@ + (match o {
            Some(v) => qpiece(name@, v@),
            None => Seq::<char>::empty(),
        }),
{
    match o {
        Some(v) => push_piece(out, name, v),
        None => {
            proof {
                assert(old(out)@ + Seq::<char>::empty() =~= old(out)@);
            }
        },
    }
}

fn push_opt_i64(out: &mut String, name: &str, o: Option<i64>)
    ensures
        final(out)@ == old(out)@ + (match o {
            Some(x) => qpiece(name@, dec_i64(x as int)),
            None => Seq::<char>::empty(),
        }),
{
    match o {
        Some(x) => push_i64(out, name, x),
        None => {
            proof {
                assert(old(out)@ + Seq::<char>::empty() =~= old(out)@);
            }
        },
    }
}

fn push_opt_i32(out: &mut String, name: &str, o: Option<i32>)
    ensures
        final(out)@ == old(out)@ + (match o {
            Some(x) => qpiece(name@, dec_i64(x as int)),
            None => Seq::<char>::empty(),
        }),
{
    match o {
        Some(x) => push_i32(out, name, x),
        None => {
            proof {
                assert(old(out)@ + Seq::<char>::empty() =~= old(out)@);
            }
        },
    }
}

fn push_opt_bool(out: &mut String, name: &str, o: Option<bool>)
    ensures
        final(out)@ == old(out)@ + (match o {
            Some(b) => qpiece(name@, bool_text(b)),
            None => Seq::<char>::empty(),
        }),
{
    match o {
        Some(b) => {
            let t = bool_str(b);
            push_piece(out, name, t.as_str());
        },
        None => {
            proof {
                assert(old(out)@ + Seq::<char>::empty() =~= old(out)@);
            }
        },
    }
}

/// The serialized text of one record argument.
fn record_text(cat: &Catalog, id: usize, rec: &Record) -> (r: String)
    requires
        wf_record(cat@, id as int, rec@),
    ensures
        r@ == rec_text(cat@, id as int, rec@),
{
    let vm = encode(cat, id, rec);
    dump(&vm)
}

proof fn lemma_sencode_list_pointwise(cat: Seq<SchemaV>, shape: ShapeV, vs: Seq<ValueV>)
    ensures
        sencode_list(cat, shape, vs).len() == vs.len(),
        forall|i: int|
            0 <= i < vs.len() ==> sencode_list(cat, shape, vs)[i] == sencode(cat, shape, vs[i]),
    decreases vs,
{
    if vs.len() > 0 {
        lemma_sencode_list_pointwise(cat, shape, vs.drop_first());
    }
}

/// The serialized text of a list-of-records argument.
fn records_text(cat: &Catalog, id: usize, rs: &Vec<Record>) -> (r: String)
    requires
        wf_rec_list(cat@, id as int, recs_view(rs@)),
    ensures
        r@ == recs_text(cat@, id as int, recs_view(rs@)),
{
    let ghost mapped = recs_view(rs@).map_values(|fvs| ValueV::Rec(fvs));
    let n = rs.len();
    let mut elems: Vec<ValueModel> = Vec::new();
    let mut i: usize = 0;
    while i < n
        invariant
            i <= n,
            n == rs@.len(),
            mapped == recs_view(rs@).map_values(|fvs| ValueV::Rec(fvs)),
            mapped.len() == n,
            wf_rec_list(cat@, id as int, recs_view(rs@)),
            id < cat@.len(),
            elems@.len() == i,
            forall|k: int|
                0 <= k < i ==> elems@[k]@ == sencode(cat@, ShapeV::Rec(id as int), mapped[k]),
        decreases n - i,
    {
        proof {
            assert(recs_view(rs@)[i as int] == rs@[i as int]@);
            assert(mapped[i as int] == ValueV::Rec(rs@[i as int]@));
        }
        let vm = encode(cat, id, &rs[i]);
        elems.push(vm);
        i = i + 1;
    }
    let arr = ValueModel::Arr(elems);
    proof {
        lemma_vm_view_seq(elems@);
        lemma_sencode_list_pointwise(cat@, ShapeV::Rec(id as int), mapped);
        assert(vm_view_seq(elems@) =~= sencode_list(cat@, ShapeV::Rec(id as int), mapped));
    }
    dump(&arr)
}

/// The serialized text of a list-of-strings argument.
fn strings_text(ss: &Vec<String>) -> (r: String)
    ensures
        r@ == strs_text(ss@.map_values(|x: String| x@)),
{
    let ghost mapped = ss@.map_values(|x: String| x@).map_values(|s| JsonV::Str(s));
    let n = ss.len();
    let mut elems: Vec<ValueModel> = Vec::new();
    let mut i: usize = 0;
    while i < n
        invariant
            i <= n,
            n == ss@.len(),
            mapped == ss@.map_values(|x: String| x@).map_values(|s| JsonV::Str(s)),
            mapped.len() == n,
            elems@.len() == i,
            forall|k: int| 0 <= k < i ==> elems@[k]@ == mapped[k],
        decreases n - i,
    {
        elems.push(ValueModel::Str(ss[i].clone()));
        i = i + 1;
    }
    let arr = ValueModel::Arr(elems);
    proof {
        lemma_vm_view_seq(elems@);
        assert(vm_view_seq(elems@) =~= mapped);
    }
    dump(&arr)
}

fn push_opt_rec(out: &mut String, cat: &Catalog, id: usize, name: &str, o: Option<&Record>)
    requires
        match o {
            Some(rec) => wf_record(cat@, id as int, rec@),
            None => true,
        },
    ensures
        final(out)@ == old(out)@ + (match o {
            Some(rec) => qpiece(name@, rec_text(cat@, id as int, rec@)),
            None => Seq::<char>::empty(),
        }),
{
    match o {
        Some(rec) => {
            let t = record_text(cat, id, rec);
            push_piece(out, name, t.as_str());
        },
        None => {
            proof {
                assert(old(out)@ + Seq::<char>::empty() =~= old(out)@);
            }
        },
    }
}

fn push_opt_recs(out: &mut String, cat: &Catalog, id: usize, name: &str, o: Option<&Vec<Record>>)
    requires
        match o {
            Some(rs) => wf_rec_list(cat@, id as int, recs_view(rs@)),
            None => true,
        },
    ensures
        final(out)@ == old(out)@ + (match o {
            Some(rs) => qpiece(name@, recs_text(cat@, id as int, recs_view(rs@))),
            None => Seq::<char>::empty(),
        }),
{
    match o {
        Some(rs) => {
            let t = records_text(cat, id, rs);
            push_piece(out, name, t.as_str());
        },
        None => {
            proof {
                assert(old(out)@ + Seq::<char>::empty() =~= old(out)@);
            }
        },
    }
}

/// Removes the trailing separator from an accumulated query string.
fn done(s: String) -> (r: String)
    ensures
        r@ == params_done(s@),
{
    let n = s.as_str().unicode_len();
    if n == 0 {
        s
    } else {
        let r = s.as_str().substring_char(0, n - 1).to_owned();
        proof {
            assert(s@.subrange(0, n - 1) =~= s@.drop_last());
        }
        r
    }
}

/// A built request: the wire name of the remote procedure and its
/// finished query string.
#[derive(Debug)]
pub struct ApiRequest {
    pub method: String,
    pub parameters: String,
}

/// Mathematical model of a bot handle.
pub struct BotV {
    pub key: Seq<char>,
    pub offset: int,
}

/// A handle on the remote service: the caller's API key and the
/// long-poll cursor, advanced after each successfully decoded batch.
#[derive(Debug)]
pub struct Bot {
    key: String,
    offset: i64,
}

impl View for Bot {
    type V = BotV;

    closed spec fn view(&self) -> BotV {
        BotV { key: self.key@, offset: self.offset as int }
    }
}

/// Is the reply's discriminator key `"ok"` present and `true`?
pub open spec fn response_is_ok(res: JsonV) -> bool {
    match res {
        JsonV::Obj(entries) => jlookup(entries, "ok"@) == Some(JsonV::Bool(true)),
        _ => false,
    }
}

/// The fragment under `"result"` of a reply whose discriminator is
/// `true`; nothing otherwise.
pub open spec fn response_result(res: JsonV) -> Option<JsonV> {
    match res {
        JsonV::Obj(entries) => if jlookup(entries, "ok"@) == Some(JsonV::Bool(true)) {
            jlookup(entries, "result"@)
        } else {
            None
        },
        _ => None,
    }
}

/// Reads the discriminator of a reply.
pub fn response_ok(res: &ValueModel) -> (r: bool)
    ensures
        r == response_is_ok(res@),
{
    match res.get("ok") {
        Some(v) => match v {
            ValueModel::Bool(b) => *b,
            _ => false,
        },
        None => false,
    }
}

/// Decodes the `"result"` record of a successful reply against the
/// schema at `id`; nothing when the reply is not successful, has no
/// result, or the result does not decode.
pub fn decode_response(cat: &Catalog, id: usize, res: &ValueModel) -> (r: Option<Record>)
    requires
        id < cat@.len(),
    ensures
        match r {
            Some(rec) => (response_result(res@) matches Some(j) && crate::codec::sdecode(
                cat@,
                ShapeV::Rec(id as int),
                j,
            ) == Ok::<ValueV, crate::codec::ErrV>(ValueV::Rec(rec@))) && wf_record(
                cat@,
                id as int,
                rec@,
            ),
            None => match response_result(res@) {
                Some(j) => !(crate::codec::sdecode(cat@, ShapeV::Rec(id as int), j) is Ok),
                None => true,
            },
        },
{
    if !response_ok(res) {
        return None;
    }
    match res.get("result") {
        Some(j) => match crate::codec::decode(cat, id, j) {
            Ok(rec) => Some(rec),
            Err(_) => None,
        },
        None => None,
    }
}

/// Decodes the `"result"` record of a successful reply, surfacing the
/// failure of a result that does not decode: its kind and the path of
/// wire keys to the failing field.  Nothing when the reply is not
/// successful or carries no result fragment.
pub fn read_response(cat: &Catalog, id: usize, res: &ValueModel) -> (r: Option<
    Result<Record, DecodeError>,
>)
    requires
        id < cat@.len(),
    ensures
        match r {
            Some(Ok(rec)) => (response_result(res@) matches Some(j) && crate::codec::sdecode(
                cat@,
                ShapeV::Rec(id as int),
                j,
            ) == Ok::<ValueV, crate::codec::ErrV>(ValueV::Rec(rec@))) && wf_record(
                cat@,
                id as int,
                rec@,
            ),
            Some(Err(e)) => response_result(res@) matches Some(j) && crate::codec::sdecode(
                cat@,
                ShapeV::Rec(id as int),
                j,
            ) == Err::<ValueV, crate::codec::ErrV>(e@),
            None => response_result(res@) is None,
        },
{
    if !response_ok(res) {
        return None;
    }
    match res.get("result") {
        Some(j) => match crate::codec::decode(cat, id, j) {
            Ok(rec) => Some(Ok(rec)),
            Err(e) => Some(Err(e)),
        },
        None => None,
    }
}

/// Reads a boolean `"result"` of a reply: `true` exactly when the reply
/// is successful and its result is the boolean `true`.
pub fn decode_response_bool(res: &ValueModel) -> (r: bool)
    ensures
        r == (response_result(res@) == Some(JsonV::Bool(true))),
{
    if !response_ok(res) {
        return false;
    }
    match res.get("result") {
        Some(v) => match v {
            ValueModel::Bool(b) => *b,
            _ => false,
        },
        None => false,
    }
}

/// Reads an integer `"result"` of a reply, zero when the reply is not
/// successful or the result is no 32-bit integer.
pub fn decode_response_i32(res: &ValueModel) -> (r: i32)
    ensures
        r as int == (match response_result(res@) {
            Some(JsonV::Int(i)) => if -0x8000_0000 <= i < 0x8000_0000 {
                i
            } else {
                0
            },
            _ => 0,
        }),
{
    if !response_ok(res) {
        return 0;
    }
    match res.get("result") {
        Some(v) => match v {
            ValueModel::Int(i) => {
                if -0x8000_0000i64 <= *i && *i < 0x8000_0000i64 {
                    *i as i32
                } else {
                    0
                }
            },
            _ => 0,
        },
        None => 0,
    }
}

/// Reads a string `"result"` of a reply.
pub fn decode_response_string(res: &ValueModel) -> (r: Option<String>)
    ensures
        match r {
            Some(s) => response_result(res@) == Some(JsonV::Str(s@)),
            None => match response_result(res@) {
                Some(j) => !(j is Str),
                None => true,
            },
        },
{
    if !response_ok(res) {
        return None;
    }
    match res.get("result") {
        Some(v) => match v {
            ValueModel::Str(s) => Some(s.clone()),
            _ => None,
        },
        None => None,
    }
}

/// Every element of a decoded array is a record.
pub open spec fn all_recs(vs: Seq<ValueV>) -> bool {
    forall|i: int| 0 <= i < vs.len() ==> #[trigger] vs[i] is Rec
}

/// Decodes an array-of-records `"result"` of a successful reply
/// against the schema at `id`.
#[verifier::loop_isolation(false)]
pub fn decode_response_list(cat: &Catalog, id: usize, res: &ValueModel) -> (r: Option<Vec<Record>>)
    requires
        id < cat@.len(),
    ensures
        match r {
            Some(recs) => (response_result(res@) matches Some(j) && crate::codec::sdecode(
                cat@,
                ShapeV::Many(Box::new(ShapeV::Rec(id as int))),
                j,
            ) == Ok::<ValueV, crate::codec::ErrV>(
                ValueV::Many(recs_view(recs@).map_values(|fvs| ValueV::Rec(fvs))),
            )) && wf_rec_list(cat@, id as int, recs_view(recs@)),
            None => match response_result(res@) {
                Some(j) => match crate::codec::sdecode(
                    cat@,
                    ShapeV::Many(Box::new(ShapeV::Rec(id as int))),
                    j,
                ) {
                    Ok(v) => !(v matches ValueV::Many(vs) && all_recs(vs)),
                    Err(_) => true,
                },
                None => true,
            },
        },
{
    if !response_ok(res) {
        return None;
    }
    let shape = crate::shape::Shape::Many(Box::new(crate::shape::Shape::Rec(id)));
    proof {
        reveal_with_fuel(crate::shape::shape_view, 3);
        assert(shape@ == ShapeV::Many(Box::new(ShapeV::Rec(id as int))));
    }
    match res.get("result") {
        Some(j) => match crate::codec::decode_fragment(cat, &shape, j) {
            Ok(v) => {
                let ghost vv0 = v@;
                match v {
                Value::Many(vs) => {
                    let ghost orig = vs@;
                    let ghost vsv = crate::codec::val_view_seq(orig);
                    proof {
                        crate::codec::lemma_val_view_seq(orig);
                        assert(vv0 == ValueV::Many(vsv));
                    }
                    let n = vs.len();
                    let mut vs = vs;
                    let mut recs: Vec<Record> = Vec::new();
                    let mut i: usize = 0;
                    while i < n
                        invariant
                            i <= n,
                            n == orig.len(),
                            vsv == crate::codec::val_view_seq(orig),
                            vsv.len() == n,
                            forall|k: int|
                                0 <= k < n ==> vsv[k] == crate::codec::val_view(orig[k]),
                            vs@ =~= orig.skip(i as int),
                            recs@.len() == i,
                            forall|k: int|
                                0 <= k < i ==> vsv[k] == ValueV::Rec(#[trigger] recs@[k]@),
                        decreases n - i,
                    {
                        let item = vs.remove(0);
                        proof {
                            assert(orig.skip(i as int)[0] == orig[i as int]);
                            assert(orig.skip(i as int).remove(0) =~= orig.skip(i + 1));
                        }
                        match item {
                            Value::Rec(rec) => {
                                recs.push(rec);
                            },
                            _ => {
                                proof {
                                    assert(!(vsv[i as int] is Rec));
                                }
                                return None;
                            },
                        }
                        i = i + 1;
                    }
                    proof {
                        assert(vsv =~= recs_view(recs@).map_values(|fvs| ValueV::Rec(fvs)));
                        reveal_with_fuel(crate::shape::wf_shape, 3);
                        assert(crate::shape::wf_shape(
                            cat@.len() as int,
                            ShapeV::Many(Box::new(ShapeV::Rec(id as int))),
                        ));
                        assert(crate::codec::wf_value(
                            cat@,
                            ShapeV::Many(Box::new(ShapeV::Rec(id as int))),
                            ValueV::Many(vsv),
                        ));
                        assert forall|k: int| 0 <= k < recs@.len() implies crate::codec::wf_values(
                            cat@,
                            cat@[id as int],
                            #[trigger] recs_view(recs@)[k],
                        ) by {
                            crate::codec::lemma_wf_list_index(
                                cat@,
                                ShapeV::Rec(id as int),
                                vsv,
                                k,
                            );
                            assert(vsv[k] == ValueV::Rec(recs@[k]@));
                        }
                    }
                    Some(recs)
                },
                _ => None,
            }
            },
            Err(_) => None,
        },
        None => None,
    }
}


impl Bot {
    /// A fresh handle holding the caller's API key, with the long-poll
    /// cursor at the start.
    pub fn new(api_key: String) -> (r: Bot)
        ensures
            r@.key == api_key@,
            r@.offset == 0,
    {
        Bot { key: api_key, offset: 0 }
    }

    /// The full URL of a built request: base, key, procedure, query.
    pub fn request_url(&self, req: &ApiRequest) -> (r: String)
        ensures
            r@ == "https://api.telegram.org/bot"@ + self@.key + "/"@ + req.method@ + "?"@
                + req.parameters@,
    {
        let mut out = String::from_str("https://api.telegram.org/bot");
        out.append(self.key.as_str());
        out.append("/");
        out.append(req.method.as_str());
        out.append("?");
        out.append(req.parameters.as_str());
        out
    }

    /// Builds the long-poll request.  Its cursor and options travel
    /// verbatim, exactly as wide as the decimal and array texts are.
    pub fn get_updates(
        &self,
        limit: Option<i32>,
        timeout: Option<i32>,
        allowed_updates: Option<&Vec<String>>,
    ) -> (r: ApiRequest)
        ensures
            r.method@ == "getUpdates"@,
            r.parameters@ == params_done(
                rpiece("offset"@, dec_i64(self@.offset))
                + (match limit { Some(x) => rpiece("limit"@, dec_i64(x as int)), None => Seq::<char>::empty() })
                + (match timeout { Some(x) => rpiece("timeout"@, dec_i64(x as int)), None => Seq::<char>::empty() })
                + (match allowed_updates {
                    Some(ss) => rpiece("allowed_updates"@, strs_text(ss@.map_values(|x: String| x@))),
                    None => Seq::<char>::empty(),
                }),
            ),
    {
        let mut out = String::new();
        let t_off = i64_text(self.offset);
        push_raw_piece(&mut out, "offset", t_off.as_str());
        proof {
            assert(out@ =~= rpiece("offset"@, dec_i64(self@.offset)));
        }
        match limit {
            Some(x) => {
                let t = i64_text(x as i64);
                push_raw_piece(&mut out, "limit", t.as_str());
            },
            None => {
                proof {
                    assert(out@ + Seq::<char>::empty() =~= out@);
                }
            },
        }
        match timeout {
            Some(x) => {
                let t = i64_text(x as i64);
                push_raw_piece(&mut out, "timeout", t.as_str());
            },
            None => {
                proof {
                    assert(out@ + Seq::<char>::empty() =~= out@);
                }
            },
        }
        match allowed_updates {
            Some(ss) => {
                let t = strings_text(ss);
                push_raw_piece(&mut out, "allowed_updates", t.as_str());
            },
            None => {
                proof {
                    assert(out@ + Seq::<char>::empty() =~= out@);
                }
            },
        }
        ApiRequest { method: String::from_str("getUpdates"), parameters: done(out) }
    }

    /// The acknowledgement request that confirms a consumed batch: the
    /// cursor alone.
    pub fn updates_ack(&self) -> (r: ApiRequest)
        ensures
            r.method@ == "getUpdates"@,
            r.parameters@ == rpiece("offset"@, dec_i64(self@.offset)).drop_last(),
    {
        let mut out = String::new();
        let t_off = i64_text(self.offset);
        push_raw_piece(&mut out, "offset", t_off.as_str());
        proof {
            assert(out@ =~= rpiece("offset"@, dec_i64(self@.offset)));
        }
        ApiRequest { method: String::from_str("getUpdates"), parameters: done(out) }
    }

    /// Reads the long-poll reply and takes the cursor step: a reply
    /// whose result decodes to a non-empty batch whose last update has a
    /// machine-representable identifier advances the cursor past it and
    /// is handed back; any other reply leaves the cursor where it was
    /// and yields nothing.
    pub fn ingest_updates(&mut self, cat: &Catalog, res: &ValueModel) -> (r: Option<
        Vec<Record>,
    >)
        requires
            UPDATE < cat@.len(),
        ensures
            final(self)@.key == old(self)@.key,
            match r {
                Some(batch) => {
                    &&& (response_result(res@) matches Some(j) && crate::codec::sdecode(
                        cat@,
                        ShapeV::Many(Box::new(ShapeV::Rec(UPDATE as int))),
                        j,
                    ) == Ok::<ValueV, crate::codec::ErrV>(
                        ValueV::Many(recs_view(batch@).map_values(|fvs| ValueV::Rec(fvs))),
                    ))
                    &&& wf_rec_list(cat@, UPDATE as int, recs_view(batch@))
                    &&& batch_advances(recs_view(batch@).map_values(|fvs| ValueV::Rec(fvs)))
                    &&& final(self)@.offset == batch_next_offset(
                        recs_view(batch@).map_values(|fvs| ValueV::Rec(fvs)),
                    )
                },
                None => final(self)@.offset == old(self)@.offset && (match response_result(
                    res@,
                ) {
                    Some(j) => match crate::codec::sdecode(
                        cat@,
                        ShapeV::Many(Box::new(ShapeV::Rec(UPDATE as int))),
                        j,
                    ) {
                        Ok(v) => !(v matches ValueV::Many(vs) && all_recs(vs)
                            && batch_advances(vs)),
                        Err(_) => true,
                    },
                    None => true,
                }),
            },
    {
        match decode_response_list(cat, UPDATE, res) {
            None => None,
            Some(batch) => {
                let ghost mapped = recs_view(batch@).map_values(|fvs| ValueV::Rec(fvs));
                let n = batch.len();
                if n == 0 {
                    return None;
                }
                let last = &batch[n - 1];
                proof {
                    assert(mapped[n - 1] == ValueV::Rec(batch@[n - 1]@));
                    crate::codec::lemma_val_view_seq(last.fields@);
                }
                if last.fields.len() == 0 {
                    return None;
                }
                match &last.fields[0] {
                    Value::Int(i) => {
                        if *i < 0x7fff_ffff_ffff_ffffi64 {
                            self.advance_cursor(&batch);
                            Some(batch)
                        } else {
                            None
                        }
                    },
                    _ => None,
                }
            },
        }
    }

    /// Moves the long-poll cursor one past the identifier of the last
    /// update of a successfully decoded, non-empty batch.
    pub fn advance_cursor(&mut self, updates: &Vec<Record>)
        requires
            updates@.len() > 0,
            updates@[updates@.len() - 1]@.len() > 0,
            updates@[updates@.len() - 1]@[0] matches ValueV::Int(i) && i
                < 0x7fff_ffff_ffff_ffff,
        ensures
            final(self)@.key == old(self)@.key,
            final(self)@.offset == updates@[updates@.len() - 1]@[0]->Int_0 + 1,
    {
        let last = &updates[updates.len() - 1];
        proof {
            crate::codec::lemma_val_view_seq(last.fields@);
        }
        match &last.fields[0] {
            Value::Int(i) => {
                self.offset = *i + 1;
            },
            _ => {
                proof {
                    assert(false);
                }
            },
        }
    }

    /// Builds the `getMe` request from its typed arguments.
    pub fn get_me(
        &self,
    ) -> (r: ApiRequest)
        ensures
            r.method@ == "getMe"@,
            r.parameters@ == Seq::<char>::empty(),
    {
        ApiRequest { method: String::from_str("getMe"), parameters: String::new() }
    }

    /// Builds the `sendMessage` request from its typed arguments.
    pub fn send_message(
        &self,
        cat: &Catalog,
        chat_id: i64,
        text: &str,
        parse_mode: Option<&str>,
        entities: Option<&Vec<Record>>,
        disable_web_page_preview: Option<bool>,
        disable_notification: Option<bool>,
        reply_to_message_id: Option<i32>,
        allow_sending_without_reply: Option<bool>,
        reply_markup_ikm: Option<&Record>,
        reply_markup_rkm: Option<&Record>,
        reply_markup_rkr: Option<&Record>,
        reply_markup_fr: Option<&Record>,
    ) -> (r: ApiRequest)
        requires
            match entities { Some(rs) => wf_rec_list(cat@, MESSAGE_ENTITY as int, recs_view(rs@)), None => true },
            match reply_markup_ikm { Some(rec) => wf_record(cat@, INLINE_KEYBOARD_MARKUP as int, rec@), None => true },
            match reply_markup_rkm { Some(rec) => wf_record(cat@, REPLY_KEYBOARD_MARKUP as int, rec@), None => true },
            match reply_markup_rkr { Some(rec) => wf_record(cat@, REPLY_KEYBOARD_REMOVE as int, rec@), None => true },
            match reply_markup_fr { Some(rec) => wf_record(cat@, FORCE_REPLY as int, rec@), None => true },
        ensures
            r.method@ == "sendMessage"@,
            r.parameters@ == params_done(
                qpiece("chat_id"@, dec_i64(chat_id as int))
                + qpiece("text"@, text@)
                + (match parse_mode { Some(v) => qpiece("parse_mode"@, v@), None => Seq::<char>::empty() })
                + (match entities { Some(rs) => qpiece("entities"@, recs_text(cat@, MESSAGE_ENTITY as int, recs_view(rs@))), None => Seq::<char>::empty() })
                + (match disable_web_page_preview { Some(b) => qpiece("disable_web_page_preview"@, bool_text(b)), None => Seq::<char>::empty() })
                + (match disable_notification { Some(b) => qpiece("disable_notification"@, bool_text(b)), None => Seq::<char>::empty() })
                + (match reply_to_message_id { Some(x) => qpiece("reply_to_message_id"@, dec_i64(x as int)), None => Seq::<char>::empty() })
                + (match allow_sending_without_reply { Some(b) => qpiece("allow_sending_without_reply"@, bool_text(b)), None => Seq::<char>::empty() })
                + (match reply_markup_ikm { Some(rec) => qpiece("reply_markup"@, rec_text(cat@, INLINE_KEYBOARD_MARKUP as int, rec@)), None => Seq::<char>::empty() })
                + (match reply_markup_rkm { Some(rec) => qpiece("reply_markup"@, rec_text(cat@, REPLY_KEYBOARD_MARKUP as int, rec@)), None => Seq::<char>::empty() })
                + (match reply_markup_rkr { Some(rec) => qpiece("reply_markup"@, rec_text(cat@, REPLY_KEYBOARD_REMOVE as int, rec@)), None => Seq::<char>::empty() })
                + (match reply_markup_fr { Some(rec) => qpiece("reply_markup"@, rec_text(cat@, FORCE_REPLY as int, rec@)), None => Seq::<char>::empty() }),
            ),
    {
        let mut out = String::new();
        push_i64(&mut out, "chat_id", chat_id);
        proof {
            assert(out@ =~= qpiece("chat_id"@, dec_i64(chat_id as int)));
        }
        push_piece(&mut out, "text", text);
        push_opt_str(&mut out, "parse_mode", parse_mode);
        push_opt_recs(&mut out, cat, MESSAGE_ENTITY, "entities", entities);
        push_opt_bool(&mut out, "disable_web_page_preview", disable_web_page_preview);
        push_opt_bool(&mut out, "disable_notification", disable_notification);
        push_opt_i32(&mut out, "reply_to_message_id", reply_to_message_id);
        push_opt_bool(&mut out, "allow_sending_without_reply", allow_sending_without_reply);
        push_opt_rec(&mut out, cat, INLINE_KEYBOARD_MARKUP, "reply_markup", reply_markup_ikm);
        push_opt_rec(&mut out, cat, REPLY_KEYBOARD_MARKUP, "reply_markup", reply_markup_rkm);
        push_opt_rec(&mut out, cat, REPLY_KEYBOARD_REMOVE, "reply_markup", reply_markup_rkr);
        push_opt_rec(&mut out, cat, FORCE_REPLY, "reply_markup", reply_markup_fr);
        ApiRequest { method: String::from_str("sendMessage"), parameters: done(out) }
    }

    /// Builds the `ForwardMessage` request from its typed arguments.
    pub fn forward_message(
        &self,
        chat_id: i64,
        from_chat_id: i64,
        message_id: i32,
        disable_notification: Option<bool>,
    ) -> (r: ApiRequest)
        ensures
            r.method@ == "ForwardMessage"@,
            r.parameters@ == params_done(
                qpiece("chat_id"@, dec_i64(chat_id as int))
                + qpiece("from_chat_id"@, dec_i64(from_chat_id as int))
                + qpiece("message_id"@, dec_i64(message_id as int))
                + (match disable_notification { Some(b) => qpiece("disable_notification"@, bool_text(b)), None => Seq::<char>::empty() }),
            ),
    {
        let mut out = String::new();
        push_i64(&mut out, "chat_id", chat_id);
        proof {
            assert(out@ =~= qpiece("chat_id"@, dec_i64(chat_id as int)));
        }
        push_i64(&mut out, "from_chat_id", from_chat_id);
        push_i32(&mut out, "message_id", message_id);
        push_opt_bool(&mut out, "disable_notification", disable_notification);
        ApiRequest { method: String::from_str("ForwardMessage"), parameters: done(out) }
    }

    /// Builds the `copyMessage` request from its typed arguments.
    pub fn copy_message(
        &self,
        cat: &Catalog,
        chat_id: i64,
        from_chat_id: i64,
        message_id: i32,
        caption: Option<&str>,
        parse_mode: Option<&str>,
        caption_entities: Option<&Vec<Record>>,
        disable_notification: Option<bool>,
        reply_to_message_id: Option<i32>,
        allow_sending_without_reply: Option<bool>,
        reply_markup_ikm: Option<&Record>,
        reply_markup_rkm: Option<&Record>,
        reply_markup_rkr: Option<&Record>,
        reply_markup_fr: Option<&Record>,
    ) -> (r: ApiRequest)
        requires
            match caption_entities { Some(rs) => wf_rec_list(cat@, MESSAGE_ENTITY as int, recs_view(rs@)), None => true },
            match reply_markup_ikm { Some(rec) => wf_record(cat@, INLINE_KEYBOARD_MARKUP as int, rec@), None => true },
            match reply_markup_rkm { Some(rec) => wf_record(cat@, REPLY_KEYBOARD_MARKUP as int, rec@), None => true },
            match reply_markup_rkr { Some(rec) => wf_record(cat@, REPLY_KEYBOARD_REMOVE as int, rec@), None => true },
            match reply_markup_fr { Some(rec) => wf_record(cat@, FORCE_REPLY as int, rec@), None => true },
        ensures
            r.method@ == "copyMessage"@,
            r.parameters@ == params_done(
                qpiece("chat_id"@, dec_i64(chat_id as int))
                + qpiece("from_chat_id"@, dec_i64(from_chat_id as int))
                + qpiece("message_id"@, dec_i64(message_id as int))
                + (match caption { Some(v) => qpiece("caption"@, v@), None => Seq::<char>::empty() })
                + (match parse_mode { Some(v) => qpiece("parse_mode"@, v@), None => Seq::<char>::empty() })
                + (match caption_entities { Some(rs) => qpiece("caption_entities"@, recs_text(cat@, MESSAGE_ENTITY as int, recs_view(rs@))), None => Seq::<char>::empty() })
                + (match disable_notification { Some(b) => qpiece("disable_notification"@, bool_text(b)), None => Seq::<char>::empty() })
                + (match reply_to_message_id { Some(x) => qpiece("reply_to_message_id"@, dec_i64(x as int)), None => Seq::<char>::empty() })
                + (match allow_sending_without_reply { Some(b) => qpiece("allow_sending_without_reply"@, bool_text(b)), None => Seq::<char>::empty() })
                + (match reply_markup_ikm { Some(rec) => qpiece("reply_markup"@, rec_text(cat@, INLINE_KEYBOARD_MARKUP as int, rec@)), None => Seq::<char>::empty() })
                + (match reply_markup_rkm { Some(rec) => qpiece("reply_markup"@, rec_text(cat@, REPLY_KEYBOARD_MARKUP as int, rec@)), None => Seq::<char>::empty() })
                + (match reply_markup_rkr { Some(rec) => qpiece("reply_markup"@, rec_text(cat@, REPLY_KEYBOARD_REMOVE as int, rec@)), None => Seq::<char>::empty() })
                + (match reply_markup_fr { Some(rec) => qpiece("reply_markup"@, rec_text(cat@, FORCE_REPLY as int, rec@)), None => Seq::<char>::empty() }),
            ),
    {
        let mut out = String::new();
        push_i64(&mut out, "chat_id", chat_id);
        proof {
            assert(out@ =~= qpiece("chat_id"@, dec_i64(chat_id as int)));
        }
        push_i64(&mut out, "from_chat_id", from_chat_id);
        push_i32(&mut out, "message_id", message_id);
        push_opt_str(&mut out, "caption", caption);
        push_opt_str(&mut out, "parse_mode", parse_mode);
        push_opt_recs(&mut out, cat, MESSAGE_ENTITY, "caption_entities", caption_entities);
        push_opt_bool(&mut out, "disable_notification", disable_notification);
        push_opt_i32(&mut out, "reply_to_message_id", reply_to_message_id);
        push_opt_bool(&mut out, "allow_sending_without_reply", allow_sending_without_reply);
        push_opt_rec(&mut out, cat, INLINE_KEYBOARD_MARKUP, "reply_markup", reply_markup_ikm);
        push_opt_rec(&mut out, cat, REPLY_KEYBOARD_MARKUP, "reply_markup", reply_markup_rkm);
        push_opt_rec(&mut out, cat, REPLY_KEYBOARD_REMOVE, "reply_markup", reply_markup_rkr);
        push_opt_rec(&mut out, cat, FORCE_REPLY, "reply_markup", reply_markup_fr);
        ApiRequest { method: String::from_str("copyMessage"), parameters: done(out) }
    }

    /// Builds the `sendPhoto` request from its typed arguments.
    pub fn send_photo(
        &self,
        cat: &Catalog,
        chat_id: i64,
        photo: &str,
        caption: Option<&str>,
        parse_mode: Option<&str>,
        caption_entities: Option<&Vec<Record>>,
        disable_notification: Option<bool>,
        reply_to_message_id: Option<i32>,
        allow_sending_without_reply: Option<bool>,
        reply_markup_ikm: Option<&Record>,
        reply_markup_rkm: Option<&Record>,
        reply_markup_rkr: Option<&Record>,
        reply_markup_fr: Option<&Record>,
    ) -> (r: ApiRequest)
        requires
            match caption_entities { Some(rs) => wf_rec_list(cat@, MESSAGE_ENTITY as int, recs_view(rs@)), None => true },
            match reply_markup_ikm { Some(rec) => wf_record(cat@, INLINE_KEYBOARD_MARKUP as int, rec@), None => true },
            match reply_markup_rkm { Some(rec) => wf_record(cat@, REPLY_KEYBOARD_MARKUP as int, rec@), None => true },
            match reply_markup_rkr { Some(rec) => wf_record(cat@, REPLY_KEYBOARD_REMOVE as int, rec@), None => true },
            match reply_markup_fr { Some(rec) => wf_record(cat@, FORCE_REPLY as int, rec@), None => true },
        ensures
            r.method@ == "sendPhoto"@,
            r.parameters@ == params_done(
                qpiece("chat_id"@, dec_i64(chat_id as int))
                + qpiece("photo"@, photo@)
                + (match caption { Some(v) => qpiece("caption"@, v@), None => Seq::<char>::empty() })
                + (match parse_mode { Some(v) => qpiece("parse_mode"@, v@), None => Seq::<char>::empty() })
                + (match caption_entities { Some(rs) => qpiece("caption_entities"@, recs_text(cat@, MESSAGE_ENTITY as int, recs_view(rs@))), None => Seq::<char>::empty() })
                + (match disable_notification { Some(b) => qpiece("disable_notification"@, bool_text(b)), None => Seq::<char>::empty() })
                + (match reply_to_message_id { Some(x) => qpiece("reply_to_message_id"@, dec_i64(x as int)), None => Seq::<char>::empty() })
                + (match allow_sending_without_reply { Some(b) => qpiece("allow_sending_without_reply"@, bool_text(b)), None => Seq::<char>::empty() })
                + (match reply_markup_ikm { Some(rec) => qpiece("reply_markup"@, rec_text(cat@, INLINE_KEYBOARD_MARKUP as int, rec@)), None => Seq::<char>::empty() })
                + (match reply_markup_rkm { Some(rec) => qpiece("reply_markup"@, rec_text(cat@, REPLY_KEYBOARD_MARKUP as int, rec@)), None => Seq::<char>::empty() })
                + (match reply_markup_rkr { Some(rec) => qpiece("reply_markup"@, rec_text(cat@, REPLY_KEYBOARD_REMOVE as int, rec@)), None => Seq::<char>::empty() })
                + (match reply_markup_fr { Some(rec) => qpiece("reply_markup"@, rec_text(cat@, FORCE_REPLY as int, rec@)), None => Seq::<char>::empty() }),
            ),
    {
        let mut out = String::new();
        push_i64(&mut out, "chat_id", chat_id);
        proof {
            assert(out@ =~= qpiece("chat_id"@, dec_i64(chat_id as int)));
        }
        push_piece(&mut out, "photo", photo);
        push_opt_str(&mut out, "caption", caption);
        push_opt_str(&mut out, "parse_mode", parse_mode);
        push_opt_recs(&mut out, cat, MESSAGE_ENTITY, "caption_entities", caption_entities);
        push_opt_bool(&mut out, "disable_notification", disable_notification);
        push_opt_i32(&mut out, "reply_to_message_id", reply_to_message_id);
        push_opt_bool(&mut out, "allow_sending_without_reply", allow_sending_without_reply);
        push_opt_rec(&mut out, cat, INLINE_KEYBOARD_MARKUP, "reply_markup", reply_markup_ikm);
        push_opt_rec(&mut out, cat, REPLY_KEYBOARD_MARKUP, "reply_markup", reply_markup_rkm);
        push_opt_rec(&mut out, cat, REPLY_KEYBOARD_REMOVE, "reply_markup", reply_markup_rkr);
        push_opt_rec(&mut out, cat, FORCE_REPLY, "reply_markup", reply_markup_fr);
        ApiRequest { method: String::from_str("sendPhoto"), parameters: done(out) }
    }

    /// Builds the `sendAudio` request from its typed arguments.
    pub fn send_audio(
        &self,
        cat: &Catalog,
        chat_id: i64,
        audio: &str,
        caption: Option<&str>,
        parse_mode: Option<&str>,
        caption_entities: Option<&Vec<Record>>,
        duration: Option<i32>,
        performer: Option<&str>,
        title: Option<&str>,
        thumb: Option<&str>,
        disable_notification: Option<bool>,
        reply_to_message_id: Option<i32>,
        allow_sending_without_reply: Option<bool>,
        reply_markup_ikm: Option<&Record>,
        reply_markup_rkm: Option<&Record>,
        reply_markup_rkr: Option<&Record>,
        reply_markup_fr: Option<&Record>,
    ) -> (r: ApiRequest)
        requires
            match caption_entities { Some(rs) => wf_rec_list(cat@, MESSAGE_ENTITY as int, recs_view(rs@)), None => true },
            match reply_markup_ikm { Some(rec) => wf_record(cat@, INLINE_KEYBOARD_MARKUP as int, rec@), None => true },
            match reply_markup_rkm { Some(rec) => wf_record(cat@, REPLY_KEYBOARD_MARKUP as int, rec@), None => true },
            match reply_markup_rkr { Some(rec) => wf_record(cat@, REPLY_KEYBOARD_REMOVE as int, rec@), None => true },
            match reply_markup_fr { Some(rec) => wf_record(cat@, FORCE_REPLY as int, rec@), None => true },
        ensures
            r.method@ == "sendAudio"@,
            r.parameters@ == params_done(
                qpiece("chat_id"@, dec_i64(chat_id as int))
                + qpiece("audio"@, audio@)
                + (match caption { Some(v) => qpiece("caption"@, v@), None => Seq::<char>::empty() })
                + (match parse_mode { Some(v) => qpiece("parse_mode"@, v@), None => Seq::<char>::empty() })
                + (match caption_entities { Some(rs) => qpiece("caption_entities"@, recs_text(cat@, MESSAGE_ENTITY as int, recs_view(rs@))), None => Seq::<char>::empty() })
                + (match duration { Some(x) => qpiece("duration"@, dec_i64(x as int)), None => Seq::<char>::empty() })
                + (match performer { Some(v) => qpiece("performer"@, v@), None => Seq::<char>::empty() })
                + (match title { Some(v) => qpiece("title"@, v@), None => Seq::<char>::empty() })
                + (match thumb { Some(v) => qpiece("thumb"@, v@), None => Seq::<char>::empty() })
                + (match disable_notification { Some(b) => qpiece("disable_notification"@, bool_text(b)), None => Seq::<char>::empty() })
                + (match reply_to_message_id { Some(x) => qpiece("reply_to_message_id"@, dec_i64(x as int)), None => Seq::<char>::empty() })
                + (match allow_sending_without_reply { Some(b) => qpiece("allow_sending_without_reply"@, bool_text(b)), None => Seq::<char>::empty() })
                + (match reply_markup_ikm { Some(rec) => qpiece("reply_markup"@, rec_text(cat@, INLINE_KEYBOARD_MARKUP as int, rec@)), None => Seq::<char>::empty() })
                + (match reply_markup_rkm { Some(rec) => qpiece("reply_markup"@, rec_text(cat@, REPLY_KEYBOARD_MARKUP as int, rec@)), None => Seq::<char>::empty() })
                + (match reply_markup_rkr { Some(rec) => qpiece("reply_markup"@, rec_text(cat@, REPLY_KEYBOARD_REMOVE as int, rec@)), None => Seq::<char>::empty() })
                + (match reply_markup_fr { Some(rec) => qpiece("reply_markup"@, rec_text(cat@, FORCE_REPLY as int, rec@)), None => Seq::<char>::empty() }),
            ),
    {
        let mut out = String::new();
        push_i64(&mut out, "chat_id", chat_id);
        proof {
            assert(out@ =~= qpiece("chat_id"@, dec_i64(chat_id as int)));
        }
        push_piece(&mut out, "audio", audio);
        push_opt_str(&mut out, "caption", caption);
        push_opt_str(&mut out, "parse_mode", parse_mode);
        push_opt_recs(&mut out, cat, MESSAGE_ENTITY, "caption_entities", caption_entities);
        push_opt_i32(&mut out, "duration", duration);
        push_opt_str(&mut out, "performer", performer);
        push_opt_str(&mut out, "title", title);
        push_opt_str(&mut out, "thumb", thumb);
        push_opt_bool(&mut out, "disable_notification", disable_notification);
        push_opt_i32(&mut out, "reply_to_message_id", reply_to_message_id);
        push_opt_bool(&mut out, "allow_sending_without_reply", allow_sending_without_reply);
        push_opt_rec(&mut out, cat, INLINE_KEYBOARD_MARKUP, "reply_markup", reply_markup_ikm);
        push_opt_rec(&mut out, cat, REPLY_KEYBOARD_MARKUP, "reply_markup", reply_markup_rkm);
        push_opt_rec(&mut out, cat, REPLY_KEYBOARD_REMOVE, "reply_markup", reply_markup_rkr);
        push_opt_rec(&mut out, cat, FORCE_REPLY, "reply_markup", reply_markup_fr);
        ApiRequest { method: String::from_str("sendAudio"), parameters: done(out) }
    }

    /// Builds the `sendDocument` request from its typed arguments.
    pub fn send_document(
        &self,
        cat: &Catalog,
        chat_id: i64,
        document: &str,
        thumb: Option<&str>,
        caption: Option<&str>,
        parse_mode: Option<&str>,
        caption_entities: Option<&Vec<Record>>,
        disable_content_type_detection: Option<bool>,
        disable_notification: Option<bool>,
        reply_to_message_id: Option<i32>,
        allow_sending_without_reply: Option<bool>,
        reply_markup_ikm: Option<&Record>,
        reply_markup_rkm: Option<&Record>,
        reply_markup_rkr: Option<&Record>,
        reply_markup_fr: Option<&Record>,
    ) -> (r: ApiRequest)
        requires
            match caption_entities { Some(rs) => wf_rec_list(cat@, MESSAGE_ENTITY as int, recs_view(rs@)), None => true },
            match reply_markup_ikm { Some(rec) => wf_record(cat@, INLINE_KEYBOARD_MARKUP as int, rec@), None => true },
            match reply_markup_rkm { Some(rec) => wf_record(cat@, REPLY_KEYBOARD_MARKUP as int, rec@), None => true },
            match reply_markup_rkr { Some(rec) => wf_record(cat@, REPLY_KEYBOARD_REMOVE as int, rec@), None => true },
            match reply_markup_fr { Some(rec) => wf_record(cat@, FORCE_REPLY as int, rec@), None => true },
        ensures
            r.method@ == "sendDocument"@,
            r.parameters@ == params_done(
                qpiece("chat_id"@, dec_i64(chat_id as int))
                + qpiece("document"@, document@)
                + (match thumb { Some(v) => qpiece("thumb"@, v@), None => Seq::<char>::empty() })
                + (match caption { Some(v) => qpiece("caption"@, v@), None => Seq::<char>::empty() })
                + (match parse_mode { Some(v) => qpiece("parse_mode"@, v@), None => Seq::<char>::empty() })
                + (match caption_entities { Some(rs) => qpiece("caption_entities"@, recs_text(cat@, MESSAGE_ENTITY as int, recs_view(rs@))), None => Seq::<char>::empty() })
                + (match disable_content_type_detection { Some(b) => qpiece("disable_content_type_detection"@, bool_text(b)), None => Seq::<char>::empty() })
                + (match disable_notification { Some(b) => qpiece("disable_notification"@, bool_text(b)), None => Seq::<char>::empty() })
                + (match reply_to_message_id { Some(x) => qpiece("reply_to_message_id"@, dec_i64(x as int)), None => Seq::<char>::empty() })
                + (match allow_sending_without_reply { Some(b) => qpiece("allow_sending_without_reply"@, bool_text(b)), None => Seq::<char>::empty() })
                + (match reply_markup_ikm { Some(rec) => qpiece("reply_markup"@, rec_text(cat@, INLINE_KEYBOARD_MARKUP as int, rec@)), None => Seq::<char>::empty() })
                + (match reply_markup_rkm { Some(rec) => qpiece("reply_markup"@, rec_text(cat@, REPLY_KEYBOARD_MARKUP as int, rec@)), None => Seq::<char>::empty() })
                + (match reply_markup_rkr { Some(rec) => qpiece("reply_markup"@, rec_text(cat@, REPLY_KEYBOARD_REMOVE as int, rec@)), None => Seq::<char>::empty() })
                + (match reply_markup_fr { Some(rec) => qpiece("reply_markup"@, rec_text(cat@, FORCE_REPLY as int, rec@)), None => Seq::<char>::empty() }),
            ),
    {
        let mut out = String::new();
        push_i64(&mut out, "chat_id", chat_id);
        proof {
            assert(out@ =~= qpiece("chat_id"@, dec_i64(chat_id as int)));
        }
        push_piece(&mut out, "document", document);
        push_opt_str(&mut out, "thumb", thumb);
        push_opt_str(&mut out, "caption", caption);
        push_opt_str(&mut out, "parse_mode", parse_mode);
        push_opt_recs(&mut out, cat, MESSAGE_ENTITY, "caption_entities", caption_entities);
        push_opt_bool(&mut out, "disable_content_type_detection", disable_content_type_detection);
        push_opt_bool(&mut out, "disable_notification", disable_notification);
        push_opt_i32(&mut out, "reply_to_message_id", reply_to_message_id);
        push_opt_bool(&mut out, "allow_sending_without_reply", allow_sending_without_reply);
        push_opt_rec(&mut out, cat, INLINE_KEYBOARD_MARKUP, "reply_markup", reply_markup_ikm);
        push_opt_rec(&mut out, cat, REPLY_KEYBOARD_MARKUP, "reply_markup", reply_markup_rkm);
        push_opt_rec(&mut out, cat, REPLY_KEYBOARD_REMOVE, "reply_markup", reply_markup_rkr);
        push_opt_rec(&mut out, cat, FORCE_REPLY, "reply_markup", reply_markup_fr);
        ApiRequest { method: String::from_str("sendDocument"), parameters: done(out) }
    }

    /// Builds the `sendVideo` request from its typed arguments.
    pub fn send_video(
        &self,
        cat: &Catalog,
        chat_id: i64,
        video: &str,
        duration: Option<i32>,
        width: Option<i32>,
        height: Option<i32>,
        thumb: Option<&str>,
        caption: Option<&str>,
        parse_mode: Option<&str>,
        caption_entities: Option<&Vec<Record>>,
        supports_streaming: Option<bool>,
        disable_notification: Option<bool>,
        reply_to_message_id: Option<i32>,
        allow_sending_without_reply: Option<bool>,
        reply_markup_ikm: Option<&Record>,
        reply_markup_rkm: Option<&Record>,
        reply_markup_rkr: Option<&Record>,
        reply_markup_fr: Option<&Record>,
    ) -> (r: ApiRequest)
        requires
            match caption_entities { Some(rs) => wf_rec_list(cat@, MESSAGE_ENTITY as int, recs_view(rs@)), None => true },
            match reply_markup_ikm { Some(rec) => wf_record(cat@, INLINE_KEYBOARD_MARKUP as int, rec@), None => true },
            match reply_markup_rkm { Some(rec) => wf_record(cat@, REPLY_KEYBOARD_MARKUP as int, rec@), None => true },
            match reply_markup_rkr { Some(rec) => wf_record(cat@, REPLY_KEYBOARD_REMOVE as int, rec@), None => true },
            match reply_markup_fr { Some(rec) => wf_record(cat@, FORCE_REPLY as int, rec@), None => true },
        ensures
            r.method@ == "sendVideo"@,
            r.parameters@ == params_done(
                qpiece("chat_id"@, dec_i64(chat_id as int))
                + qpiece("video"@, video@)
                + (match duration { Some(x) => qpiece("duration"@, dec_i64(x as int)), None => Seq::<char>::empty() })
                + (match width { Some(x) => qpiece("width"@, dec_i64(x as int)), None => Seq::<char>::empty() })
                + (match height { Some(x) => qpiece("height"@, dec_i64(x as int)), None => Seq::<char>::empty() })
                + (match thumb { Some(v) => qpiece("thumb"@, v@), None => Seq::<char>::empty() })
                + (match caption { Some(v) => qpiece("caption"@, v@), None => Seq::<char>::empty() })
                + (match parse_mode { Some(v) => qpiece("parse_mode"@, v@), None => Seq::<char>::empty() })
                + (match caption_entities { Some(rs) => qpiece("caption_entities"@, recs_text(cat@, MESSAGE_ENTITY as int, recs_view(rs@))), None => Seq::<char>::empty() })
                + (match supports_streaming { Some(b) => qpiece("supports_streaming"@, bool_text(b)), None => Seq::<char>::empty() })
                + (match disable_notification { Some(b) => qpiece("disable_notification"@, bool_text(b)), None => Seq::<char>::empty() })
                + (match reply_to_message_id { Some(x) => qpiece("reply_to_message_id"@, dec_i64(x as int)), None => Seq::<char>::empty() })
                + (match allow_sending_without_reply { Some(b) => qpiece("allow_sending_without_reply"@, bool_text(b)), None => Seq::<char>::empty() })
                + (match reply_markup_ikm { Some(rec) => qpiece("reply_markup"@, rec_text(cat@, INLINE_KEYBOARD_MARKUP as int, rec@)), None => Seq::<char>::empty() })
                + (match reply_markup_rkm { Some(rec) => qpiece("reply_markup"@, rec_text(cat@, REPLY_KEYBOARD_MARKUP as int, rec@)), None => Seq::<char>::empty() })
                + (match reply_markup_rkr { Some(rec) => qpiece("reply_markup"@, rec_text(cat@, REPLY_KEYBOARD_REMOVE as int, rec@)), None => Seq::<char>::empty() })
                + (match reply_markup_fr { Some(rec) => qpiece("reply_markup"@, rec_text(cat@, FORCE_REPLY as int, rec@)), None => Seq::<char>::empty() }),
            ),
    {
        let mut out = String::new();
        push_i64(&mut out, "chat_id", chat_id);
        proof {
            assert(out@ =~= qpiece("chat_id"@, dec_i64(chat_id as int)));
        }
        push_piece(&mut out, "video", video);
        push_opt_i32(&mut out, "duration", duration);
        push_opt_i32(&mut out, "width", width);
        push_opt_i32(&mut out, "height", height);
        push_opt_str(&mut out, "thumb", thumb);
        push_opt_str(&mut out, "caption", caption);
        push_opt_str(&mut out, "parse_mode", parse_mode);
        push_opt_recs(&mut out, cat, MESSAGE_ENTITY, "caption_entities", caption_entities);
        push_opt_bool(&mut out, "supports_streaming", supports_streaming);
        push_opt_bool(&mut out, "disable_notification", disable_notification);
        push_opt_i32(&mut out, "reply_to_message_id", reply_to_message_id);
        push_opt_bool(&mut out, "allow_sending_without_reply", allow_sending_without_reply);
        push_opt_rec(&mut out, cat, INLINE_KEYBOARD_MARKUP, "reply_markup", reply_markup_ikm);
        push_opt_rec(&mut out, cat, REPLY_KEYBOARD_MARKUP, "reply_markup", reply_markup_rkm);
        push_opt_rec(&mut out, cat, REPLY_KEYBOARD_REMOVE, "reply_markup", reply_markup_rkr);
        push_opt_rec(&mut out, cat, FORCE_REPLY, "reply_markup", reply_markup_fr);
        ApiRequest { method: String::from_str("sendVideo"), parameters: done(out) }
    }

    /// Builds the `sendAnimation` request from its typed arguments.
    pub fn send_animation(
        &self,
        cat: &Catalog,
        chat_id: i64,
        animation: &str,
        duration: Option<i32>,
        width: Option<i32>,
        height: Option<i32>,
        thumb: Option<&str>,
        caption: Option<&str>,
        parse_mode: Option<&str>,
        caption_entities: Option<&Vec<Record>>,
        disable_notification: Option<bool>,
        reply_to_message_id: Option<i32>,
        allow_sending_without_reply: Option<bool>,
        reply_markup_ikm: Option<&Record>,
        reply_markup_rkm: Option<&Record>,
        reply_markup_rkr: Option<&Record>,
        reply_markup_fr: Option<&Record>,
    ) -> (r: ApiRequest)
        requires
            match caption_entities { Some(rs) => wf_rec_list(cat@, MESSAGE_ENTITY as int, recs_view(rs@)), None => true },
            match reply_markup_ikm { Some(rec) => wf_record(cat@, INLINE_KEYBOARD_MARKUP as int, rec@), None => true },
            match reply_markup_rkm { Some(rec) => wf_record(cat@, REPLY_KEYBOARD_MARKUP as int, rec@), None => true },
            match reply_markup_rkr { Some(rec) => wf_record(cat@, REPLY_KEYBOARD_REMOVE as int, rec@), None => true },
            match reply_markup_fr { Some(rec) => wf_record(cat@, FORCE_REPLY as int, rec@), None => true },
        ensures
            r.method@ == "sendAnimation"@,
            r.parameters@ == params_done(
                qpiece("chat_id"@, dec_i64(chat_id as int))
                + qpiece("animation"@, animation@)
                + (match duration { Some(x) => qpiece("duration"@, dec_i64(x as int)), None => Seq::<char>::empty() })
                + (match width { Some(x) => qpiece("width"@, dec_i64(x as int)), None => Seq::<char>::empty() })
                + (match height { Some(x) => qpiece("height"@, dec_i64(x as int)), None => Seq::<char>::empty() })
                + (match thumb { Some(v) => qpiece("thumb"@, v@), None => Seq::<char>::empty() })
                + (match caption { Some(v) => qpiece("caption"@, v@), None => Seq::<char>::empty() })
                + (match parse_mode { Some(v) => qpiece("parse_mode"@, v@), None => Seq::<char>::empty() })
                + (match caption_entities { Some(rs) => qpiece("caption_entities"@, recs_text(cat@, MESSAGE_ENTITY as int, recs_view(rs@))), None => Seq::<char>::empty() })
                + (match disable_notification { Some(b) => qpiece("disable_notification"@, bool_text(b)), None => Seq::<char>::empty() })
                + (match reply_to_message_id { Some(x) => qpiece("reply_to_message_id"@, dec_i64(x as int)), None => Seq::<char>::empty() })
                + (match allow_sending_without_reply { Some(b) => qpiece("allow_sending_without_reply"@, bool_text(b)), None => Seq::<char>::empty() })
                + (match reply_markup_ikm { Some(rec) => qpiece("reply_markup"@, rec_text(cat@, INLINE_KEYBOARD_MARKUP as int, rec@)), None => Seq::<char>::empty() })
                + (match reply_markup_rkm { Some(rec) => qpiece("reply_markup"@, rec_text(cat@, REPLY_KEYBOARD_MARKUP as int, rec@)), None => Seq::<char>::empty() })
                + (match reply_markup_rkr { Some(rec) => qpiece("reply_markup"@, rec_text(cat@, REPLY_KEYBOARD_REMOVE as int, rec@)), None => Seq::<char>::empty() })
                + (match reply_markup_fr { Some(rec) => qpiece("reply_markup"@, rec_text(cat@, FORCE_REPLY as int, rec@)), None => Seq::<char>::empty() }),
            ),
    {
        let mut out = String::new();
        push_i64(&mut out, "chat_id", chat_id);
        proof {
            assert(out@ =~= qpiece("chat_id"@, dec_i64(chat_id as int)));
        }
        push_piece(&mut out, "animation", animation);
        push_opt_i32(&mut out, "duration", duration);
        push_opt_i32(&mut out, "width", width);
        push_opt_i32(&mut out, "height", height);
        push_opt_str(&mut out, "thumb", thumb);
        push_opt_str(&mut out, "caption", caption);
        push_opt_str(&mut out, "parse_mode", parse_mode);
        push_opt_recs(&mut out, cat, MESSAGE_ENTITY, "caption_entities", caption_entities);
        push_opt_bool(&mut out, "disable_notification", disable_notification);
        push_opt_i32(&mut out, "reply_to_message_id", reply_to_message_id);
        push_opt_bool(&mut out, "allow_sending_without_reply", allow_sending_without_reply);
        push_opt_rec(&mut out, cat, INLINE_KEYBOARD_MARKUP, "reply_markup", reply_markup_ikm);
        push_opt_rec(&mut out, cat, REPLY_KEYBOARD_MARKUP, "reply_markup", reply_markup_rkm);
        push_opt_rec(&mut out, cat, REPLY_KEYBOARD_REMOVE, "reply_markup", reply_markup_rkr);
        push_opt_rec(&mut out, cat, FORCE_REPLY, "reply_markup", reply_markup_fr);
        ApiRequest { method: String::from_str("sendAnimation"), parameters: done(out) }
    }

    /// Builds the `sendVoice` request from its typed arguments.
    pub fn send_voice(
        &self,
        cat: &Catalog,
        chat_id: i64,
        voice: &str,
        caption: Option<&str>,
        parse_mode: Option<&str>,
        caption_entities: Option<&Vec<Record>>,
        duration: Option<i32>,
        disable_notification: Option<bool>,
        reply_to_message_id: Option<i32>,
        allow_sending_without_reply: Option<bool>,
        reply_markup_ikm: Option<&Record>,
        reply_markup_rkm: Option<&Record>,
        reply_markup_rkr: Option<&Record>,
        reply_markup_fr: Option<&Record>,
    ) -> (r: ApiRequest)
        requires
            match caption_entities { Some(rs) => wf_rec_list(cat@, MESSAGE_ENTITY as int, recs_view(rs@)), None => true },
            match reply_markup_ikm { Some(rec) => wf_record(cat@, INLINE_KEYBOARD_MARKUP as int, rec@), None => true },
            match reply_markup_rkm { Some(rec) => wf_record(cat@, REPLY_KEYBOARD_MARKUP as int, rec@), None => true },
            match reply_markup_rkr { Some(rec) => wf_record(cat@, REPLY_KEYBOARD_REMOVE as int, rec@), None => true },
            match reply_markup_fr { Some(rec) => wf_record(cat@, FORCE_REPLY as int, rec@), None => true },
        ensures
            r.method@ == "sendVoice"@,
            r.parameters@ == params_done(
                qpiece("chat_id"@, dec_i64(chat_id as int))
                + qpiece("voice"@, voice@)
                + (match caption { Some(v) => qpiece("caption"@, v@), None => Seq::<char>::empty() })
                + (match parse_mode { Some(v) => qpiece("parse_mode"@, v@), None => Seq::<char>::empty() })
                + (match caption_entities { Some(rs) => qpiece("caption_entities"@, recs_text(cat@, MESSAGE_ENTITY as int, recs_view(rs@))), None => Seq::<char>::empty() })
                + (match duration { Some(x) => qpiece("duration"@, dec_i64(x as int)), None => Seq::<char>::empty() })
                + (match disable_notification { Some(b) => qpiece("disable_notification"@, bool_text(b)), None => Seq::<char>::empty() })
                + (match reply_to_message_id { Some(x) => qpiece("reply_to_message_id"@, dec_i64(x as int)), None => Seq::<char>::empty() })
                + (match allow_sending_without_reply { Some(b) => qpiece("allow_sending_without_reply"@, bool_text(b)), None => Seq::<char>::empty() })
                + (match reply_markup_ikm { Some(rec) => qpiece("reply_markup"@, rec_text(cat@, INLINE_KEYBOARD_MARKUP as int, rec@)), None => Seq::<char>::empty() })
                + (match reply_markup_rkm { Some(rec) => qpiece("reply_markup"@, rec_text(cat@, REPLY_KEYBOARD_MARKUP as int, rec@)), None => Seq::<char>::empty() })
                + (match reply_markup_rkr { Some(rec) => qpiece("reply_markup"@, rec_text(cat@, REPLY_KEYBOARD_REMOVE as int, rec@)), None => Seq::<char>::empty() })
                + (match reply_markup_fr { Some(rec) => qpiece("reply_markup"@, rec_text(cat@, FORCE_REPLY as int, rec@)), None => Seq::<char>::empty() }),
            ),
    {
        let mut out = String::new();
        push_i64(&mut out, "chat_id", chat_id);
        proof {
            assert(out@ =~= qpiece("chat_id"@, dec_i64(chat_id as int)));
        }
        push_piece(&mut out, "voice", voice);
        push_opt_str(&mut out, "caption", caption);
        push_opt_str(&mut out, "parse_mode", parse_mode);
        push_opt_recs(&mut out, cat, MESSAGE_ENTITY, "caption_entities", caption_entities);
        push_opt_i32(&mut out, "duration", duration);
        push_opt_bool(&mut out, "disable_notification", disable_notification);
        push_opt_i32(&mut out, "reply_to_message_id", reply_to_message_id);
        push_opt_bool(&mut out, "allow_sending_without_reply", allow_sending_without_reply);
        push_opt_rec(&mut out, cat, INLINE_KEYBOARD_MARKUP, "reply_markup", reply_markup_ikm);
        push_opt_rec(&mut out, cat, REPLY_KEYBOARD_MARKUP, "reply_markup", reply_markup_rkm);
        push_opt_rec(&mut out, cat, REPLY_KEYBOARD_REMOVE, "reply_markup", reply_markup_rkr);
        push_opt_rec(&mut out, cat, FORCE_REPLY, "reply_markup", reply_markup_fr);
        ApiRequest { method: String::from_str("sendVoice"), parameters: done(out) }
    }

    /// Builds the `sendVideoNote` request from its typed arguments.
    pub fn send_video_note(
        &self,
        cat: &Catalog,
        chat_id: i64,
        video_note: &str,
        duration: Option<i32>,
        length: Option<i32>,
        thumb: Option<&str>,
        disable_notification: Option<bool>,
        reply_to_message_id: Option<i32>,
        allow_sending_without_reply: Option<bool>,
        reply_markup_ikm: Option<&Record>,
        reply_markup_rkm: Option<&Record>,
        reply_markup_rkr: Option<&Record>,
        reply_markup_fr: Option<&Record>,
    ) -> (r: ApiRequest)
        requires
            match reply_markup_ikm { Some(rec) => wf_record(cat@, INLINE_KEYBOARD_MARKUP as int, rec@), None => true },
            match reply_markup_rkm { Some(rec) => wf_record(cat@, REPLY_KEYBOARD_MARKUP as int, rec@), None => true },
            match reply_markup_rkr { Some(rec) => wf_record(cat@, REPLY_KEYBOARD_REMOVE as int, rec@), None => true },
            match reply_markup_fr { Some(rec) => wf_record(cat@, FORCE_REPLY as int, rec@), None => true },
        ensures
            r.method@ == "sendVideoNote"@,
            r.parameters@ == params_done(
                qpiece("chat_id"@, dec_i64(chat_id as int))
                + qpiece("video_note"@, video_note@)
                + (match duration { Some(x) => qpiece("duration"@, dec_i64(x as int)), None => Seq::<char>::empty() })
                + (match length { Some(x) => qpiece("length"@, dec_i64(x as int)), None => Seq::<char>::empty() })
                + (match thumb { Some(v) => qpiece("thumb"@, v@), None => Seq::<char>::empty() })
                + (match disable_notification { Some(b) => qpiece("disable_notification"@, bool_text(b)), None => Seq::<char>::empty() })
                + (match reply_to_message_id { Some(x) => qpiece("reply_to_message_id"@, dec_i64(x as int)), None => Seq::<char>::empty() })
                + (match allow_sending_without_reply { Some(b) => qpiece("allow_sending_without_reply"@, bool_text(b)), None => Seq::<char>::empty() })
                + (match reply_markup_ikm { Some(rec) => qpiece("reply_markup"@, rec_text(cat@, INLINE_KEYBOARD_MARKUP as int, rec@)), None => Seq::<char>::empty() })
                + (match reply_markup_rkm { Some(rec) => qpiece("reply_markup"@, rec_text(cat@, REPLY_KEYBOARD_MARKUP as int, rec@)), None => Seq::<char>::empty() })
                + (match reply_markup_rkr { Some(rec) => qpiece("reply_markup"@, rec_text(cat@, REPLY_KEYBOARD_REMOVE as int, rec@)), None => Seq::<char>::empty() })
                + (match reply_markup_fr { Some(rec) => qpiece("reply_markup"@, rec_text(cat@, FORCE_REPLY as int, rec@)), None => Seq::<char>::empty() }),
            ),
    {
        let mut out = String::new();
        push_i64(&mut out, "chat_id", chat_id);
        proof {
            assert(out@ =~= qpiece("chat_id"@, dec_i64(chat_id as int)));
        }
        push_piece(&mut out, "video_note", video_note);
        push_opt_i32(&mut out, "duration", duration);
        push_opt_i32(&mut out, "length", length);
        push_opt_str(&mut out, "thumb", thumb);
        push_opt_bool(&mut out, "disable_notification", disable_notification);
        push_opt_i32(&mut out, "reply_to_message_id", reply_to_message_id);
        push_opt_bool(&mut out, "allow_sending_without_reply", allow_sending_without_reply);
        push_opt_rec(&mut out, cat, INLINE_KEYBOARD_MARKUP, "reply_markup", reply_markup_ikm);
        push_opt_rec(&mut out, cat, REPLY_KEYBOARD_MARKUP, "reply_markup", reply_markup_rkm);
        push_opt_rec(&mut out, cat, REPLY_KEYBOARD_REMOVE, "reply_markup", reply_markup_rkr);
        push_opt_rec(&mut out, cat, FORCE_REPLY, "reply_markup", reply_markup_fr);
        ApiRequest { method: String::from_str("sendVideoNote"), parameters: done(out) }
    }

    /// Builds the `sendMediaGroup` request from its typed arguments.
    pub fn send_media_group(
        &self,
        cat: &Catalog,
        chat_id: i64,
        media: &Vec<Record>,
        disable_notification: Option<bool>,
        reply_to_message_id: Option<i32>,
        allow_sending_without_reply: Option<bool>,
    ) -> (r: ApiRequest)
        requires
            wf_rec_list(cat@, INPUT_MEDIA as int, recs_view(media@)),
        ensures
            r.method@ == "sendMediaGroup"@,
            r.parameters@ == params_done(
                qpiece("chat_id"@, dec_i64(chat_id as int))
                + qpiece("media"@, recs_text(cat@, INPUT_MEDIA as int, recs_view(media@)))
                + (match disable_notification { Some(b) => qpiece("disable_notification"@, bool_text(b)), None => Seq::<char>::empty() })
                + (match reply_to_message_id { Some(x) => qpiece("reply_to_message_id"@, dec_i64(x as int)), None => Seq::<char>::empty() })
                + (match allow_sending_without_reply { Some(b) => qpiece("allow_sending_without_reply"@, bool_text(b)), None => Seq::<char>::empty() }),
            ),
    {
        let mut out = String::new();
        push_i64(&mut out, "chat_id", chat_id);
        proof {
            assert(out@ =~= qpiece("chat_id"@, dec_i64(chat_id as int)));
        }
        push_opt_recs(&mut out, cat, INPUT_MEDIA, "media", Some(media));
        push_opt_bool(&mut out, "disable_notification", disable_notification);
        push_opt_i32(&mut out, "reply_to_message_id", reply_to_message_id);
        push_opt_bool(&mut out, "allow_sending_without_reply", allow_sending_without_reply);
        ApiRequest { method: String::from_str("sendMediaGroup"), parameters: done(out) }
    }

    /// Builds the `stopMessageLiveLocation` request from its typed arguments.
    pub fn stop_message_live_location(
        &self,
        cat: &Catalog,
        chat_id: Option<i64>,
        message_id: Option<i32>,
        inline_message_id: Option<&str>,
        reply_markup_ikm: Option<&Record>,
    ) -> (r: ApiRequest)
        requires
            match reply_markup_ikm { Some(rec) => wf_record(cat@, INLINE_KEYBOARD_MARKUP as int, rec@), None => true },
        ensures
            r.method@ == "stopMessageLiveLocation"@,
            r.parameters@ == params_done(
                (match chat_id { Some(x) => qpiece("chat_id"@, dec_i64(x as int)), None => Seq::<char>::empty() })
                + (match message_id { Some(x) => qpiece("message_id"@, dec_i64(x as int)), None => Seq::<char>::empty() })
                + (match inline_message_id { Some(v) => qpiece("inline_message_id"@, v@), None => Seq::<char>::empty() })
                + (match reply_markup_ikm { Some(rec) => qpiece("reply_markup"@, rec_text(cat@, INLINE_KEYBOARD_MARKUP as int, rec@)), None => Seq::<char>::empty() }),
            ),
    {
        let mut out = String::new();
        push_opt_i64(&mut out, "chat_id", chat_id);
        proof {
            assert(out@ =~= (match chat_id { Some(x) => qpiece("chat_id"@, dec_i64(x as int)), None => Seq::<char>::empty() }));
        }
        push_opt_i32(&mut out, "message_id", message_id);
        push_opt_str(&mut out, "inline_message_id", inline_message_id);
        push_opt_rec(&mut out, cat, INLINE_KEYBOARD_MARKUP, "reply_markup", reply_markup_ikm);
        ApiRequest { method: String::from_str("stopMessageLiveLocation"), parameters: done(out) }
    }

    /// Builds the `sendContact` request from its typed arguments.
    pub fn send_contact(
        &self,
        cat: &Catalog,
        chat_id: i64,
        phone_number: &str,
        first_name: &str,
        last_name: Option<&str>,
        vcard: Option<&str>,
        disable_notification: Option<bool>,
        reply_to_message_id: Option<i32>,
        allow_sending_without_reply: Option<bool>,
        reply_markup_ikm: Option<&Record>,
        reply_markup_rkm: Option<&Record>,
        reply_markup_rkr: Option<&Record>,
        reply_markup_fr: Option<&Record>,
    ) -> (r: ApiRequest)
        requires
            match reply_markup_ikm { Some(rec) => wf_record(cat@, INLINE_KEYBOARD_MARKUP as int, rec@), None => true },
            match reply_markup_rkm { Some(rec) => wf_record(cat@, REPLY_KEYBOARD_MARKUP as int, rec@), None => true },
            match reply_markup_rkr { Some(rec) => wf_record(cat@, REPLY_KEYBOARD_REMOVE as int, rec@), None => true },
            match reply_markup_fr { Some(rec) => wf_record(cat@, FORCE_REPLY as int, rec@), None => true },
        ensures
            r.method@ == "sendContact"@,
            r.parameters@ == params_done(
                qpiece("chat_id"@, dec_i64(chat_id as int))
                + qpiece("phone_number"@, phone_number@)
                + qpiece("first_name"@, first_name@)
                + (match last_name { Some(v) => qpiece("last_name"@, v@), None => Seq::<char>::empty() })
                + (match vcard { Some(v) => qpiece("vcard"@, v@), None => Seq::<char>::empty() })
                + (match disable_notification { Some(b) => qpiece("disable_notification"@, bool_text(b)), None => Seq::<char>::empty() })
                + (match reply_to_message_id { Some(x) => qpiece("reply_to_message_id"@, dec_i64(x as int)), None => Seq::<char>::empty() })
                + (match allow_sending_without_reply { Some(b) => qpiece("allow_sending_without_reply"@, bool_text(b)), None => Seq::<char>::empty() })
                + (match reply_markup_ikm { Some(rec) => qpiece("reply_markup"@, rec_text(cat@, INLINE_KEYBOARD_MARKUP as int, rec@)), None => Seq::<char>::empty() })
                + (match reply_markup_rkm { Some(rec) => qpiece("reply_markup"@, rec_text(cat@, REPLY_KEYBOARD_MARKUP as int, rec@)), None => Seq::<char>::empty() })
                + (match reply_markup_rkr { Some(rec) => qpiece("reply_markup"@, rec_text(cat@, REPLY_KEYBOARD_REMOVE as int, rec@)), None => Seq::<char>::empty() })
                + (match reply_markup_fr { Some(rec) => qpiece("reply_markup"@, rec_text(cat@, FORCE_REPLY as int, rec@)), None => Seq::<char>::empty() }),
            ),
    {
        let mut out = String::new();
        push_i64(&mut out, "chat_id", chat_id);
        proof {
            assert(out@ =~= qpiece("chat_id"@, dec_i64(chat_id as int)));
        }
        push_piece(&mut out, "phone_number", phone_number);
        push_piece(&mut out, "first_name", first_name);
        push_opt_str(&mut out, "last_name", last_name);
        push_opt_str(&mut out, "vcard", vcard);
        push_opt_bool(&mut out, "disable_notification", disable_notification);
        push_opt_i32(&mut out, "reply_to_message_id", reply_to_message_id);
        push_opt_bool(&mut out, "allow_sending_without_reply", allow_sending_without_reply);
        push_opt_rec(&mut out, cat, INLINE_KEYBOARD_MARKUP, "reply_markup", reply_markup_ikm);
        push_opt_rec(&mut out, cat, REPLY_KEYBOARD_MARKUP, "reply_markup", reply_markup_rkm);
        push_opt_rec(&mut out, cat, REPLY_KEYBOARD_REMOVE, "reply_markup", reply_markup_rkr);
        push_opt_rec(&mut out, cat, FORCE_REPLY, "reply_markup", reply_markup_fr);
        ApiRequest { method: String::from_str("sendContact"), parameters: done(out) }
    }

    /// Builds the `sendPoll` request from its typed arguments.
    #[verifier::rlimit(100)]
    #[verifier::spinoff_prover]
    pub fn send_poll(
        &self,
        cat: &Catalog,
        chat_id: i64,
        question: &str,
        options: &Vec<String>,
        is_anonymous: Option<bool>,
        typ: Option<&str>,
        allows_multiple_answers: Option<bool>,
        correct_option_id: Option<i32>,
        explanation: Option<&str>,
        explanation_parse_mode: Option<&str>,
        explanation_entities: Option<&Vec<Record>>,
        open_period: Option<i32>,
        close_date: Option<i32>,
        is_closed: Option<i32>,
        disable_notification: Option<bool>,
        reply_to_message_id: Option<i32>,
        allow_sending_without_reply: Option<bool>,
        reply_markup_ikm: Option<&Record>,
        reply_markup_rkm: Option<&Record>,
        reply_markup_rkr: Option<&Record>,
        reply_markup_fr: Option<&Record>,
    ) -> (r: ApiRequest)
        requires
            match explanation_entities { Some(rs) => wf_rec_list(cat@, MESSAGE_ENTITY as int, recs_view(rs@)), None => true },
            match reply_markup_ikm { Some(rec) => wf_record(cat@, INLINE_KEYBOARD_MARKUP as int, rec@), None => true },
            match reply_markup_rkm { Some(rec) => wf_record(cat@, REPLY_KEYBOARD_MARKUP as int, rec@), None => true },
            match reply_markup_rkr { Some(rec) => wf_record(cat@, REPLY_KEYBOARD_REMOVE as int, rec@), None => true },
            match reply_markup_fr { Some(rec) => wf_record(cat@, FORCE_REPLY as int, rec@), None => true },
        ensures
            r.method@ == "sendPoll"@,
            r.parameters@ == params_done(
                qpiece("chat_id"@, dec_i64(chat_id as int))
                + qpiece("question"@, question@)
                + qpiece("options"@, strs_text(options@.map_values(|x: String| x@)))
                + (match is_anonymous { Some(b) => qpiece("is_anonymous"@, bool_text(b)), None => Seq::<char>::empty() })
                + (match typ { Some(v) => qpiece("type"@, v@), None => Seq::<char>::empty() })
                + (match allows_multiple_answers { Some(b) => qpiece("allows_multiple_answers"@, bool_text(b)), None => Seq::<char>::empty() })
                + (match correct_option_id { Some(x) => qpiece("correct_option_id"@, dec_i64(x as int)), None => Seq::<char>::empty() })
                + (match explanation { Some(v) => qpiece("explanation"@, v@), None => Seq::<char>::empty() })
                + (match explanation_parse_mode { Some(v) => qpiece("explanation_parse_mode"@, v@), None => Seq::<char>::empty() })
                + (match explanation_entities { Some(rs) => qpiece("explanation_entities"@, recs_text(cat@, MESSAGE_ENTITY as int, recs_view(rs@))), None => Seq::<char>::empty() })
                + (match open_period { Some(x) => qpiece("open_period"@, dec_i64(x as int)), None => Seq::<char>::empty() })
                + (match close_date { Some(x) => qpiece("close_date"@, dec_i64(x as int)), None => Seq::<char>::empty() })
                + (match is_closed { Some(x) => qpiece("is_closed"@, dec_i64(x as int)), None => Seq::<char>::empty() })
                + (match disable_notification { Some(b) => qpiece("disable_notification"@, bool_text(b)), None => Seq::<char>::empty() })
                + (match reply_to_message_id { Some(x) => qpiece("reply_to_message_id"@, dec_i64(x as int)), None => Seq::<char>::empty() })
                + (match allow_sending_without_reply { Some(b) => qpiece("allow_sending_without_reply"@, bool_text(b)), None => Seq::<char>::empty() })
                + (match reply_markup_ikm { Some(rec) => qpiece("reply_markup"@, rec_text(cat@, INLINE_KEYBOARD_MARKUP as int, rec@)), None => Seq::<char>::empty() })
                + (match reply_markup_rkm { Some(rec) => qpiece("reply_markup"@, rec_text(cat@, REPLY_KEYBOARD_MARKUP as int, rec@)), None => Seq::<char>::empty() })
                + (match reply_markup_rkr { Some(rec) => qpiece("reply_markup"@, rec_text(cat@, REPLY_KEYBOARD_REMOVE as int, rec@)), None => Seq::<char>::empty() })
                + (match reply_markup_fr { Some(rec) => qpiece("reply_markup"@, rec_text(cat@, FORCE_REPLY as int, rec@)), None => Seq::<char>::empty() }),
            ),
    {
        let mut out = String::new();
        push_i64(&mut out, "chat_id", chat_id);
        proof {
            assert(out@ =~= qpiece("chat_id"@, dec_i64(chat_id as int)));
        }
        push_piece(&mut out, "question", question);
        let t_options = strings_text(options);
        push_piece(&mut out, "options", t_options.as_str());
        push_opt_bool(&mut out, "is_anonymous", is_anonymous);
        push_opt_str(&mut out, "type", typ);
        push_opt_bool(&mut out, "allows_multiple_answers", allows_multiple_answers);
        push_opt_i32(&mut out, "correct_option_id", correct_option_id);
        push_opt_str(&mut out, "explanation", explanation);
        push_opt_str(&mut out, "explanation_parse_mode", explanation_parse_mode);
        push_opt_recs(&mut out, cat, MESSAGE_ENTITY, "explanation_entities", explanation_entities);
        push_opt_i32(&mut out, "open_period", open_period);
        push_opt_i32(&mut out, "close_date", close_date);
        push_opt_i32(&mut out, "is_closed", is_closed);
        push_opt_bool(&mut out, "disable_notification", disable_notification);
        push_opt_i32(&mut out, "reply_to_message_id", reply_to_message_id);
        push_opt_bool(&mut out, "allow_sending_without_reply", allow_sending_without_reply);
        push_opt_rec(&mut out, cat, INLINE_KEYBOARD_MARKUP, "reply_markup", reply_markup_ikm);
        push_opt_rec(&mut out, cat, REPLY_KEYBOARD_MARKUP, "reply_markup", reply_markup_rkm);
        push_opt_rec(&mut out, cat, REPLY_KEYBOARD_REMOVE, "reply_markup", reply_markup_rkr);
        push_opt_rec(&mut out, cat, FORCE_REPLY, "reply_markup", reply_markup_fr);
        ApiRequest { method: String::from_str("sendPoll"), parameters: done(out) }
    }

    /// Builds the `sendDice` request from its typed arguments.
    pub fn send_dice(
        &self,
        cat: &Catalog,
        chat_id: i64,
        emoji: Option<&str>,
        disable_notification: Option<bool>,
        reply_to_message_id: Option<i32>,
        allow_sending_without_reply: Option<bool>,
        reply_markup_ikm: Option<&Record>,
        reply_markup_rkm: Option<&Record>,
        reply_markup_rkr: Option<&Record>,
        reply_markup_fr: Option<&Record>,
    ) -> (r: ApiRequest)
        requires
            match reply_markup_ikm { Some(rec) => wf_record(cat@, INLINE_KEYBOARD_MARKUP as int, rec@), None => true },
            match reply_markup_rkm { Some(rec) => wf_record(cat@, REPLY_KEYBOARD_MARKUP as int, rec@), None => true },
            match reply_markup_rkr { Some(rec) => wf_record(cat@, REPLY_KEYBOARD_REMOVE as int, rec@), None => true },
            match reply_markup_fr { Some(rec) => wf_record(cat@, FORCE_REPLY as int, rec@), None => true },
        ensures
            r.method@ == "sendDice"@,
            r.parameters@ == params_done(
                qpiece("chat_id"@, dec_i64(chat_id as int))
                + (match emoji { Some(v) => qpiece("emoji"@, v@), None => Seq::<char>::empty() })
                + (match disable_notification { Some(b) => qpiece("disable_notification"@, bool_text(b)), None => Seq::<char>::empty() })
                + (match reply_to_message_id { Some(x) => qpiece("reply_to_message_id"@, dec_i64(x as int)), None => Seq::<char>::empty() })
                + (match allow_sending_without_reply { Some(b) => qpiece("allow_sending_without_reply"@, bool_text(b)), None => Seq::<char>::empty() })
                + (match reply_markup_ikm { Some(rec) => qpiece("reply_markup"@, rec_text(cat@, INLINE_KEYBOARD_MARKUP as int, rec@)), None => Seq::<char>::empty() })
                + (match reply_markup_rkm { Some(rec) => qpiece("reply_markup"@, rec_text(cat@, REPLY_KEYBOARD_MARKUP as int, rec@)), None => Seq::<char>::empty() })
                + (match reply_markup_rkr { Some(rec) => qpiece("reply_markup"@, rec_text(cat@, REPLY_KEYBOARD_REMOVE as int, rec@)), None => Seq::<char>::empty() })
                + (match reply_markup_fr { Some(rec) => qpiece("reply_markup"@, rec_text(cat@, FORCE_REPLY as int, rec@)), None => Seq::<char>::empty() }),
            ),
    {
        let mut out = String::new();
        push_i64(&mut out, "chat_id", chat_id);
        proof {
            assert(out@ =~= qpiece("chat_id"@, dec_i64(chat_id as int)));
        }
        push_opt_str(&mut out, "emoji", emoji);
        push_opt_bool(&mut out, "disable_notification", disable_notification);
        push_opt_i32(&mut out, "reply_to_message_id", reply_to_message_id);
        push_opt_bool(&mut out, "allow_sending_without_reply", allow_sending_without_reply);
        push_opt_rec(&mut out, cat, INLINE_KEYBOARD_MARKUP, "reply_markup", reply_markup_ikm);
        push_opt_rec(&mut out, cat, REPLY_KEYBOARD_MARKUP, "reply_markup", reply_markup_rkm);
        push_opt_rec(&mut out, cat, REPLY_KEYBOARD_REMOVE, "reply_markup", reply_markup_rkr);
        push_opt_rec(&mut out, cat, FORCE_REPLY, "reply_markup", reply_markup_fr);
        ApiRequest { method: String::from_str("sendDice"), parameters: done(out) }
    }

    /// Builds the `sendChatAction` request from its typed arguments.
    pub fn send_chat_action(
        &self,
        chat_id: i64,
        action: &str,
    ) -> (r: ApiRequest)
        ensures
            r.method@ == "sendChatAction"@,
            r.parameters@ == params_done(
                qpiece("chat_id"@, dec_i64(chat_id as int))
                + qpiece("action"@, action@),
            ),
    {
        let mut out = String::new();
        push_i64(&mut out, "chat_id", chat_id);
        proof {
            assert(out@ =~= qpiece("chat_id"@, dec_i64(chat_id as int)));
        }
        push_piece(&mut out, "action", action);
        ApiRequest { method: String::from_str("sendChatAction"), parameters: done(out) }
    }

    /// Builds the `getUserProfilePhotos` request from its typed arguments.
    pub fn get_user_profile_photos(
        &self,
        user_id: i64,
        offset: Option<i32>,
        limit: Option<i32>,
    ) -> (r: ApiRequest)
        ensures
            r.method@ == "getUserProfilePhotos"@,
            r.parameters@ == params_done(
                qpiece("user_id"@, dec_i64(user_id as int))
                + (match offset { Some(x) => qpiece("offset"@, dec_i64(x as int)), None => Seq::<char>::empty() })
                + (match limit { Some(x) => qpiece("limit"@, dec_i64(x as int)), None => Seq::<char>::empty() }),
            ),
    {
        let mut out = String::new();
        push_i64(&mut out, "user_id", user_id);
        proof {
            assert(out@ =~= qpiece("user_id"@, dec_i64(user_id as int)));
        }
        push_opt_i32(&mut out, "offset", offset);
        push_opt_i32(&mut out, "limit", limit);
        ApiRequest { method: String::from_str("getUserProfilePhotos"), parameters: done(out) }
    }

    /// Builds the `kickChatMember` request from its typed arguments.
    pub fn kick_chat_member(
        &self,
        chat_id: i64,
        user_id: i64,
        until_date: Option<i32>,
        revoke_messages: Option<bool>,
    ) -> (r: ApiRequest)
        ensures
            r.method@ == "kickChatMember"@,
            r.parameters@ == params_done(
                qpiece("chat_id"@, dec_i64(chat_id as int))
                + qpiece("user_id"@, dec_i64(user_id as int))
                + (match until_date { Some(x) => qpiece("until_date"@, dec_i64(x as int)), None => Seq::<char>::empty() })
                + (match revoke_messages { Some(b) => qpiece("revoke_messages"@, bool_text(b)), None => Seq::<char>::empty() }),
            ),
    {
        let mut out = String::new();
        push_i64(&mut out, "chat_id", chat_id);
        proof {
            assert(out@ =~= qpiece("chat_id"@, dec_i64(chat_id as int)));
        }
        push_i64(&mut out, "user_id", user_id);
        push_opt_i32(&mut out, "until_date", until_date);
        push_opt_bool(&mut out, "revoke_messages", revoke_messages);
        ApiRequest { method: String::from_str("kickChatMember"), parameters: done(out) }
    }

    /// Builds the `unbanChatMember` request from its typed arguments.
    pub fn unban_chat_member(
        &self,
        chat_id: i64,
        user_id: i64,
        only_if_banned: Option<bool>,
    ) -> (r: ApiRequest)
        ensures
            r.method@ == "unbanChatMember"@,
            r.parameters@ == params_done(
                qpiece("chat_id"@, dec_i64(chat_id as int))
                + qpiece("user_id"@, dec_i64(user_id as int))
                + (match only_if_banned { Some(b) => qpiece("only_if_banned"@, bool_text(b)), None => Seq::<char>::empty() }),
            ),
    {
        let mut out = String::new();
        push_i64(&mut out, "chat_id", chat_id);
        proof {
            assert(out@ =~= qpiece("chat_id"@, dec_i64(chat_id as int)));
        }
        push_i64(&mut out, "user_id", user_id);
        push_opt_bool(&mut out, "only_if_banned", only_if_banned);
        ApiRequest { method: String::from_str("unbanChatMember"), parameters: done(out) }
    }

    /// Builds the `restrictChatMember` request from its typed arguments.
    pub fn restrict_chat_member(
        &self,
        cat: &Catalog,
        chat_id: i64,
        user_id: i64,
        permissions: &Record,
        until_date: Option<i32>,
    ) -> (r: ApiRequest)
        requires
            wf_record(cat@, CHAT_PERMISSIONS as int, permissions@),
        ensures
            r.method@ == "restrictChatMember"@,
            r.parameters@ == params_done(
                qpiece("chat_id"@, dec_i64(chat_id as int))
                + qpiece("user_id"@, dec_i64(user_id as int))
                + qpiece("permissions"@, rec_text(cat@, CHAT_PERMISSIONS as int, permissions@))
                + (match until_date { Some(x) => qpiece("until_date"@, dec_i64(x as int)), None => Seq::<char>::empty() }),
            ),
    {
        let mut out = String::new();
        push_i64(&mut out, "chat_id", chat_id);
        proof {
            assert(out@ =~= qpiece("chat_id"@, dec_i64(chat_id as int)));
        }
        push_i64(&mut out, "user_id", user_id);
        push_opt_rec(&mut out, cat, CHAT_PERMISSIONS, "permissions", Some(permissions));
        push_opt_i32(&mut out, "until_date", until_date);
        ApiRequest { method: String::from_str("restrictChatMember"), parameters: done(out) }
    }

    /// Builds the `promoteChatMember` request from its typed arguments.
    pub fn promote_chat_member(
        &self,
        chat_id: i64,
        user_id: i64,
        is_anonymous: Option<bool>,
        can_manage_chat: Option<bool>,
        can_post_messages: Option<bool>,
        can_edit_messages: Option<bool>,
        can_delete_messages: Option<bool>,
        can_manage_voice_chats: Option<bool>,
        can_restrict_members: Option<bool>,
        can_promote_members: Option<bool>,
        can_change_info: Option<bool>,
        can_invite_users: Option<bool>,
        can_pin_messages: Option<bool>,
    ) -> (r: ApiRequest)
        ensures
            r.method@ == "promoteChatMember"@,
            r.parameters@ == params_done(
                qpiece("chat_id"@, dec_i64(chat_id as int))
                + qpiece("user_id"@, dec_i64(user_id as int))
                + (match is_anonymous { Some(b) => qpiece("is_anonymous"@, bool_text(b)), None => Seq::<char>::empty() })
                + (match can_manage_chat { Some(b) => qpiece("can_manage_chat"@, bool_text(b)), None => Seq::<char>::empty() })
                + (match can_post_messages { Some(b) => qpiece("can_post_messages"@, bool_text(b)), None => Seq::<char>::empty() })
                + (match can_edit_messages { Some(b) => qpiece("can_edit_messages"@, bool_text(b)), None => Seq::<char>::empty() })
                + (match can_delete_messages { Some(b) => qpiece("can_delete_messages"@, bool_text(b)), None => Seq::<char>::empty() })
                + (match can_manage_voice_chats { Some(b) => qpiece("can_manage_voice_chats"@, bool_text(b)), None => Seq::<char>::empty() })
                + (match can_restrict_members { Some(b) => qpiece("can_restrict_members"@, bool_text(b)), None => Seq::<char>::empty() })
                + (match can_promote_members { Some(b) => qpiece("can_promote_members"@, bool_text(b)), None => Seq::<char>::empty() })
                + (match can_change_info { Some(b) => qpiece("can_change_info"@, bool_text(b)), None => Seq::<char>::empty() })
                + (match can_invite_users { Some(b) => qpiece("can_invite_users"@, bool_text(b)), None => Seq::<char>::empty() })
                + (match can_pin_messages { Some(b) => qpiece("can_pin_messages"@, bool_text(b)), None => Seq::<char>::empty() }),
            ),
    {
        let mut out = String::new();
        push_i64(&mut out, "chat_id", chat_id);
        proof {
            assert(out@ =~= qpiece("chat_id"@, dec_i64(chat_id as int)));
        }
        push_i64(&mut out, "user_id", user_id);
        push_opt_bool(&mut out, "is_anonymous", is_anonymous);
        push_opt_bool(&mut out, "can_manage_chat", can_manage_chat);
        push_opt_bool(&mut out, "can_post_messages", can_post_messages);
        push_opt_bool(&mut out, "can_edit_messages", can_edit_messages);
        push_opt_bool(&mut out, "can_delete_messages", can_delete_messages);
        push_opt_bool(&mut out, "can_manage_voice_chats", can_manage_voice_chats);
        push_opt_bool(&mut out, "can_restrict_members", can_restrict_members);
        push_opt_bool(&mut out, "can_promote_members", can_promote_members);
        push_opt_bool(&mut out, "can_change_info", can_change_info);
        push_opt_bool(&mut out, "can_invite_users", can_invite_users);
        push_opt_bool(&mut out, "can_pin_messages", can_pin_messages);
        ApiRequest { method: String::from_str("promoteChatMember"), parameters: done(out) }
    }

    /// Builds the `setChatAdministratorCustomTitle` request from its typed arguments.
    pub fn set_chat_administrator_custom_title(
        &self,
        chat_id: i64,
        user_id: i64,
        custom_title: &str,
    ) -> (r: ApiRequest)
        ensures
            r.method@ == "setChatAdministratorCustomTitle"@,
            r.parameters@ == params_done(
                qpiece("chat_id"@, dec_i64(chat_id as int))
                + qpiece("user_id"@, dec_i64(user_id as int))
                + qpiece("custom_title"@, custom_title@),
            ),
    {
        let mut out = String::new();
        push_i64(&mut out, "chat_id", chat_id);
        proof {
            assert(out@ =~= qpiece("chat_id"@, dec_i64(chat_id as int)));
        }
        push_i64(&mut out, "user_id", user_id);
        push_piece(&mut out, "custom_title", custom_title);
        ApiRequest { method: String::from_str("setChatAdministratorCustomTitle"), parameters: done(out) }
    }

    /// Builds the `setChatPermissions` request from its typed arguments.
    pub fn set_chat_permissions(
        &self,
        cat: &Catalog,
        chat_id: i64,
        permissions: &Record,
    ) -> (r: ApiRequest)
        requires
            wf_record(cat@, CHAT_PERMISSIONS as int, permissions@),
        ensures
            r.method@ == "setChatPermissions"@,
            r.parameters@ == params_done(
                qpiece("chat_id"@, dec_i64(chat_id as int))
                + qpiece("permissions"@, rec_text(cat@, CHAT_PERMISSIONS as int, permissions@)),
            ),
    {
        let mut out = String::new();
        push_i64(&mut out, "chat_id", chat_id);
        proof {
            assert(out@ =~= qpiece("chat_id"@, dec_i64(chat_id as int)));
        }
        push_opt_rec(&mut out, cat, CHAT_PERMISSIONS, "permissions", Some(permissions));
        ApiRequest { method: String::from_str("setChatPermissions"), parameters: done(out) }
    }

    /// Builds the `exportChatInviteLink` request from its typed arguments.
    pub fn export_chat_invite_link(
        &self,
        chat_id: i64,
    ) -> (r: ApiRequest)
        ensures
            r.method@ == "exportChatInviteLink"@,
            r.parameters@ == params_done(
                qpiece("chat_id"@, dec_i64(chat_id as int)),
            ),
    {
        let mut out = String::new();
        push_i64(&mut out, "chat_id", chat_id);
        proof {
            assert(out@ =~= qpiece("chat_id"@, dec_i64(chat_id as int)));
        }
        ApiRequest { method: String::from_str("exportChatInviteLink"), parameters: done(out) }
    }

    /// Builds the `createChatInviteLink` request from its typed arguments.
    pub fn create_chat_invite_link(
        &self,
        chat_id: i64,
        expire_date: Option<i32>,
        member_limit: Option<i32>,
    ) -> (r: ApiRequest)
        ensures
            r.method@ == "createChatInviteLink"@,
            r.parameters@ == params_done(
                qpiece("chat_id"@, dec_i64(chat_id as int))
                + (match expire_date { Some(x) => qpiece("expire_date"@, dec_i64(x as int)), None => Seq::<char>::empty() })
                + (match member_limit { Some(x) => qpiece("member_limit"@, dec_i64(x as int)), None => Seq::<char>::empty() }),
            ),
    {
        let mut out = String::new();
        push_i64(&mut out, "chat_id", chat_id);
        proof {
            assert(out@ =~= qpiece("chat_id"@, dec_i64(chat_id as int)));
        }
        push_opt_i32(&mut out, "expire_date", expire_date);
        push_opt_i32(&mut out, "member_limit", member_limit);
        ApiRequest { method: String::from_str("createChatInviteLink"), parameters: done(out) }
    }

    /// Builds the `editChatInviteLink` request from its typed arguments.
    pub fn edit_chat_invite_link(
        &self,
        chat_id: i64,
        invite_link: &str,
        expire_date: Option<i32>,
        member_limit: Option<i32>,
    ) -> (r: ApiRequest)
        ensures
            r.method@ == "editChatInviteLink"@,
            r.parameters@ == params_done(
                qpiece("chat_id"@, dec_i64(chat_id as int))
                + qpiece("invite_link"@, invite_link@)
                + (match expire_date { Some(x) => qpiece("expire_date"@, dec_i64(x as int)), None => Seq::<char>::empty() })
                + (match member_limit { Some(x) => qpiece("member_limit"@, dec_i64(x as int)), None => Seq::<char>::empty() }),
            ),
    {
        let mut out = String::new();
        push_i64(&mut out, "chat_id", chat_id);
        proof {
            assert(out@ =~= qpiece("chat_id"@, dec_i64(chat_id as int)));
        }
        push_piece(&mut out, "invite_link", invite_link);
        push_opt_i32(&mut out, "expire_date", expire_date);
        push_opt_i32(&mut out, "member_limit", member_limit);
        ApiRequest { method: String::from_str("editChatInviteLink"), parameters: done(out) }
    }

    /// Builds the `revokeChatInviteLink` request from its typed arguments.
    pub fn revoke_chat_invite_link(
        &self,
        chat_id: i64,
        invite_link: &str,
    ) -> (r: ApiRequest)
        ensures
            r.method@ == "revokeChatInviteLink"@,
            r.parameters@ == params_done(
                qpiece("chat_id"@, dec_i64(chat_id as int))
                + qpiece("invite_link"@, invite_link@),
            ),
    {
        let mut out = String::new();
        push_i64(&mut out, "chat_id", chat_id);
        proof {
            assert(out@ =~= qpiece("chat_id"@, dec_i64(chat_id as int)));
        }
        push_piece(&mut out, "invite_link", invite_link);
        ApiRequest { method: String::from_str("revokeChatInviteLink"), parameters: done(out) }
    }

    /// Builds the `deleteChatPhoto` request from its typed arguments.
    pub fn delete_chat_photo(
        &self,
        chat_id: i64,
    ) -> (r: ApiRequest)
        ensures
            r.method@ == "deleteChatPhoto"@,
            r.parameters@ == params_done(
                qpiece("chat_id"@, dec_i64(chat_id as int)),
            ),
    {
        let mut out = String::new();
        push_i64(&mut out, "chat_id", chat_id);
        proof {
            assert(out@ =~= qpiece("chat_id"@, dec_i64(chat_id as int)));
        }
        ApiRequest { method: String::from_str("deleteChatPhoto"), parameters: done(out) }
    }

    /// Builds the `setChatTitle` request from its typed arguments.
    pub fn set_chat_title(
        &self,
        chat_id: i64,
        title: &str,
    ) -> (r: ApiRequest)
        ensures
            r.method@ == "setChatTitle"@,
            r.parameters@ == params_done(
                qpiece("chat_id"@, dec_i64(chat_id as int))
                + qpiece("title"@, title@),
            ),
    {
        let mut out = String::new();
        push_i64(&mut out, "chat_id", chat_id);
        proof {
            assert(out@ =~= qpiece("chat_id"@, dec_i64(chat_id as int)));
        }
        push_piece(&mut out, "title", title);
        ApiRequest { method: String::from_str("setChatTitle"), parameters: done(out) }
    }

    /// Builds the `setChatDescription` request from its typed arguments.
    pub fn set_chat_description(
        &self,
        chat_id: i64,
        description: &str,
    ) -> (r: ApiRequest)
        ensures
            r.method@ == "setChatDescription"@,
            r.parameters@ == params_done(
                qpiece("chat_id"@, dec_i64(chat_id as int))
                + qpiece("description"@, description@),
            ),
    {
        let mut out = String::new();
        push_i64(&mut out, "chat_id", chat_id);
        proof {
            assert(out@ =~= qpiece("chat_id"@, dec_i64(chat_id as int)));
        }
        push_piece(&mut out, "description", description);
        ApiRequest { method: String::from_str("setChatDescription"), parameters: done(out) }
    }

    /// Builds the `pinChatMessage` request from its typed arguments.
    pub fn pin_chat_message(
        &self,
        chat_id: i64,
        message_id: i32,
        disable_notification: Option<bool>,
    ) -> (r: ApiRequest)
        ensures
            r.method@ == "pinChatMessage"@,
            r.parameters@ == params_done(
                qpiece("chat_id"@, dec_i64(chat_id as int))
                + qpiece("message_id"@, dec_i64(message_id as int))
                + (match disable_notification { Some(b) => qpiece("disable_notification"@, bool_text(b)), None => Seq::<char>::empty() }),
            ),
    {
        let mut out = String::new();
        push_i64(&mut out, "chat_id", chat_id);
        proof {
            assert(out@ =~= qpiece("chat_id"@, dec_i64(chat_id as int)));
        }
        push_i32(&mut out, "message_id", message_id);
        push_opt_bool(&mut out, "disable_notification", disable_notification);
        ApiRequest { method: String::from_str("pinChatMessage"), parameters: done(out) }
    }

    /// Builds the `unpinChatMessage` request from its typed arguments.
    pub fn unpin_chat_message(
        &self,
        chat_id: i64,
        message_id: i32,
    ) -> (r: ApiRequest)
        ensures
            r.method@ == "unpinChatMessage"@,
            r.parameters@ == params_done(
                qpiece("chat_id"@, dec_i64(chat_id as int))
                + qpiece("message_id"@, dec_i64(message_id as int)),
            ),
    {
        let mut out = String::new();
        push_i64(&mut out, "chat_id", chat_id);
        proof {
            assert(out@ =~= qpiece("chat_id"@, dec_i64(chat_id as int)));
        }
        push_i32(&mut out, "message_id", message_id);
        ApiRequest { method: String::from_str("unpinChatMessage"), parameters: done(out) }
    }

    /// Builds the `unpinAllChatMessages` request from its typed arguments.
    pub fn unpin_all_chat_message(
        &self,
        chat_id: i64,
    ) -> (r: ApiRequest)
        ensures
            r.method@ == "unpinAllChatMessages"@,
            r.parameters@ == params_done(
                qpiece("chat_id"@, dec_i64(chat_id as int)),
            ),
    {
        let mut out = String::new();
        push_i64(&mut out, "chat_id", chat_id);
        proof {
            assert(out@ =~= qpiece("chat_id"@, dec_i64(chat_id as int)));
        }
        ApiRequest { method: String::from_str("unpinAllChatMessages"), parameters: done(out) }
    }

    /// Builds the `leaveChat` request from its typed arguments.
    pub fn leave_chat(
        &self,
        chat_id: i64,
    ) -> (r: ApiRequest)
        ensures
            r.method@ == "leaveChat"@,
            r.parameters@ == params_done(
                qpiece("chat_id"@, dec_i64(chat_id as int)),
            ),
    {
        let mut out = String::new();
        push_i64(&mut out, "chat_id", chat_id);
        proof {
            assert(out@ =~= qpiece("chat_id"@, dec_i64(chat_id as int)));
        }
        ApiRequest { method: String::from_str("leaveChat"), parameters: done(out) }
    }

    /// Builds the `getChat` request from its typed arguments.
    pub fn get_chat(
        &self,
        chat_id: i64,
    ) -> (r: ApiRequest)
        ensures
            r.method@ == "getChat"@,
            r.parameters@ == params_done(
                qpiece("chat_id"@, dec_i64(chat_id as int)),
            ),
    {
        let mut out = String::new();
        push_i64(&mut out, "chat_id", chat_id);
        proof {
            assert(out@ =~= qpiece("chat_id"@, dec_i64(chat_id as int)));
        }
        ApiRequest { method: String::from_str("getChat"), parameters: done(out) }
    }

    /// Builds the `getChatAdministrators` request from its typed arguments.
    pub fn get_chat_administrators(
        &self,
        chat_id: i64,
    ) -> (r: ApiRequest)
        ensures
            r.method@ == "getChatAdministrators"@,
            r.parameters@ == params_done(
                qpiece("chat_id"@, dec_i64(chat_id as int)),
            ),
    {
        let mut out = String::new();
        push_i64(&mut out, "chat_id", chat_id);
        proof {
            assert(out@ =~= qpiece("chat_id"@, dec_i64(chat_id as int)));
        }
        ApiRequest { method: String::from_str("getChatAdministrators"), parameters: done(out) }
    }

    /// Builds the `getChatMembersCount` request from its typed arguments.
    pub fn get_chat_chat_members_count(
        &self,
        chat_id: i64,
    ) -> (r: ApiRequest)
        ensures
            r.method@ == "getChatMembersCount"@,
            r.parameters@ == params_done(
                qpiece("chat_id"@, dec_i64(chat_id as int)),
            ),
    {
        let mut out = String::new();
        push_i64(&mut out, "chat_id", chat_id);
        proof {
            assert(out@ =~= qpiece("chat_id"@, dec_i64(chat_id as int)));
        }
        ApiRequest { method: String::from_str("getChatMembersCount"), parameters: done(out) }
    }

    /// Builds the `getChatMember` request from its typed arguments.
    pub fn get_chat_chat_member(
        &self,
        chat_id: i64,
        user_id: i64,
    ) -> (r: ApiRequest)
        ensures
            r.method@ == "getChatMember"@,
            r.parameters@ == params_done(
                qpiece("chat_id"@, dec_i64(chat_id as int))
                + qpiece("user_id"@, dec_i64(user_id as int)),
            ),
    {
        let mut out = String::new();
        push_i64(&mut out, "chat_id", chat_id);
        proof {
            assert(out@ =~= qpiece("chat_id"@, dec_i64(chat_id as int)));
        }
        push_i64(&mut out, "user_id", user_id);
        ApiRequest { method: String::from_str("getChatMember"), parameters: done(out) }
    }

    /// Builds the `setChatStickerSet` request from its typed arguments.
    pub fn set_chat_sticker_set(
        &self,
        chat_id: i64,
        sticker_set_name: &str,
    ) -> (r: ApiRequest)
        ensures
            r.method@ == "setChatStickerSet"@,
            r.parameters@ == params_done(
                qpiece("chat_id"@, dec_i64(chat_id as int))
                + qpiece("sticker_set_name"@, sticker_set_name@),
            ),
    {
        let mut out = String::new();
        push_i64(&mut out, "chat_id", chat_id);
        proof {
            assert(out@ =~= qpiece("chat_id"@, dec_i64(chat_id as int)));
        }
        push_piece(&mut out, "sticker_set_name", sticker_set_name);
        ApiRequest { method: String::from_str("setChatStickerSet"), parameters: done(out) }
    }

    /// Builds the `deleteChatStickerSet` request from its typed arguments.
    pub fn delete_chat_sticker_set(
        &self,
        chat_id: i64,
    ) -> (r: ApiRequest)
        ensures
            r.method@ == "deleteChatStickerSet"@,
            r.parameters@ == params_done(
                qpiece("chat_id"@, dec_i64(chat_id as int)),
            ),
    {
        let mut out = String::new();
        push_i64(&mut out, "chat_id", chat_id);
        proof {
            assert(out@ =~= qpiece("chat_id"@, dec_i64(chat_id as int)));
        }
        ApiRequest { method: String::from_str("deleteChatStickerSet"), parameters: done(out) }
    }

    /// Builds the `answerCallbackQuery` request from its typed arguments.
    pub fn answer_callback_query(
        &self,
        callback_query_id: &str,
        text: &str,
        show_alert: Option<bool>,
        url: Option<&str>,
        cache_time: Option<i32>,
    ) -> (r: ApiRequest)
        ensures
            r.method@ == "answerCallbackQuery"@,
            r.parameters@ == params_done(
                qpiece("callback_query_id"@, callback_query_id@)
                + qpiece("text"@, text@)
                + (match show_alert { Some(b) => qpiece("show_alert"@, bool_text(b)), None => Seq::<char>::empty() })
                + (match url { Some(v) => qpiece("url"@, v@), None => Seq::<char>::empty() })
                + (match cache_time { Some(x) => qpiece("cache_time"@, dec_i64(x as int)), None => Seq::<char>::empty() }),
            ),
    {
        let mut out = String::new();
        push_piece(&mut out, "callback_query_id", callback_query_id);
        proof {
            assert(out@ =~= qpiece("callback_query_id"@, callback_query_id@));
        }
        push_piece(&mut out, "text", text);
        push_opt_bool(&mut out, "show_alert", show_alert);
        push_opt_str(&mut out, "url", url);
        push_opt_i32(&mut out, "cache_time", cache_time);
        ApiRequest { method: String::from_str("answerCallbackQuery"), parameters: done(out) }
    }

    /// Builds the `setMyCommands` request from its typed arguments.
    pub fn set_my_commands(
        &self,
        cat: &Catalog,
        commands: &Vec<Record>,
    ) -> (r: ApiRequest)
        requires
            wf_rec_list(cat@, BOT_COMMAND as int, recs_view(commands@)),
        ensures
            r.method@ == "setMyCommands"@,
            r.parameters@ == params_done(
                qpiece("commands"@, recs_text(cat@, BOT_COMMAND as int, recs_view(commands@))),
            ),
    {
        let mut out = String::new();
        push_opt_recs(&mut out, cat, BOT_COMMAND, "commands", Some(commands));
        proof {
            assert(out@ =~= qpiece("commands"@, recs_text(cat@, BOT_COMMAND as int, recs_view(commands@))));
        }
        ApiRequest { method: String::from_str("setMyCommands"), parameters: done(out) }
    }

    /// Builds the `getMyCommands` request from its typed arguments.
    pub fn get_my_commands(
        &self,
    ) -> (r: ApiRequest)
        ensures
            r.method@ == "getMyCommands"@,
            r.parameters@ == Seq::<char>::empty(),
    {
        ApiRequest { method: String::from_str("getMyCommands"), parameters: String::new() }
    }

    /// Builds the `editMessageText` request from its typed arguments.
    pub fn edit_message_text(
        &self,
        cat: &Catalog,
        chat_id: Option<i64>,
        message_id: Option<i32>,
        inline_message_id: Option<&str>,
        text: Option<&str>,
        parse_mode: Option<&str>,
        entities: Option<&Vec<Record>>,
        disable_web_page_preview: Option<bool>,
        reply_markup_ikm: Option<&Record>,
    ) -> (r: ApiRequest)
        requires
            match entities { Some(rs) => wf_rec_list(cat@, MESSAGE_ENTITY as int, recs_view(rs@)), None => true },
            match reply_markup_ikm { Some(rec) => wf_record(cat@, INLINE_KEYBOARD_MARKUP as int, rec@), None => true },
        ensures
            r.method@ == "editMessageText"@,
            r.parameters@ == params_done(
                (match chat_id { Some(x) => qpiece("chat_id"@, dec_i64(x as int)), None => Seq::<char>::empty() })
                + (match message_id { Some(x) => qpiece("message_id"@, dec_i64(x as int)), None => Seq::<char>::empty() })
                + (match inline_message_id { Some(v) => qpiece("inline_message_id"@, v@), None => Seq::<char>::empty() })
                + (match text { Some(v) => qpiece("text"@, v@), None => Seq::<char>::empty() })
                + (match parse_mode { Some(v) => qpiece("parse_mode"@, v@), None => Seq::<char>::empty() })
                + (match entities { Some(rs) => qpiece("entities"@, recs_text(cat@, MESSAGE_ENTITY as int, recs_view(rs@))), None => Seq::<char>::empty() })
                + (match disable_web_page_preview { Some(b) => qpiece("disable_web_page_preview"@, bool_text(b)), None => Seq::<char>::empty() })
                + (match reply_markup_ikm { Some(rec) => qpiece("reply_markup"@, rec_text(cat@, INLINE_KEYBOARD_MARKUP as int, rec@)), None => Seq::<char>::empty() }),
            ),
    {
        let mut out = String::new();
        push_opt_i64(&mut out, "chat_id", chat_id);
        proof {
            assert(out@ =~= (match chat_id { Some(x) => qpiece("chat_id"@, dec_i64(x as int)), None => Seq::<char>::empty() }));
        }
        push_opt_i32(&mut out, "message_id", message_id);
        push_opt_str(&mut out, "inline_message_id", inline_message_id);
        push_opt_str(&mut out, "text", text);
        push_opt_str(&mut out, "parse_mode", parse_mode);
        push_opt_recs(&mut out, cat, MESSAGE_ENTITY, "entities", entities);
        push_opt_bool(&mut out, "disable_web_page_preview", disable_web_page_preview);
        push_opt_rec(&mut out, cat, INLINE_KEYBOARD_MARKUP, "reply_markup", reply_markup_ikm);
        ApiRequest { method: String::from_str("editMessageText"), parameters: done(out) }
    }

    /// Builds the `editMessageCaption` request from its typed arguments.
    pub fn edit_message_caption(
        &self,
        cat: &Catalog,
        chat_id: Option<i64>,
        message_id: Option<i32>,
        inline_message_id: Option<&str>,
        caption: Option<&str>,
        parse_mode: Option<&str>,
        caption_entities: Option<&Vec<Record>>,
        reply_markup_ikm: Option<&Record>,
    ) -> (r: ApiRequest)
        requires
            match caption_entities { Some(rs) => wf_rec_list(cat@, MESSAGE_ENTITY as int, recs_view(rs@)), None => true },
            match reply_markup_ikm { Some(rec) => wf_record(cat@, INLINE_KEYBOARD_MARKUP as int, rec@), None => true },
        ensures
            r.method@ == "editMessageCaption"@,
            r.parameters@ == params_done(
                (match chat_id { Some(x) => qpiece("chat_id"@, dec_i64(x as int)), None => Seq::<char>::empty() })
                + (match message_id { Some(x) => qpiece("message_id"@, dec_i64(x as int)), None => Seq::<char>::empty() })
                + (match inline_message_id { Some(v) => qpiece("inline_message_id"@, v@), None => Seq::<char>::empty() })
                + (match caption { Some(v) => qpiece("caption"@, v@), None => Seq::<char>::empty() })
                + (match parse_mode { Some(v) => qpiece("parse_mode"@, v@), None => Seq::<char>::empty() })
                + (match caption_entities { Some(rs) => qpiece("caption_entities"@, recs_text(cat@, MESSAGE_ENTITY as int, recs_view(rs@))), None => Seq::<char>::empty() })
                + (match reply_markup_ikm { Some(rec) => qpiece("reply_markup"@, rec_text(cat@, INLINE_KEYBOARD_MARKUP as int, rec@)), None => Seq::<char>::empty() }),
            ),
    {
        let mut out = String::new();
        push_opt_i64(&mut out, "chat_id", chat_id);
        proof {
            assert(out@ =~= (match chat_id { Some(x) => qpiece("chat_id"@, dec_i64(x as int)), None => Seq::<char>::empty() }));
        }
        push_opt_i32(&mut out, "message_id", message_id);
        push_opt_str(&mut out, "inline_message_id", inline_message_id);
        push_opt_str(&mut out, "caption", caption);
        push_opt_str(&mut out, "parse_mode", parse_mode);
        push_opt_recs(&mut out, cat, MESSAGE_ENTITY, "caption_entities", caption_entities);
        push_opt_rec(&mut out, cat, INLINE_KEYBOARD_MARKUP, "reply_markup", reply_markup_ikm);
        ApiRequest { method: String::from_str("editMessageCaption"), parameters: done(out) }
    }

    /// Builds the `editMessageMedia` request from its typed arguments.
    pub fn edit_message_media(
        &self,
        cat: &Catalog,
        chat_id: Option<i64>,
        message_id: Option<i32>,
        inline_message_id: Option<&str>,
        media: Option<&Record>,
        reply_markup_ikm: Option<&Record>,
    ) -> (r: ApiRequest)
        requires
            match media { Some(rec) => wf_record(cat@, INPUT_MEDIA as int, rec@), None => true },
            match reply_markup_ikm { Some(rec) => wf_record(cat@, INLINE_KEYBOARD_MARKUP as int, rec@), None => true },
        ensures
            r.method@ == "editMessageMedia"@,
            r.parameters@ == params_done(
                (match chat_id { Some(x) => qpiece("chat_id"@, dec_i64(x as int)), None => Seq::<char>::empty() })
                + (match message_id { Some(x) => qpiece("message_id"@, dec_i64(x as int)), None => Seq::<char>::empty() })
                + (match inline_message_id { Some(v) => qpiece("inline_message_id"@, v@), None => Seq::<char>::empty() })
                + (match media { Some(rec) => qpiece("media"@, rec_text(cat@, INPUT_MEDIA as int, rec@)), None => Seq::<char>::empty() })
                + (match reply_markup_ikm { Some(rec) => qpiece("reply_markup"@, rec_text(cat@, INLINE_KEYBOARD_MARKUP as int, rec@)), None => Seq::<char>::empty() }),
            ),
    {
        let mut out = String::new();
        push_opt_i64(&mut out, "chat_id", chat_id);
        proof {
            assert(out@ =~= (match chat_id { Some(x) => qpiece("chat_id"@, dec_i64(x as int)), None => Seq::<char>::empty() }));
        }
        push_opt_i32(&mut out, "message_id", message_id);
        push_opt_str(&mut out, "inline_message_id", inline_message_id);
        push_opt_rec(&mut out, cat, INPUT_MEDIA, "media", media);
        push_opt_rec(&mut out, cat, INLINE_KEYBOARD_MARKUP, "reply_markup", reply_markup_ikm);
        ApiRequest { method: String::from_str("editMessageMedia"), parameters: done(out) }
    }

    /// Builds the `editMessageReplyMarkup` request from its typed arguments.
    pub fn edit_message_reply_markup(
        &self,
        cat: &Catalog,
        chat_id: Option<i64>,
        message_id: Option<i32>,
        inline_message_id: Option<&str>,
        reply_markup_ikm: Option<&Record>,
    ) -> (r: ApiRequest)
        requires
            match reply_markup_ikm { Some(rec) => wf_record(cat@, INLINE_KEYBOARD_MARKUP as int, rec@), None => true },
        ensures
            r.method@ == "editMessageReplyMarkup"@,
            r.parameters@ == params_done(
                (match chat_id { Some(x) => qpiece("chat_id"@, dec_i64(x as int)), None => Seq::<char>::empty() })
                + (match message_id { Some(x) => qpiece("message_id"@, dec_i64(x as int)), None => Seq::<char>::empty() })
                + (match inline_message_id { Some(v) => qpiece("inline_message_id"@, v@), None => Seq::<char>::empty() })
                + (match reply_markup_ikm { Some(rec) => qpiece("reply_markup"@, rec_text(cat@, INLINE_KEYBOARD_MARKUP as int, rec@)), None => Seq::<char>::empty() }),
            ),
    {
        let mut out = String::new();
        push_opt_i64(&mut out, "chat_id", chat_id);
        proof {
            assert(out@ =~= (match chat_id { Some(x) => qpiece("chat_id"@, dec_i64(x as int)), None => Seq::<char>::empty() }));
        }
        push_opt_i32(&mut out, "message_id", message_id);
        push_opt_str(&mut out, "inline_message_id", inline_message_id);
        push_opt_rec(&mut out, cat, INLINE_KEYBOARD_MARKUP, "reply_markup", reply_markup_ikm);
        ApiRequest { method: String::from_str("editMessageReplyMarkup"), parameters: done(out) }
    }

    /// Builds the `stopPoll` request from its typed arguments.
    pub fn stop_poll(
        &self,
        cat: &Catalog,
        chat_id: i64,
        message_id: i32,
        reply_markup_ikm: Option<&Record>,
    ) -> (r: ApiRequest)
        requires
            match reply_markup_ikm { Some(rec) => wf_record(cat@, INLINE_KEYBOARD_MARKUP as int, rec@), None => true },
        ensures
            r.method@ == "stopPoll"@,
            r.parameters@ == params_done(
                qpiece("chat_id"@, dec_i64(chat_id as int))
                + qpiece("message_id"@, dec_i64(message_id as int))
                + (match reply_markup_ikm { Some(rec) => qpiece("reply_markup"@, rec_text(cat@, INLINE_KEYBOARD_MARKUP as int, rec@)), None => Seq::<char>::empty() }),
            ),
    {
        let mut out = String::new();
        push_i64(&mut out, "chat_id", chat_id);
        proof {
            assert(out@ =~= qpiece("chat_id"@, dec_i64(chat_id as int)));
        }
        push_i32(&mut out, "message_id", message_id);
        push_opt_rec(&mut out, cat, INLINE_KEYBOARD_MARKUP, "reply_markup", reply_markup_ikm);
        ApiRequest { method: String::from_str("stopPoll"), parameters: done(out) }
    }

    /// Builds the `deleteMessage` request from its typed arguments.
    pub fn delete_message(
        &self,
        chat_id: i64,
        message_id: i32,
    ) -> (r: ApiRequest)
        ensures
            r.method@ == "deleteMessage"@,
            r.parameters@ == params_done(
                qpiece("chat_id"@, dec_i64(chat_id as int))
                + qpiece("message_id"@, dec_i64(message_id as int)),
            ),
    {
        let mut out = String::new();
        push_i64(&mut out, "chat_id", chat_id);
        proof {
            assert(out@ =~= qpiece("chat_id"@, dec_i64(chat_id as int)));
        }
        push_i32(&mut out, "message_id", message_id);
        ApiRequest { method: String::from_str("deleteMessage"), parameters: done(out) }
    }

    /// Builds the `sendSticker` request from its typed arguments.
    pub fn send_sticker(
        &self,
        cat: &Catalog,
        chat_id: i64,
        sticker: &str,
        disable_notification: Option<bool>,
        reply_to_message_id: Option<i32>,
        allow_sending_without_reply: Option<bool>,
        reply_markup_ikm: Option<&Record>,
        reply_markup_rkm: Option<&Record>,
        reply_markup_rkr: Option<&Record>,
        reply_markup_fr: Option<&Record>,
    ) -> (r: ApiRequest)
        requires
            match reply_markup_ikm { Some(rec) => wf_record(cat@, INLINE_KEYBOARD_MARKUP as int, rec@), None => true },
            match reply_markup_rkm { Some(rec) => wf_record(cat@, REPLY_KEYBOARD_MARKUP as int, rec@), None => true },
            match reply_markup_rkr { Some(rec) => wf_record(cat@, REPLY_KEYBOARD_REMOVE as int, rec@), None => true },
            match reply_markup_fr { Some(rec) => wf_record(cat@, FORCE_REPLY as int, rec@), None => true },
        ensures
            r.method@ == "sendSticker"@,
            r.parameters@ == params_done(
                qpiece("chat_id"@, dec_i64(chat_id as int))
                + qpiece("sticker"@, sticker@)
                + (match disable_notification { Some(b) => qpiece("disable_notification"@, bool_text(b)), None => Seq::<char>::empty() })
                + (match reply_to_message_id { Some(x) => qpiece("reply_to_message_id"@, dec_i64(x as int)), None => Seq::<char>::empty() })
                + (match allow_sending_without_reply { Some(b) => qpiece("allow_sending_without_reply"@, bool_text(b)), None => Seq::<char>::empty() })
                + (match reply_markup_ikm { Some(rec) => qpiece("reply_markup"@, rec_text(cat@, INLINE_KEYBOARD_MARKUP as int, rec@)), None => Seq::<char>::empty() })
                + (match reply_markup_rkm { Some(rec) => qpiece("reply_markup"@, rec_text(cat@, REPLY_KEYBOARD_MARKUP as int, rec@)), None => Seq::<char>::empty() })
                + (match reply_markup_rkr { Some(rec) => qpiece("reply_markup"@, rec_text(cat@, REPLY_KEYBOARD_REMOVE as int, rec@)), None => Seq::<char>::empty() })
                + (match reply_markup_fr { Some(rec) => qpiece("reply_markup"@, rec_text(cat@, FORCE_REPLY as int, rec@)), None => Seq::<char>::empty() }),
            ),
    {
        let mut out = String::new();
        push_i64(&mut out, "chat_id", chat_id);
        proof {
            assert(out@ =~= qpiece("chat_id"@, dec_i64(chat_id as int)));
        }
        push_piece(&mut out, "sticker", sticker);
        push_opt_bool(&mut out, "disable_notification", disable_notification);
        push_opt_i32(&mut out, "reply_to_message_id", reply_to_message_id);
        push_opt_bool(&mut out, "allow_sending_without_reply", allow_sending_without_reply);
        push_opt_rec(&mut out, cat, INLINE_KEYBOARD_MARKUP, "reply_markup", reply_markup_ikm);
        push_opt_rec(&mut out, cat, REPLY_KEYBOARD_MARKUP, "reply_markup", reply_markup_rkm);
        push_opt_rec(&mut out, cat, REPLY_KEYBOARD_REMOVE, "reply_markup", reply_markup_rkr);
        push_opt_rec(&mut out, cat, FORCE_REPLY, "reply_markup", reply_markup_fr);
        ApiRequest { method: String::from_str("sendSticker"), parameters: done(out) }
    }

    /// Builds the `getStickerSet` request from its typed arguments.
    pub fn get_sticker_set(
        &self,
        name: &str,
    ) -> (r: ApiRequest)
        ensures
            r.method@ == "getStickerSet"@,
            r.parameters@ == params_done(
                qpiece("name"@, name@),
            ),
    {
        let mut out = String::new();
        push_piece(&mut out, "name", name);
        proof {
            assert(out@ =~= qpiece("name"@, name@));
        }
        ApiRequest { method: String::from_str("getStickerSet"), parameters: done(out) }
    }

    /// Builds the `createNewStickerSet` request from its typed arguments.
    pub fn create_new_sticker_set(
        &self,
        cat: &Catalog,
        user_id: i64,
        name: &str,
        title: &str,
        emojis: &str,
        png_sticker: Option<&str>,
        contains_masks: Option<bool>,
        mask_position: Option<&Record>,
    ) -> (r: ApiRequest)
        requires
            match mask_position { Some(rec) => wf_record(cat@, MASK_POSITION as int, rec@), None => true },
        ensures
            r.method@ == "createNewStickerSet"@,
            r.parameters@ == params_done(
                qpiece("user_id"@, dec_i64(user_id as int))
                + qpiece("name"@, name@)
                + qpiece("title"@, title@)
                + qpiece("emojis"@, emojis@)
                + (match png_sticker { Some(v) => qpiece("png_sticker"@, v@), None => Seq::<char>::empty() })
                + (match contains_masks { Some(b) => qpiece("contains_masks"@, bool_text(b)), None => Seq::<char>::empty() })
                + (match mask_position { Some(rec) => qpiece("mask_position"@, rec_text(cat@, MASK_POSITION as int, rec@)), None => Seq::<char>::empty() }),
            ),
    {
        let mut out = String::new();
        push_i64(&mut out, "user_id", user_id);
        proof {
            assert(out@ =~= qpiece("user_id"@, dec_i64(user_id as int)));
        }
        push_piece(&mut out, "name", name);
        push_piece(&mut out, "title", title);
        push_piece(&mut out, "emojis", emojis);
        push_opt_str(&mut out, "png_sticker", png_sticker);
        push_opt_bool(&mut out, "contains_masks", contains_masks);
        push_opt_rec(&mut out, cat, MASK_POSITION, "mask_position", mask_position);
        ApiRequest { method: String::from_str("createNewStickerSet"), parameters: done(out) }
    }

    /// Builds the `addStickerToSet` request from its typed arguments.
    pub fn add_sticker_to_set(
        &self,
        cat: &Catalog,
        user_id: i64,
        name: &str,
        emojis: &str,
        png_sticker: Option<&str>,
        mask_position: Option<&Record>,
    ) -> (r: ApiRequest)
        requires
            match mask_position { Some(rec) => wf_record(cat@, MASK_POSITION as int, rec@), None => true },
        ensures
            r.method@ == "addStickerToSet"@,
            r.parameters@ == params_done(
                qpiece("user_id"@, dec_i64(user_id as int))
                + qpiece("name"@, name@)
                + qpiece("emojis"@, emojis@)
                + (match png_sticker { Some(v) => qpiece("png_sticker"@, v@), None => Seq::<char>::empty() })
                + (match mask_position { Some(rec) => qpiece("mask_position"@, rec_text(cat@, MASK_POSITION as int, rec@)), None => Seq::<char>::empty() }),
            ),
    {
        let mut out = String::new();
        push_i64(&mut out, "user_id", user_id);
        proof {
            assert(out@ =~= qpiece("user_id"@, dec_i64(user_id as int)));
        }
        push_piece(&mut out, "name", name);
        push_piece(&mut out, "emojis", emojis);
        push_opt_str(&mut out, "png_sticker", png_sticker);
        push_opt_rec(&mut out, cat, MASK_POSITION, "mask_position", mask_position);
        ApiRequest { method: String::from_str("addStickerToSet"), parameters: done(out) }
    }

    /// Builds the `setStickerPositionInSet` request from its typed arguments.
    pub fn add_sticker_position_in_set(
        &self,
        sticker: &str,
        position: i32,
    ) -> (r: ApiRequest)
        ensures
            r.method@ == "setStickerPositionInSet"@,
            r.parameters@ == params_done(
                qpiece("sticker"@, sticker@)
                + qpiece("position"@, dec_i64(position as int)),
            ),
    {
        let mut out = String::new();
        push_piece(&mut out, "sticker", sticker);
        proof {
            assert(out@ =~= qpiece("sticker"@, sticker@));
        }
        push_i32(&mut out, "position", position);
        ApiRequest { method: String::from_str("setStickerPositionInSet"), parameters: done(out) }
    }

    /// Builds the `deleteStickerFromSet` request from its typed arguments.
    pub fn delete_sticker_from_chat(
        &self,
        sticker: &str,
    ) -> (r: ApiRequest)
        ensures
            r.method@ == "deleteStickerFromSet"@,
            r.parameters@ == params_done(
                qpiece("sticker"@, sticker@),
            ),
    {
        let mut out = String::new();
        push_piece(&mut out, "sticker", sticker);
        proof {
            assert(out@ =~= qpiece("sticker"@, sticker@));
        }
        ApiRequest { method: String::from_str("deleteStickerFromSet"), parameters: done(out) }
    }

    /// Builds the `setStickerSetThumb` request from its typed arguments.
    pub fn set_sticker_thumb(
        &self,
        name: &str,
        user_id: i64,
        thumb: Option<&str>,
    ) -> (r: ApiRequest)
        ensures
            r.method@ == "setStickerSetThumb"@,
            r.parameters@ == params_done(
                qpiece("name"@, name@)
                + qpiece("user_id"@, dec_i64(user_id as int))
                + (match thumb { Some(v) => qpiece("thumb"@, v@), None => Seq::<char>::empty() }),
            ),
    {
        let mut out = String::new();
        push_piece(&mut out, "name", name);
        proof {
            assert(out@ =~= qpiece("name"@, name@));
        }
        push_i64(&mut out, "user_id", user_id);
        push_opt_str(&mut out, "thumb", thumb);
        ApiRequest { method: String::from_str("setStickerSetThumb"), parameters: done(out) }
    }
}

} // verus!
