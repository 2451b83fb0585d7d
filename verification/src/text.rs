//! Canonical text form of a [`ValueModel`].
//!
//! The serializer is deterministic: mappings print their entries in the
//! order they are held, strings are escaped by one fixed rule, integers
//! print through the exact decimal formatter, and non-integral numbers
//! print their stored wire text unchanged.

use vstd::prelude::*;
use vstd::string::StrSliceExecFns;
use crate::value::JsonV;
use crate::value::ValueModel;
use crate::value::vm_view;
use crate::value::vm_view_seq;
use crate::value::vm_view_entries;
use crate::value::lemma_vm_view_seq;
use crate::value::lemma_vm_view_entries;
use crate::num::dec_i64;
use crate::num::push_char;
use crate::num::append_i64;

verus! {

pub open spec fn spec_hex(d: nat) -> char {
    if d == 0 {
        '0'
    } else if d == 1 {
        '1'
    } else if d == 2 {
        '2'
    } else if d == 3 {
        '3'
    } else if d == 4 {
        '4'
    } else if d == 5 {
        '5'
    } else if d == 6 {
        '6'
    } else if d == 7 {
        '7'
    } else if d == 8 {
        '8'
    } else if d == 9 {
        '9'
    } else if d == 10 {
        'a'
    } else if d == 11 {
        'b'
    } else if d == 12 {
        'c'
    } else if d == 13 {
        'd'
    } else if d == 14 {
        'e'
    } else {
        'f'
    }
}

/// How one character prints inside a quoted string.
pub open spec fn esc_char(c: char) -> Seq<char> {
    if c == '"' {
        seq!['\\', '"']
    } else if c == '\\' {
        seq!['\\', '\\']
    } else if c == '\n' {
        seq!['\\', 'n']
    } else if c == '\r' {
        seq!['\\', 'r']
    } else if c == '\t' {
        seq!['\\', 't']
    } else if c as u32 == 8 {
        seq!['\\', 'b']
    } else if c as u32 == 12 {
        seq!['\\', 'f']
    } else if (c as u32) < 32 {
        seq!['\\', 'u', '0', '0', spec_hex((c as u32 / 16) as nat), spec_hex((c as u32 % 16) as nat)]
    } else {
        seq![c]
    }
}

pub open spec fn esc_str(s: Seq<char>) -> Seq<char>
    decreases s,
{
    if s.len() == 0 {
        Seq::empty()
    } else {
        esc_char(s[0]) + esc_str(s.drop_first())
    }
}

/// `s` escaped, between double quotes.
pub open spec fn squote(s: Seq<char>) -> Seq<char> {
    seq!['"'] + esc_str(s) + seq!['"']
}

proof fn lemma_esc_push(s: Seq<char>, c: char)
    ensures
        esc_str(s.push(c)) == esc_str(s) + esc_char(c),
    decreases s,
{
    reveal_with_fuel(esc_str, 3);
    assert(s.push(c)[0] == if s.len() == 0 { c } else { s[0] });
    if s.len() == 0 {
        assert(s.push(c).drop_first() =~= Seq::<char>::empty());
        assert(esc_str(s.push(c)) =~= esc_str(s) + esc_char(c));
    } else {
        assert(s.push(c).drop_first() =~= s.drop_first().push(c));
        lemma_esc_push(s.drop_first(), c);
        assert(esc_str(s.push(c)) =~= esc_str(s) + esc_char(c));
    }
}

/// The canonical text of a wire-format tree.
pub open spec fn sdump(j: JsonV) -> Seq<char>
    decreases j,
{
    match j {
        JsonV::Null => seq!['n', 'u', 'l', 'l'],
        JsonV::Bool(b) => if b {
            seq!['t', 'r', 'u', 'e']
        } else {
            seq!['f', 'a', 'l', 's', 'e']
        },
        JsonV::Int(i) => dec_i64(i),
        JsonV::Big(s) => s,
        JsonV::Str(s) => squote(s),
        JsonV::Arr(elems) => seq!['['] + sdump_list(elems) + seq![']'],
        JsonV::Obj(entries) => seq!['{'] + sdump_obj(entries) + seq!['}'],
    }
}

pub open spec fn sdump_list(elems: Seq<JsonV>) -> Seq<char>
    decreases elems,
{
    if elems.len() == 0 {
        Seq::empty()
    } else {
        sdump(elems[0]) + sdump_list_rest(elems.drop_first())
    }
}

pub open spec fn sdump_list_rest(elems: Seq<JsonV>) -> Seq<char>
    decreases elems,
{
    if elems.len() == 0 {
        Seq::empty()
    } else {
        seq![','] + sdump(elems[0]) + sdump_list_rest(elems.drop_first())
    }
}

/// One mapping entry: quoted key, colon, value.
pub open spec fn sentry(e: (Seq<char>, JsonV)) -> Seq<char>
    decreases e,
{
    squote(e.0) + seq![':'] + sdump(e.1)
}

pub open spec fn sdump_obj(entries: Seq<(Seq<char>, JsonV)>) -> Seq<char>
    decreases entries,
{
    if entries.len() == 0 {
        Seq::empty()
    } else {
        sentry(entries[0]) + sdump_obj_rest(entries.drop_first())
    }
}

pub open spec fn sdump_obj_rest(entries: Seq<(Seq<char>, JsonV)>) -> Seq<char>
    decreases entries,
{
    if entries.len() == 0 {
        Seq::empty()
    } else {
        seq![','] + sentry(entries[0]) + sdump_obj_rest(entries.drop_first())
    }
}

proof fn lemma_list_rest_push(s: Seq<JsonV>, x: JsonV)
    ensures
        sdump_list_rest(s.push(x)) == sdump_list_rest(s) + seq![','] + sdump(x),
    decreases s,
{
    reveal_with_fuel(sdump_list_rest, 3);
    assert(s.push(x)[0] == if s.len() == 0 { x } else { s[0] });
    if s.len() == 0 {
        assert(s.push(x).drop_first() =~= Seq::<JsonV>::empty());
        assert(sdump_list_rest(s.push(x)) =~= sdump_list_rest(s) + seq![','] + sdump(x));
    } else {
        assert(s.push(x).drop_first() =~= s.drop_first().push(x));
        lemma_list_rest_push(s.drop_first(), x);
        assert(sdump_list_rest(s.push(x)) =~= sdump_list_rest(s) + seq![','] + sdump(x));
    }
}

proof fn lemma_obj_rest_push(s: Seq<(Seq<char>, JsonV)>, e: (Seq<char>, JsonV))
    ensures
        sdump_obj_rest(s.push(e)) == sdump_obj_rest(s) + seq![','] + sentry(e),
    decreases s,
{
    reveal_with_fuel(sdump_obj_rest, 3);
    assert(s.push(e)[0] == if s.len() == 0 { e } else { s[0] });
    if s.len() == 0 {
        assert(s.push(e).drop_first() =~= Seq::<(Seq<char>, JsonV)>::empty());
        assert(sdump_obj_rest(s.push(e)) =~= sdump_obj_rest(s) + seq![','] + sentry(e));
    } else {
        assert(s.push(e).drop_first() =~= s.drop_first().push(e));
        lemma_obj_rest_push(s.drop_first(), e);
        assert(sdump_obj_rest(s.push(e)) =~= sdump_obj_rest(s) + seq![','] + sentry(e));
    }
}

fn hex_char(d: u32) -> (c: char)
    requires
        d < 16,
    ensures
        c == spec_hex(d as nat),
{
    if d == 0 {
        '0'
    } else if d == 1 {
        '1'
    } else if d == 2 {
        '2'
    } else if d == 3 {
        '3'
    } else if d == 4 {
        '4'
    } else if d == 5 {
        '5'
    } else if d == 6 {
        '6'
    } else if d == 7 {
        '7'
    } else if d == 8 {
        '8'
    } else if d == 9 {
        '9'
    } else if d == 10 {
        'a'
    } else if d == 11 {
        'b'
    } else if d == 12 {
        'c'
    } else if d == 13 {
        'd'
    } else if d == 14 {
        'e'
    } else {
        'f'
    }
}

/// Appends `s` with every character escaped as [`esc_char`] says.
pub fn append_escaped(out: &mut String, s: &str)
    ensures
        final(out)@ == old(out)@ + esc_str(s@),
{
    let n = s.unicode_len();
    let mut i: usize = 0;
    proof {
        assert(s@.take(0) =~= Seq::<char>::empty());
        assert(out@ =~= old(out)@ + esc_str(s@.take(0)));
    }
    while i < n
        invariant
            i <= n,
            n == s@.len(),
            out@ == old(out)@ + esc_str(s@.take(i as int)),
        decreases n - i,
    {
        let c = s.get_char(i);
        if c == '"' {
            push_char(out, '\\');
            push_char(out, '"');
        } else if c == '\\' {
            push_char(out, '\\');
            push_char(out, '\\');
        } else if c == '\n' {
            push_char(out, '\\');
            push_char(out, 'n');
        } else if c == '\r' {
            push_char(out, '\\');
            push_char(out, 'r');
        } else if c == '\t' {
            push_char(out, '\\');
            push_char(out, 't');
        } else if c as u32 == 8 {
            push_char(out, '\\');
            push_char(out, 'b');
        } else if c as u32 == 12 {
            push_char(out, '\\');
            push_char(out, 'f');
        } else if (c as u32) < 32 {
            push_char(out, '\\');
            push_char(out, 'u');
            push_char(out, '0');
            push_char(out, '0');
            push_char(out, hex_char((c as u32) / 16));
            push_char(out, hex_char((c as u32) % 16));
        } else {
            push_char(out, c);
        }
        proof {
            lemma_esc_push(s@.take(i as int), c);
            assert(s@.take(i + 1) =~= s@.take(i as int).push(c));
            assert(out@ =~= old(out)@ + esc_str(s@.take(i + 1)));
        }
        i = i + 1;
    }
    proof {
        assert(s@.take(n as int) =~= s@);
    }
}

/// Appends the canonical text of `v`.
#[verifier::loop_isolation(false)]
#[verifier::rlimit(60)]
pub fn append_dump(out: &mut String, v: &ValueModel)
    ensures
        final(out)@ == old(out)@ + sdump(v@),
    decreases v,
{
    match v {
        ValueModel::Null => {
            out.append("null");
            proof {
                reveal_strlit("null");
                assert("null"@ =~= seq!['n', 'u', 'l', 'l']);
            }
        },
        ValueModel::Bool(b) => {
            if *b {
                out.append("true");
                proof {
                    reveal_strlit("true");
                    assert("true"@ =~= seq!['t', 'r', 'u', 'e']);
                }
            } else {
                out.append("false");
                proof {
                    reveal_strlit("false");
                    assert("false"@ =~= seq!['f', 'a', 'l', 's', 'e']);
                }
            }
        },
        ValueModel::Int(i) => {
            append_i64(out, *i);
        },
        ValueModel::Big(s) => {
            out.append(s.as_str());
        },
        ValueModel::Str(s) => {
            push_char(out, '"');
            append_escaped(out, s.as_str());
            push_char(out, '"');
            assert(out@ =~= old(out)@ + sdump(v@));
        },
        ValueModel::Arr(elems) => {
            let ghost ev = vm_view_seq(elems@);
            proof {
                lemma_vm_view_seq(elems@);
            }
            push_char(out, '[');
            let n = elems.len();
            if n > 0 {
                proof {
                    assert(decreases_to!(elems@ => elems@[0]));
                }
                append_dump(out, &elems[0]);
                let mut i: usize = 1;
                proof {
                    assert(ev.subrange(1, 1) =~= Seq::<JsonV>::empty());
                }
                while i < n
                    invariant
                        1 <= i <= n,
                        n == elems@.len(),
                        ev == vm_view_seq(elems@),
                        ev.len() == n,
                        forall|k: int| 0 <= k < n ==> ev[k] == vm_view(elems@[k]),
                        out@ == old(out)@ + seq!['['] + sdump(ev[0]) + sdump_list_rest(
                            ev.subrange(1, i as int),
                        ),
                        v == ValueModel::Arr(*elems),
                    decreases n - i,
                {
                    push_char(out, ',');
                    proof {
                        assert(decreases_to!(*v => *elems));
                        assert(decreases_to!(*elems => elems@[i as int]));
                    }
                    append_dump(out, &elems[i]);
                    proof {
                        lemma_list_rest_push(ev.subrange(1, i as int), ev[i as int]);
                        assert(ev.subrange(1, i + 1) =~= ev.subrange(1, i as int).push(
                            ev[i as int],
                        ));
                        assert(out@ =~= old(out)@ + seq!['['] + sdump(ev[0]) + sdump_list_rest(
                            ev.subrange(1, i + 1),
                        ));
                    }
                    i = i + 1;
                }
                proof {
                    assert(ev.drop_first() =~= ev.subrange(1, n as int));
                }
            }
            push_char(out, ']');
            assert(out@ =~= old(out)@ + sdump(v@));
        },
        ValueModel::Obj(entries) => {
            let ghost ev = vm_view_entries(entries@);
            proof {
                lemma_vm_view_entries(entries@);
            }
            push_char(out, '{');
            let n = entries.len();
            if n > 0 {
                push_char(out, '"');
                append_escaped(out, entries[0].0.as_str());
                push_char(out, '"');
                push_char(out, ':');
                proof {
                    assert(decreases_to!(entries@ => entries@[0]));
                }
                append_dump(out, &entries[0].1);
                proof {
                    assert(ev.subrange(1, 1) =~= Seq::<(Seq<char>, JsonV)>::empty());
                    assert(out@ =~= old(out)@ + seq!['{'] + sentry(ev[0]) + sdump_obj_rest(
                        ev.subrange(1, 1),
                    ));
                }
                let mut i: usize = 1;
                while i < n
                    invariant
                        1 <= i <= n,
                        n == entries@.len(),
                        ev == vm_view_entries(entries@),
                        ev.len() == n,
                        forall|k: int|
                            0 <= k < n ==> ev[k] == (entries@[k].0@, vm_view(entries@[k].1)),
                        out@ == old(out)@ + seq!['{'] + sentry(ev[0]) + sdump_obj_rest(
                            ev.subrange(1, i as int),
                        ),
                        v == ValueModel::Obj(*entries),
                    decreases n - i,
                {
                    push_char(out, ',');
                    push_char(out, '"');
                    append_escaped(out, entries[i].0.as_str());
                    push_char(out, '"');
                    push_char(out, ':');
                    proof {
                        assert(decreases_to!(*v => *entries));
                        assert(decreases_to!(*entries => entries@[i as int]));
                        assert(decreases_to!(entries@[i as int] => entries@[i as int].1));
                    }
                    append_dump(out, &entries[i].1);
                    proof {
                        lemma_obj_rest_push(ev.subrange(1, i as int), ev[i as int]);
                        assert(ev.subrange(1, i + 1) =~= ev.subrange(1, i as int).push(
                            ev[i as int],
                        ));
                        assert(out@ =~= old(out)@ + seq!['{'] + sentry(ev[0]) + sdump_obj_rest(
                            ev.subrange(1, i + 1),
                        ));
                    }
                    i = i + 1;
                }
                proof {
                    assert(ev.drop_first() =~= ev.subrange(1, n as int));
                }
            }
            push_char(out, '}');
            assert(out@ =~= old(out)@ + sdump(v@));
        },
    }
}

/// The canonical text of `v` as an owned string.
pub fn dump(v: &ValueModel) -> (r: String)
    ensures
        r@ == sdump(v@),
{
    let mut s = String::new();
    append_dump(&mut s, v);
    assert(s@ =~= sdump(v@));
    s
}

} // verus!
