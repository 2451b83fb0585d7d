//! The dynamic tree representation of the wire format.
//!
//! A [`ValueModel`] is what the transport layer hands to the codec and what
//! the codec hands back: null, booleans, numbers, strings, ordered arrays
//! and ordered key/value mappings.  Integral numbers are held exactly as
//! `i64`; any other number keeps its wire text unchanged, so that encoding
//! a decoded tree reproduces the text byte for byte.

use vstd::prelude::*;

verus! {

/// Relies on `str`'s `PartialEq`: two string slices are equal exactly when
/// they hold the same characters.
pub assume_specification[ <str as PartialEq>::eq ](a: &str, b: &str) -> (r: bool)
    ensures
        r == (a@ == b@),
;

/// Mathematical model of a wire-format tree.
pub enum JsonV {
    Null,
    Bool(bool),
    Int(int),
    Big(Seq<char>),
    Str(Seq<char>),
    Arr(Seq<JsonV>),
    Obj(Seq<(Seq<char>, JsonV)>),
}

/// The executable wire-format tree.
///
/// `Big` carries the exact wire text of a number that is not an integer
/// (or is too wide for `i64`); the codec never interprets that text, it
/// only passes it through.
#[derive(Debug)]
pub enum ValueModel {
    Null,
    Bool(bool),
    Int(i64),
    Big(String),
    Str(String),
    Arr(Vec<ValueModel>),
    Obj(Vec<(String, ValueModel)>),
}

pub open spec fn vm_view(v: ValueModel) -> JsonV
    decreases v,
{
    match v {
        ValueModel::Null => JsonV::Null,
        ValueModel::Bool(b) => JsonV::Bool(b),
        ValueModel::Int(i) => JsonV::Int(i as int),
        ValueModel::Big(s) => JsonV::Big(s@),
        ValueModel::Str(s) => JsonV::Str(s@),
        ValueModel::Arr(elems) => JsonV::Arr(vm_view_seq(elems@)),
        ValueModel::Obj(entries) => JsonV::Obj(vm_view_entries(entries@)),
    }
}

pub open spec fn vm_view_seq(s: Seq<ValueModel>) -> Seq<JsonV>
    decreases s,
{
    if s.len() == 0 {
        Seq::empty()
    } else {
        seq![vm_view(s[0])] + vm_view_seq(s.drop_first())
    }
}

pub open spec fn vm_view_entries(s: Seq<(String, ValueModel)>) -> Seq<(Seq<char>, JsonV)>
    decreases s,
{
    if s.len() == 0 {
        Seq::empty()
    } else {
        seq![(s[0].0@, vm_view(s[0].1))] + vm_view_entries(s.drop_first())
    }
}

impl View for ValueModel {
    type V = JsonV;

    open spec fn view(&self) -> JsonV {
        vm_view(*self)
    }
}

pub broadcast proof fn lemma_vm_view_seq(s: Seq<ValueModel>)
    ensures
        #[trigger] vm_view_seq(s).len() == s.len(),
        forall|i: int| 0 <= i < s.len() ==> vm_view_seq(s)[i] == vm_view(s[i]),
    decreases s,
{
    if s.len() > 0 {
        lemma_vm_view_seq(s.drop_first());
    }
}

pub broadcast proof fn lemma_vm_view_entries(s: Seq<(String, ValueModel)>)
    ensures
        #[trigger] vm_view_entries(s).len() == s.len(),
        forall|i: int| 0 <= i < s.len() ==> vm_view_entries(s)[i] == (s[i].0@, vm_view(s[i].1)),
    decreases s,
{
    if s.len() > 0 {
        lemma_vm_view_entries(s.drop_first());
    }
}

/// The fragment stored under the first occurrence of `key`, if any.
pub open spec fn jlookup(entries: Seq<(Seq<char>, JsonV)>, key: Seq<char>) -> Option<JsonV>
    decreases entries,
{
    if entries.len() == 0 {
        None
    } else if entries[0].0 == key {
        Some(entries[0].1)
    } else {
        jlookup(entries.drop_first(), key)
    }
}

/// A found fragment is a strict part of the entry list it was found in.
pub proof fn lemma_jlookup_decreases(entries: Seq<(Seq<char>, JsonV)>, key: Seq<char>)
    ensures
        match jlookup(entries, key) {
            Some(v) => decreases_to!(entries => v),
            None => true,
        },
    decreases entries,
{
    if entries.len() > 0 {
        if entries[0].0 == key {
            assert(decreases_to!(entries => entries[0]));
        } else {
            lemma_jlookup_decreases(entries.drop_first(), key);
        }
    }
}

impl ValueModel {
    /// The fragment stored under the first occurrence of `key` in a mapping;
    /// `None` when the key is missing or `self` is not a mapping.
    pub fn get<'a>(&'a self, key: &str) -> (r: Option<&'a ValueModel>)
        ensures
            match *self {
                ValueModel::Obj(_) => {
                    match self@ {
                        JsonV::Obj(entries) => match jlookup(entries, key@) {
                            Some(j) => r is Some && r->0@ == j,
                            None => r is None,
                        },
                        _ => false,
                    }
                },
                _ => r is None,
            },
            match r {
                Some(x) => decreases_to!(*self => *x),
                None => true,
            },
    {
        match self {
            ValueModel::Obj(entries) => {
                proof {
                    lemma_vm_view_entries(entries@);
                    assert(vm_view_entries(entries@).skip(0) =~= vm_view_entries(entries@));
                }
                let n = entries.len();
                let mut i: usize = 0;
                while i < n
                    invariant
                        n == entries@.len(),
                        0 <= i <= n,
                        *self == ValueModel::Obj(*entries),
                        self@ matches JsonV::Obj(es) && es == vm_view_entries(entries@),
                        forall|k: int|
                            0 <= k < i ==> vm_view_entries(entries@)[k].0 != key@,
                        jlookup(vm_view_entries(entries@), key@) == jlookup(
                            vm_view_entries(entries@).skip(i as int),
                            key@,
                        ),
                    decreases n - i,
                {
                    proof {
                        lemma_vm_view_entries(entries@);
                    }
                    if entries[i].0.as_str().eq(key) {
                        proof {
                            let es = vm_view_entries(entries@);
                            assert(es.skip(i as int)[0] == es[i as int]);
                            assert(decreases_to!(*self => *entries));
                            assert(decreases_to!(*entries => entries@[i as int]));
                            assert(decreases_to!(entries@[i as int] => entries@[i as int].1));
                        }
                        return Some(&entries[i].1);
                    }
                    proof {
                        let es = vm_view_entries(entries@);
                        assert(es.skip(i as int)[0] == es[i as int]);
                        assert(es.skip(i as int).drop_first() =~= es.skip(i + 1));
                    }
                    i = i + 1;
                }
                proof {
                    assert(vm_view_entries(entries@).skip(n as int) =~= Seq::empty());
                }
                None
            },
            _ => None,
        }
    }
}

} // verus!
