//! The typed syntax tree the code generator lowers. The tree is produced by
//! the external parser and type checker; this boundary only walks it.

use vstd::prelude::*;
use crate::apply::Apply;

verus! {

/// A literal atom.
#[derive(Debug)]
pub enum Prim {
    /// A boolean literal.
    Boolean(bool),
    /// A numeric literal, carried as its host rendering (host numbers are
    /// floating point, which this boundary never computes with).
    Number(String),
    /// A text literal.
    Str(String),
    /// A time literal: integral seconds since the epoch.
    Time(u64),
    /// A monetary literal: a currency code and a string-formatted amount.
    Money(String, String),
}

/// One node of the typed syntax tree.
#[derive(Debug)]
pub enum Syntax {
    /// A literal atom.
    Atom(Prim),
    /// A closure literal: parameter names and a body.
    Block(Vec<String>, Box<Syntax>),
    /// A variable reference as a non-empty path of segments.
    Variable(Vec<String>),
    /// A list literal.
    List(Vec<Syntax>),
    /// A record literal: (key, value) entries in declaration order.
    Record(Vec<(String, Syntax)>),
    /// A named call: ordered (name, argument) pairs.
    Apply(Apply<Syntax>),
}

/// Every variable path in the tree is non-empty (the parser never produces
/// an empty one).
pub open spec fn wf_stx(stx: Syntax) -> bool
    decreases stx, 1int, 0int,
{
    match stx {
        Syntax::Atom(_) => true,
        Syntax::Block(_, body) => wf_stx(*body),
        Syntax::Variable(path) => path@.len() > 0,
        Syntax::List(items) => wf_items(items, 0),
        Syntax::Record(entries) => wf_entries(entries, 0),
        Syntax::Apply(apply) => wf_pairs(apply.pairs, 0),
    }
}

/// Every list element from position `i` on is well formed.
pub open spec fn wf_items(items: Vec<Syntax>, i: int) -> bool
    decreases items, 0int, items@.len() - i,
{
    if i < 0 || i >= items@.len() {
        true
    } else {
        wf_stx(items@[i]) && wf_items(items, i + 1)
    }
}

/// Every record entry value from position `i` on is well formed.
pub open spec fn wf_entries(entries: Vec<(String, Syntax)>, i: int) -> bool
    decreases entries, 0int, entries@.len() - i,
{
    if i < 0 || i >= entries@.len() {
        true
    } else {
        wf_stx(entries@[i].1) && wf_entries(entries, i + 1)
    }
}

/// Every call argument from position `i` on is well formed.
pub open spec fn wf_pairs(pairs: Vec<(String, Syntax)>, i: int) -> bool
    decreases pairs, 0int, pairs@.len() - i,
{
    if i < 0 || i >= pairs@.len() {
        true
    } else {
        wf_stx(pairs@[i].1) && wf_pairs(pairs, i + 1)
    }
}

/// Whether every variable path in the tree is non-empty; callers outside
/// verified code test a tree with this before lowering it.
#[verifier::loop_isolation(false)]
pub fn check_wf(stx: &Syntax) -> (r: bool)
    ensures
        r == wf_stx(*stx),
    decreases *stx, 1int, 0int,
{
    match stx {
        Syntax::Atom(_) => true,
        Syntax::Block(_, body) => {
            proof {
                assert(decreases_to!(*stx => stx->Block_1));
            }
            check_wf(body)
        },
        Syntax::Variable(path) => path.len() > 0,
        Syntax::List(items) => {
            let n = items.len();
            for i in 0..n
                invariant
                    n == items@.len(),
                    wf_items(*items, 0) == wf_items(*items, i as int),
            {
                proof {
                    assert(decreases_to!(*stx => stx->List_0));
                    assert(decreases_to!(*items => items@));
                    assert(decreases_to!(items@ => items@[i as int]));
                }
                if !check_wf(&items[i]) {
                    return false;
                }
            }
            true
        },
        Syntax::Record(entries) => {
            let n = entries.len();
            for i in 0..n
                invariant
                    n == entries@.len(),
                    wf_entries(*entries, 0) == wf_entries(*entries, i as int),
            {
                proof {
                    assert(decreases_to!(*stx => stx->Record_0));
                    assert(decreases_to!(*entries => entries@));
                    assert(decreases_to!(entries@ => entries@[i as int]));
                    assert(decreases_to!(entries@[i as int] => entries@[i as int].1));
                }
                if !check_wf(&entries[i].1) {
                    return false;
                }
            }
            true
        },
        Syntax::Apply(apply) => {
            let n = apply.pairs.len();
            for i in 0..n
                invariant
                    n == apply.pairs@.len(),
                    wf_pairs(apply.pairs, 0) == wf_pairs(apply.pairs, i as int),
            {
                proof {
                    assert(decreases_to!(*stx => stx->Apply_0));
                    assert(decreases_to!(stx->Apply_0 => apply.pairs));
                    assert(decreases_to!(apply.pairs => apply.pairs@));
                    assert(decreases_to!(apply.pairs@ => apply.pairs@[i as int]));
                    assert(decreases_to!(apply.pairs@[i as int] => apply.pairs@[i as int].1));
                }
                if !check_wf(&apply.pairs[i].1) {
                    return false;
                }
            }
            true
        },
    }
}

pub proof fn lemma_wf_items_index(items: Vec<Syntax>, j: int, i: int)
    requires
        0 <= j <= i < items@.len(),
        wf_items(items, j),
    ensures
        wf_stx(items@[i]),
    decreases i - j,
{
    if j < i {
        lemma_wf_items_index(items, j + 1, i);
    }
}

pub proof fn lemma_wf_entries_index(entries: Vec<(String, Syntax)>, j: int, i: int)
    requires
        0 <= j <= i < entries@.len(),
        wf_entries(entries, j),
    ensures
        wf_stx(entries@[i].1),
    decreases i - j,
{
    if j < i {
        lemma_wf_entries_index(entries, j + 1, i);
    }
}

pub proof fn lemma_wf_pairs_index(pairs: Vec<(String, Syntax)>, j: int, i: int)
    requires
        0 <= j <= i < pairs@.len(),
        wf_pairs(pairs, j),
    ensures
        wf_stx(pairs@[i].1),
    decreases i - j,
{
    if j < i {
        lemma_wf_pairs_index(pairs, j + 1, i);
    }
}

} // verus!
