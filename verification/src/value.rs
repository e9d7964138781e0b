//! The value abstraction: one dynamic host datum, optionally a native
//! closure, behind typed views with explicit nil rejection.
//!
//! A host datum is modeled by what the boundary reads of it: its dynamic
//! kind and the plain payload of that kind. Aggregates hold shared handles
//! (`Rc`), mirroring the host's reference-counted objects: duplicating a
//! value never deep-copies the datum.

use vstd::prelude::*;
use vstd::utf8::{decode_utf8, valid_utf8};
use std::rc::Rc;
use crate::error::{Error, ViewKind};

verus! {

/// A handle to a native closure held by the embedding. The embedding maps
/// the handle to the actual callable; this layer only routes calls to it.
#[derive(Clone, Copy, Debug, PartialEq, Eq, Structural)]
pub struct Block {
    pub handle: u64,
}

/// One dynamic host datum, as this boundary reads it.
#[derive(Debug, PartialEq)]
pub enum Host {
    /// The host's nil.
    Nil,
    /// A host boolean.
    Bool(bool),
    /// A host floating-point number, carried opaquely as its bit pattern;
    /// this layer never does arithmetic on it.
    Num(u64),
    /// A host machine integer (times are integral seconds since the epoch).
    Int(i64),
    /// Host text: raw bytes, not assumed to be valid text.
    Text(Vec<u8>),
    /// A host name token (symbol); always text.
    Sym(String),
    /// A host sequence of datum handles, in native order.
    List(Vec<Rc<Host>>),
    /// A host keyed aggregate: (key, value) handle pairs in native key
    /// order.
    Table(Vec<(Rc<Host>, Rc<Host>)>),
    /// A host procedure, by handle; only the embedding can invoke it.
    Proc(u64),
}

/// The value abstraction: an explicit two-case sum, dispatched exhaustively
/// at every view site. A value is either a wrapped host datum or a native
/// closure; a closure-built value satisfies only the callable view.
#[derive(Debug, PartialEq)]
pub enum CorvusValue {
    Obj(Rc<Host>),
    Closure(Block),
}

/// `h` is host text whose bytes encode exactly the text `s`.
pub open spec fn text_datum(h: Host, s: Seq<char>) -> bool {
    h matches Host::Text(b) && b@ == vstd::utf8::encode_utf8(s)
}

/// The host datum a value stands for. A native closure carries the host's
/// nil as its datum, so every non-callable view rejects it.
pub open spec fn host_of(v: CorvusValue) -> Host {
    match v {
        CorvusValue::Obj(h) => *h,
        CorvusValue::Closure(_) => Host::Nil,
    }
}

/// `v` wraps the host datum `h` (and is not a native closure).
pub open spec fn wraps(v: CorvusValue, h: Host) -> bool {
    &&& !(v is Closure)
    &&& host_of(v) == h
}

/// Relies on `Rc::clone`: the clone is another handle to the same host
/// datum.
#[verifier::external_body]
fn dup_host(h: &Rc<Host>) -> (r: Rc<Host>)
    ensures
        r == *h,
{
    Rc::clone(h)
}

/// Relies on `str::from_utf8`, which accepts exactly the valid UTF-8 byte
/// sequences and decodes them; the result depends on the bytes alone.
#[verifier::external_body]
fn bytes_to_text(bytes: &Vec<u8>) -> (r: Option<String>)
    ensures
        r matches Some(s) ==> valid_utf8(bytes@) && s@ == decode_utf8(bytes@),
        r is None ==> !valid_utf8(bytes@),
{
    match std::str::from_utf8(bytes.as_slice()) {
        Ok(s) => Some(s.to_owned()),
        Err(_) => None,
    }
}

impl CorvusValue {
    /// Wrap one host datum.
    pub fn from_host(h: Host) -> (v: CorvusValue)
        ensures
            wraps(v, h),
    {
        CorvusValue::Obj(Rc::new(h))
    }

    /// Wrap a host boolean.
    pub fn from_bool(b: bool) -> (v: CorvusValue)
        ensures
            wraps(v, Host::Bool(b)),
    {
        CorvusValue::Obj(Rc::new(Host::Bool(b)))
    }

    /// Wrap a host number, given as its bit pattern.
    pub fn from_number_bits(bits: u64) -> (v: CorvusValue)
        ensures
            wraps(v, Host::Num(bits)),
    {
        CorvusValue::Obj(Rc::new(Host::Num(bits)))
    }

    /// Wrap a host integer, as the host does: the machine word reinterpreted
    /// signed.
    pub fn from_u64(i: u64) -> (v: CorvusValue)
        ensures
            wraps(v, Host::Int(i as i64)),
    {
        CorvusValue::Obj(Rc::new(Host::Int(#[verifier::truncate] (i as i64))))
    }

    /// Wrap text as a host text datum (its UTF-8 bytes).
    pub fn from_text(s: &str) -> (v: CorvusValue)
        ensures
            text_datum(host_of(v), s@),
            !(v is Closure),
    {
        CorvusValue::Obj(Rc::new(Host::Text(s.as_bytes_vec())))
    }

    /// Wrap a native closure. The wrapped datum is the host's nil, so only
    /// the callable view accepts the result.
    pub fn from_block(b: Block) -> (v: CorvusValue)
        ensures
            v == CorvusValue::Closure(b),
            host_of(v) == Host::Nil,
    {
        CorvusValue::Closure(b)
    }

    /// Another handle to the same value; never a deep copy.
    pub fn duplicate(&self) -> (r: CorvusValue)
        ensures
            r == *self,
    {
        match self {
            CorvusValue::Obj(h) => CorvusValue::Obj(dup_host(h)),
            CorvusValue::Closure(b) => CorvusValue::Closure(*b),
        }
    }

    /// The numeric view: the bit pattern of the host number, or a
    /// conversion error when the datum is absent or of another kind.
    pub fn try_number(&self) -> (r: Result<u64, Error>)
        ensures
            r == match host_of(*self) {
                Host::Num(bits) => Ok::<u64, Error>(bits),
                _ => Err(Error::Conversion(ViewKind::Number)),
            },
    {
        match self {
            CorvusValue::Obj(h) => match &**h {
                Host::Num(bits) => Ok(*bits),
                _ => Err(Error::Conversion(ViewKind::Number)),
            },
            CorvusValue::Closure(_) => Err(Error::Conversion(ViewKind::Number)),
        }
    }

    /// The time view: the host integer reinterpreted as an unsigned epoch
    /// second count.
    pub fn try_time(&self) -> (r: Result<u64, Error>)
        ensures
            r == match host_of(*self) {
                Host::Int(i) => Ok::<u64, Error>(i as u64),
                _ => Err(Error::Conversion(ViewKind::Time)),
            },
    {
        match self {
            CorvusValue::Obj(h) => match &**h {
                Host::Int(i) => Ok(#[verifier::truncate] (*i as u64)),
                _ => Err(Error::Conversion(ViewKind::Time)),
            },
            CorvusValue::Closure(_) => Err(Error::Conversion(ViewKind::Time)),
        }
    }

    /// The boolean view.
    pub fn try_bool(&self) -> (r: Result<bool, Error>)
        ensures
            r == match host_of(*self) {
                Host::Bool(b) => Ok::<bool, Error>(b),
                _ => Err(Error::Conversion(ViewKind::Bool)),
            },
    {
        match self {
            CorvusValue::Obj(h) => match &**h {
                Host::Bool(b) => Ok(*b),
                _ => Err(Error::Conversion(ViewKind::Bool)),
            },
            CorvusValue::Closure(_) => Err(Error::Conversion(ViewKind::Bool)),
        }
    }

    /// The text view: the host text decoded, an encoding error when its
    /// bytes are not valid text, a conversion error for any other datum.
    pub fn try_string(&self) -> (r: Result<String, Error>)
        ensures
            match host_of(*self) {
                Host::Text(b) => {
                    &&& (valid_utf8(b@) ==> (r matches Ok(s) && s@ == decode_utf8(b@)))
                    &&& (!valid_utf8(b@) ==> r == Err::<String, Error>(Error::Encoding))
                },
                _ => r == Err::<String, Error>(Error::Conversion(ViewKind::Text)),
            },
    {
        match self {
            CorvusValue::Obj(h) => match &**h {
                Host::Text(bytes) => match bytes_to_text(bytes) {
                    Some(s) => Ok(s),
                    None => Err(Error::Encoding),
                },
                _ => Err(Error::Conversion(ViewKind::Text)),
            },
            CorvusValue::Closure(_) => Err(Error::Conversion(ViewKind::Text)),
        }
    }
    /// The handle handed to host-level operations: the wrapped datum, or a
    /// native closure's nil marker.
    pub fn host_datum(&self) -> (r: Rc<Host>)
        ensures
            *r == host_of(*self),
    {
        match self {
            CorvusValue::Obj(h) => dup_host(h),
            CorvusValue::Closure(_) => Rc::new(Host::Nil),
        }
    }

    /// The wrapped host name token's text, when there is one.
    pub fn try_string_of_sym(&self) -> (r: Option<String>)
        ensures
            match host_of(*self) {
                Host::Sym(s) => r matches Some(t) && t@ == s@,
                _ => r is None,
            },
    {
        match self {
            CorvusValue::Obj(h) => match &**h {
                Host::Sym(s) => Some(s.clone()),
                _ => None,
            },
            CorvusValue::Closure(_) => None,
        }
    }

    /// Whether the wrapped datum is the host's nil (a native closure's
    /// marker datum counts).
    pub fn is_nil_datum(&self) -> (r: bool)
        ensures
            r == (host_of(*self) == Host::Nil),
    {
        match self {
            CorvusValue::Obj(h) => match &**h {
                Host::Nil => true,
                _ => false,
            },
            CorvusValue::Closure(_) => true,
        }
    }

    /// The list view: a read-only, length-known window on the host
    /// sequence.
    pub fn try_list(&self) -> (r: Result<List, Error>)
        ensures
            match host_of(*self) {
                Host::List(items) => r matches Ok(l) && l@ == hosts_seq(items@),
                _ => r == Err::<List, Error>(Error::Conversion(ViewKind::List)),
            },
    {
        match self {
            CorvusValue::Obj(h) => match &**h {
                Host::List(items) => Ok(List { items: dup_handles(items) }),
                _ => Err(Error::Conversion(ViewKind::List)),
            },
            CorvusValue::Closure(_) => Err(Error::Conversion(ViewKind::List)),
        }
    }

    /// The record view: an iterable window on the host keyed aggregate.
    pub fn try_record(&self) -> (r: Result<Record, Error>)
        ensures
            match host_of(*self) {
                Host::Table(pairs) => r matches Ok(rec) && rec@ == host_pairs_seq(pairs@),
                _ => r == Err::<Record, Error>(Error::Conversion(ViewKind::Record)),
            },
    {
        match self {
            CorvusValue::Obj(h) => match &**h {
                Host::Table(pairs) => Ok(Record { pairs: dup_pair_handles(pairs) }),
                _ => Err(Error::Conversion(ViewKind::Record)),
            },
            CorvusValue::Closure(_) => Err(Error::Conversion(ViewKind::Record)),
        }
    }

    /// The callable view, decided without invoking anything: a value built
    /// from a native closure always dispatches to that closure, never to
    /// its nil datum; otherwise the host datum must be a procedure. Only
    /// the embedding can perform the invocation itself.
    pub fn call_target(&self) -> (r: Result<Callee, Error>)
        ensures
            r == match *self {
                CorvusValue::Closure(b) => Ok::<Callee, Error>(Callee::Native(b)),
                CorvusValue::Obj(_) => match host_of(*self) {
                    Host::Proc(p) => Ok::<Callee, Error>(Callee::HostProc(p)),
                    _ => Err::<Callee, Error>(Error::Conversion(ViewKind::Callable)),
                },
            },
    {
        match self {
            CorvusValue::Closure(b) => Ok(Callee::Native(*b)),
            CorvusValue::Obj(h) => match &**h {
                Host::Proc(p) => Ok(Callee::HostProc(*p)),
                _ => Err(Error::Conversion(ViewKind::Callable)),
            },
        }
    }

    /// The argument list of a host-level invocation: each value translated
    /// to its host representation, in order.
    pub fn call_arguments(args: &Vec<CorvusValue>) -> (r: Vec<Rc<Host>>)
        ensures
            r@.len() == args@.len(),
            forall|i: int| 0 <= i < args@.len() ==> *(#[trigger] r@[i]) == host_of(args@[i]),
    {
        let mut out: Vec<Rc<Host>> = Vec::new();
        let n = args.len();
        for i in 0..n
            invariant
                n == args@.len(),
                out@.len() == i,
                forall|j: int| 0 <= j < i ==> *(#[trigger] out@[j]) == host_of(args@[j]),
        {
            out.push(args[i].host_datum());
        }
        out
    }

    /// Wrap what a host-level invocation returned: a nil host result is an
    /// error, any other datum becomes a value.
    pub fn wrap_call_result(h: Host) -> (r: Result<CorvusValue, Error>)
        ensures
            h == Host::Nil ==> r == Err::<CorvusValue, Error>(Error::Nil),
            h != Host::Nil ==> (r matches Ok(v) && wraps(v, h)),
    {
        match h {
            Host::Nil => Err(Error::Nil),
            _ => Ok(CorvusValue::Obj(Rc::new(h))),
        }
    }

    /// Gather values into one host sequence datum, taking each value's
    /// wrapped datum (a native closure contributes its nil marker).
    pub fn from_values(values: &Vec<CorvusValue>) -> (v: CorvusValue)
        ensures
            !(v is Closure),
            host_of(v) matches Host::List(items) && hosts_seq(items@) == values@.map(
                |i: int, x: CorvusValue| host_of(x),
            ),
    {
        let mut items: Vec<Rc<Host>> = Vec::new();
        let n = values.len();
        for i in 0..n
            invariant
                n == values@.len(),
                items@.len() == i,
                forall|j: int| 0 <= j < i ==> items@[j] == host_of(#[trigger] values@[j]),
        {
            match &values[i] {
                CorvusValue::Obj(h) => items.push(dup_host(h)),
                CorvusValue::Closure(_) => items.push(Rc::new(Host::Nil)),
            }
        }
        proof {
            assert(hosts_seq(items@) =~= values@.map(|i: int, x: CorvusValue| host_of(x)));
        }
        CorvusValue::Obj(Rc::new(Host::List(items)))
    }

    /// Gather (text key, value) pairs into one host keyed aggregate, the
    /// keys as host text, in the given order.
    pub fn from_entries(entries: &Vec<(String, CorvusValue)>) -> (v: CorvusValue)
        ensures
            !(v is Closure),
            host_of(v) matches Host::Table(pairs) && {
                &&& pairs@.len() == entries@.len()
                &&& forall|i: int|
                    0 <= i < entries@.len() ==> text_datum(
                        *(#[trigger] pairs@[i]).0,
                        entries@[i].0@,
                    ) && pairs@[i].1 == host_of(entries@[i].1)
            },
    {
        let mut pairs: Vec<(Rc<Host>, Rc<Host>)> = Vec::new();
        let n = entries.len();
        for i in 0..n
            invariant
                n == entries@.len(),
                pairs@.len() == i,
                forall|j: int|
                    0 <= j < i ==> text_datum(
                        *(#[trigger] pairs@[j]).0,
                        entries@[j].0@,
                    ) && pairs@[j].1 == host_of(entries@[j].1),
        {
            let key = Rc::new(Host::Text(entries[i].0.as_str().as_bytes_vec()));
            let val = match &entries[i].1 {
                CorvusValue::Obj(h) => dup_host(h),
                CorvusValue::Closure(_) => Rc::new(Host::Nil),
            };
            pairs.push((key, val));
        }
        CorvusValue::Obj(Rc::new(Host::Table(pairs)))
    }
}

/// The hosts that a sequence of handles points at.
pub open spec fn hosts_seq(items: Seq<Rc<Host>>) -> Seq<Host> {
    items.map(|i: int, h: Rc<Host>| *h)
}

/// The host pairs that a sequence of handle pairs points at.
pub open spec fn host_pairs_seq(pairs: Seq<(Rc<Host>, Rc<Host>)>) -> Seq<(Host, Host)> {
    pairs.map(|i: int, p: (Rc<Host>, Rc<Host>)| (*p.0, *p.1))
}

/// Where a call to a value dispatches.
#[derive(Clone, Copy, Debug, PartialEq, Eq, Structural)]
pub enum Callee {
    /// The attached native closure, by handle.
    Native(Block),
    /// The wrapped host procedure, by handle.
    HostProc(u64),
}

fn dup_handles(items: &Vec<Rc<Host>>) -> (r: Vec<Rc<Host>>)
    ensures
        r@ == items@,
{
    let mut out: Vec<Rc<Host>> = Vec::new();
    let n = items.len();
    for i in 0..n
        invariant
            n == items@.len(),
            out@ =~= items@.subrange(0, i as int),
    {
        out.push(dup_host(&items[i]));
    }
    proof {
        assert(out@ =~= items@);
    }
    out
}

fn dup_pair_handles(pairs: &Vec<(Rc<Host>, Rc<Host>)>) -> (r: Vec<(Rc<Host>, Rc<Host>)>)
    ensures
        r@ == pairs@,
{
    let mut out: Vec<(Rc<Host>, Rc<Host>)> = Vec::new();
    let n = pairs.len();
    for i in 0..n
        invariant
            n == pairs@.len(),
            out@ =~= pairs@.subrange(0, i as int),
    {
        out.push((dup_host(&pairs[i].0), dup_host(&pairs[i].1)));
    }
    proof {
        assert(out@ =~= pairs@);
    }
    out
}

/// The list view: read-only, length-known, randomly indexable; out-of-range
/// or nil cells read as absent, never as an error.
#[derive(Debug)]
pub struct List {
    items: Vec<Rc<Host>>,
}

impl View for List {
    type V = Seq<Host>;

    closed spec fn view(&self) -> Seq<Host> {
        hosts_seq(self.items@)
    }
}

impl List {
    /// The native aggregate length.
    pub fn len(&self) -> (r: usize)
        ensures
            r == self@.len(),
    {
        self.items.len()
    }

    /// The cell at `key`: absent when out of range or when the cell holds
    /// nil.
    pub fn at(&self, key: usize) -> (r: Option<CorvusValue>)
        ensures
            key < self@.len() && self@[key as int] != Host::Nil ==> (r matches Some(v) && wraps(
                v,
                self@[key as int],
            )),
            key >= self@.len() || self@[key as int] == Host::Nil ==> r is None,
    {
        if key < self.items.len() {
            match &*self.items[key] {
                Host::Nil => None,
                _ => Some(CorvusValue::Obj(dup_host(&self.items[key]))),
            }
        } else {
            None
        }
    }

    /// Every cell in native order, nil cells included, each as a value.
    pub fn values(&self) -> (r: Vec<CorvusValue>)
        ensures
            r@.len() == self@.len(),
            forall|i: int| 0 <= i < self@.len() ==> wraps(#[trigger] r@[i], self@[i]),
    {
        let mut out: Vec<CorvusValue> = Vec::new();
        let n = self.items.len();
        for i in 0..n
            invariant
                n == self.items@.len(),
                out@.len() == i,
                forall|j: int| 0 <= j < i ==> wraps(#[trigger] out@[j], self@[j]),
        {
            out.push(CorvusValue::Obj(dup_host(&self.items[i])));
        }
        out
    }
}

/// One native key normalized to text: a symbol's text, or host text that
/// decodes; any other key fails to normalize.
pub open spec fn normalized_key(k: Host) -> Option<Seq<char>> {
    match k {
        Host::Sym(s) => Some(s@),
        Host::Text(b) => if valid_utf8(b@) {
            Some(decode_utf8(b@))
        } else {
            None
        },
        _ => None,
    }
}

/// What one native pair contributes to record iteration: its normalized key
/// and its value, unless the key fails to normalize (the documented silent
/// drop) or the value is nil.
pub open spec fn normalized_entry(p: (Host, Host)) -> Option<(Seq<char>, Host)> {
    match normalized_key(p.0) {
        Some(k) => if p.1 == Host::Nil {
            None
        } else {
            Some((k, p.1))
        },
        None => None,
    }
}

/// The entries record iteration still yields from raw position `i` on.
pub open spec fn entries_from(pairs: Seq<(Host, Host)>, i: int) -> Seq<(Seq<char>, Host)>
    decreases pairs.len() - i,
{
    if i < 0 || i >= pairs.len() {
        Seq::empty()
    } else {
        match normalized_entry(pairs[i]) {
            Some(e) => seq![e] + entries_from(pairs, i + 1),
            None => entries_from(pairs, i + 1),
        }
    }
}

/// The first value whose key normalizes to `q`, by native pair order.
pub open spec fn record_lookup(pairs: Seq<(Host, Host)>, q: Seq<char>) -> Option<Host>
    decreases pairs.len(),
{
    if pairs.len() == 0 {
        None
    } else if normalized_key(pairs[0].0) == Some(q) {
        Some(pairs[0].1)
    } else {
        record_lookup(pairs.drop_first(), q)
    }
}

/// The record view: (text key, value) pairs over the host keyed aggregate,
/// in native key order; keys that are neither symbolic nor textual are
/// silently skipped.
#[derive(Debug)]
pub struct Record {
    pairs: Vec<(Rc<Host>, Rc<Host>)>,
}

impl View for Record {
    type V = Seq<(Host, Host)>;

    closed spec fn view(&self) -> Seq<(Host, Host)> {
        host_pairs_seq(self.pairs@)
    }
}

impl Record {
    /// The native keys, in native order, each as a value.
    pub fn keys(&self) -> (r: Vec<CorvusValue>)
        ensures
            r@.len() == self@.len(),
            forall|i: int| 0 <= i < self@.len() ==> wraps(#[trigger] r@[i], self@[i].0),
    {
        let mut out: Vec<CorvusValue> = Vec::new();
        let n = self.pairs.len();
        for i in 0..n
            invariant
                n == self.pairs@.len(),
                out@.len() == i,
                forall|j: int| 0 <= j < i ==> wraps(#[trigger] out@[j], self@[j].0),
        {
            out.push(CorvusValue::Obj(dup_host(&self.pairs[i].0)));
        }
        out
    }

    /// Look `key` up among the normalized native keys: absent when no key
    /// matches or when the matching value is nil.
    pub fn at(&self, key: &str) -> (r: Option<CorvusValue>)
        ensures
            match record_lookup(self@, key@) {
                Some(h) => if h == Host::Nil {
                    r is None
                } else {
                    r matches Some(v) && wraps(v, h)
                },
                None => r is None,
            },
    {
        let n = self.pairs.len();
        proof {
            assert(self@.subrange(0, n as int) =~= self@);
        }
        for i in 0..n
            invariant
                n == self.pairs@.len(),
                record_lookup(self@, key@) == record_lookup(
                    self@.subrange(i as int, n as int),
                    key@,
                ),
        {
            let matched = key_matches(&self.pairs[i].0, key);
            proof {
                assert(self@.subrange(i as int, n as int).drop_first() =~= self@.subrange(
                    i + 1,
                    n as int,
                ));
                assert(self@.subrange(i as int, n as int)[0] == self@[i as int]);
            }
            if matched {
                match &*self.pairs[i].1 {
                    Host::Nil => {
                        return None;
                    },
                    _ => {
                        return Some(CorvusValue::Obj(dup_host(&self.pairs[i].1)));
                    },
                }
            }
        }
        None
    }
}

impl Record {
    /// Every iterable entry, in native key order: each native pair whose
    /// key normalizes and whose value is not nil, as a (text key, value)
    /// pair.
    pub fn entries(&self) -> (r: Vec<(String, CorvusValue)>)
        ensures
            r@.len() == entries_from(self@, 0).len(),
            forall|i: int|
                0 <= i < r@.len() ==> ((#[trigger] r@[i]).0@, host_of(r@[i].1)) == entries_from(
                    self@,
                    0,
                )[i] && !(r@[i].1 is Closure),
    {
        let mut out: Vec<(String, CorvusValue)> = Vec::new();
        let mut it = RecordIter::new(self.duplicate_record());
        loop
            invariant
                it.record@ == self@,
                it.position <= self@.len(),
                out@.len() + entries_from(self@, it.position as int).len() == entries_from(
                    self@,
                    0,
                ).len(),
                out@.map(|i: int, e: (String, CorvusValue)| (e.0@, host_of(e.1))) + entries_from(
                    self@,
                    it.position as int,
                ) =~= entries_from(self@, 0),
                forall|i: int| 0 <= i < out@.len() ==> !((#[trigger] out@[i]).1 is Closure),
            ensures
                out@.map(|i: int, e: (String, CorvusValue)| (e.0@, host_of(e.1))) =~= entries_from(
                    self@,
                    0,
                ),
                forall|i: int| 0 <= i < out@.len() ==> !((#[trigger] out@[i]).1 is Closure),
            decreases self@.len() - it.position,
        {
            let ghost rest = entries_from(self@, it.position as int);
            match it.next() {
                Some(e) => {
                    proof {
                        assert(rest =~= seq![rest[0]] + rest.drop_first());
                        assert(out@.push((e.0, e.1)).map(
                            |i: int, q: (String, CorvusValue)| (q.0@, host_of(q.1)),
                        ) =~= out@.map(|i: int, q: (String, CorvusValue)| (q.0@, host_of(q.1)))
                            + seq![(e.0@, host_of(e.1))]);
                    }
                    out.push(e);
                },
                None => {
                    proof {
                        let m = out@.map(|i: int, e: (String, CorvusValue)| (e.0@, host_of(e.1)));
                        assert(m + rest =~= m);
                        assert(m =~= entries_from(self@, 0));
                    }
                    break;
                },
            }
        }
        out
    }

    /// Another view of the same aggregate.
    pub fn duplicate_record(&self) -> (r: Record)
        ensures
            r@ == self@,
    {
        Record { pairs: dup_pair_handles(&self.pairs) }
    }
}

/// A cursor over a record view's iterable entries, in native key order.
/// Pairs whose key fails to normalize, and pairs whose value is nil, are
/// skipped.
pub struct RecordIter {
    record: Record,
    position: usize,
}

impl RecordIter {
    /// The record being walked.
    pub closed spec fn spec_record(&self) -> Seq<(Host, Host)> {
        self.record@
    }

    /// The raw position of the cursor among the native pairs.
    pub closed spec fn spec_position(&self) -> int {
        self.position as int
    }

    /// Start a cursor at the first native pair.
    pub fn new(record: Record) -> (r: RecordIter)
        ensures
            r.spec_record() == record@,
            r.spec_position() == 0,
    {
        RecordIter { record, position: 0 }
    }

    /// The next iterable entry, advancing the cursor past it; absent once
    /// no pair from the cursor on is iterable.
    pub fn next(&mut self) -> (r: Option<(String, CorvusValue)>)
        requires
            old(self).spec_position() <= old(self).spec_record().len(),
        ensures
            final(self).spec_record() == old(self).spec_record(),
            old(self).spec_position() <= final(self).spec_position() <= old(
                self,
            ).spec_record().len(),
            match r {
                Some(e) => {
                    let rest = entries_from(old(self).spec_record(), old(self).spec_position());
                    &&& rest.len() > 0
                    &&& (e.0@, host_of(e.1)) == rest[0]
                    &&& !(e.1 is Closure)
                    &&& entries_from(final(self).spec_record(), final(self).spec_position())
                        =~= rest.drop_first()
                    &&& final(self).spec_position() > old(self).spec_position()
                },
                None => {
                    &&& entries_from(old(self).spec_record(), old(self).spec_position())
                        =~= Seq::<(Seq<char>, Host)>::empty()
                    &&& final(self).spec_position() == final(self).spec_record().len()
                },
            },
    {
        let n = self.record.pairs.len();
        while self.position < n
            invariant
                n == self.record@.len(),
                self.position <= n,
                self.record == old(self).record,
                entries_from(self.record@, self.position as int) =~= entries_from(
                    old(self).spec_record(),
                    old(self).spec_position(),
                ),
                self.position >= old(self).position,
            decreases n - self.position,
        {
            let i = self.position;
            let key_text = normalize_key(&self.record.pairs[i].0);
            self.position = i + 1;
            match key_text {
                Some(k) => {
                    match &*self.record.pairs[i].1 {
                        Host::Nil => {},
                        _ => {
                            let v = CorvusValue::Obj(dup_host(&self.record.pairs[i].1));
                            return Some((k, v));
                        },
                    }
                },
                None => {},
            }
        }
        None
    }
}

/// The native key normalized to text, when it is a symbol or host text that
/// decodes.
fn normalize_key(k: &Rc<Host>) -> (r: Option<String>)
    ensures
        match normalized_key(**k) {
            Some(q) => r matches Some(s) && s@ == q,
            None => r is None,
        },
{
    match &**k {
        Host::Sym(s) => Some(s.clone()),
        Host::Text(b) => bytes_to_text(b),
        _ => None,
    }
}

/// Whether the native key `k` normalizes to exactly the text `q`.
fn key_matches(k: &Rc<Host>, q: &str) -> (r: bool)
    ensures
        r == (normalized_key(**k) == Some(q@)),
{
    match &**k {
        Host::Sym(s) => strings_equal(s, q),
        Host::Text(b) => match bytes_to_text(b) {
            Some(s) => strings_equal(&s, q),
            None => false,
        },
        _ => false,
    }
}

/// Whether a string equals a borrowed text, by contents.
pub fn strings_equal(a: &String, b: &str) -> (r: bool)
    ensures
        r == (a@ == b@),
{
    let bs = String::from_str(b);
    a.eq(&bs)
}

} // verus!
