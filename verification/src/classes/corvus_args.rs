//! The argument resolver: given a declared signature and one concrete call,
//! answer what is bound to a parameter name. A variadic parameter collects
//! every matching pair in call order (an empty collection is not an error,
//! even for a required parameter); a non-variadic parameter takes the first
//! matching value, falls back to the absent sentinel when optional, and is
//! an error when required and missing. Declared argument types are not
//! enforced here: presence and arity only.

use vstd::prelude::*;
use crate::apply::Apply;
use crate::classes::ClassSpec;
use crate::classes::corvus_signature::{find_arg, Signature};
use crate::error::{ArgError, BuildError};
use crate::helpers::built_pairs;
use crate::value::{host_of, CorvusValue, Host};

verus! {

/// What a parameter resolves to: one value, or the ordered collection of a
/// variadic parameter's matches.
#[derive(Debug, PartialEq)]
pub enum Resolved {
    Single(CorvusValue),
    Collected(Vec<CorvusValue>),
}

/// The call pairs with their names read as text.
pub open spec fn named(pairs: Seq<(String, CorvusValue)>) -> Seq<(Seq<char>, CorvusValue)> {
    pairs.map(|i: int, p: (String, CorvusValue)| (p.0@, p.1))
}

/// Every value paired with `name`, in call order.
pub open spec fn matching(pairs: Seq<(Seq<char>, CorvusValue)>, name: Seq<char>) -> Seq<
    CorvusValue,
>
    decreases pairs.len(),
{
    if pairs.len() == 0 {
        Seq::empty()
    } else {
        matching(pairs.drop_last(), name) + if pairs.last().0 == name {
            seq![pairs.last().1]
        } else {
            Seq::empty()
        }
    }
}

/// One resolution context: the declared shape and the concrete call.
#[derive(Debug)]
pub struct Args {
    pub signature: Signature,
    pub apply: Apply<CorvusValue>,
}

impl Args {
    /// Pair a signature with a call for resolution.
    pub fn wrap(signature: Signature, apply: Apply<CorvusValue>) -> (r: Args)
        ensures
            r.signature == signature,
            r.apply == apply,
    {
        Args { signature, apply }
    }

    /// Resolve one parameter name. For every signature and call: an
    /// undeclared name is an error; a variadic parameter collects exactly
    /// the matching values in call order, possibly none; a non-variadic
    /// parameter present at least once takes the first occurrence's value;
    /// one absent and required is an error; one absent and optional is the
    /// absent sentinel (the wrapped host nil).
    pub fn get(&self, name: &str) -> (r: Result<Resolved, ArgError>)
        ensures
            match find_arg(self.signature.args@, name@) {
                None => r == Err::<Resolved, ArgError>(ArgError::UndefinedArgument),
                Some(a) => {
                    let ms = matching(named(self.apply@), name@);
                    if a.variadic {
                        r matches Ok(Resolved::Collected(vs)) && vs@ == ms
                    } else if ms.len() > 0 {
                        r matches Ok(Resolved::Single(v)) && v == ms[0]
                    } else if a.required {
                        r == Err::<Resolved, ArgError>(ArgError::MissingRequiredArgument)
                    } else {
                        r matches Ok(Resolved::Single(v)) && host_of(v) == Host::Nil && !(v
                            is Closure)
                    }
                },
            },
    {
        let (variadic, required) = match self.signature.arg(name) {
            None => {
                return Err(ArgError::UndefinedArgument);
            },
            Some(a) => (a.variadic, a.required),
        };
        let mut vs: Vec<CorvusValue> = Vec::new();
        let n = self.apply.len();
        proof {
            assert(named(self.apply@.take(0)) =~= Seq::<(Seq<char>, CorvusValue)>::empty());
        }
        for i in 0..n
            invariant
                n == self.apply@.len(),
                vs@ =~= matching(named(self.apply@.take(i as int)), name@),
        {
            let p = self.apply.pair(i);
            proof {
                assert(named(self.apply@.take(i + 1)).drop_last() =~= named(
                    self.apply@.take(i as int),
                ));
                assert(named(self.apply@.take(i + 1)).last() == (
                    self.apply@[i as int].0@,
                    self.apply@[i as int].1,
                ));
            }
            if crate::value::strings_equal(&p.0, name) {
                vs.push(p.1.duplicate());
            }
        }
        proof {
            assert(self.apply@.take(n as int) =~= self.apply@);
        }
        if variadic {
            Ok(Resolved::Collected(vs))
        } else if vs.len() > 0 {
            let first = vs.remove(0);
            Ok(Resolved::Single(first))
        } else if required {
            Err(ArgError::MissingRequiredArgument)
        } else {
            Ok(Resolved::Single(CorvusValue::from_host(Host::Nil)))
        }
    }
}

/// Law: a call built by the flat-list builder from `[name1, v1, name2, v2]`
/// with distinct names resolves `name1` to exactly `v1` and `name2` to
/// exactly `v2` (each name matches exactly its one paired value).
pub proof fn lemma_flat_build_round_trip(args: Seq<CorvusValue>, n1: Seq<char>, n2: Seq<char>)
    requires
        args.len() == 4,
        host_of(args[0]) matches Host::Sym(s1) && s1@ == n1,
        host_of(args[2]) matches Host::Sym(s2) && s2@ == n2,
        n1 != n2,
    ensures
        built_pairs(args) matches Ok(ps) && ps.len() == 2 && matching(ps, n1) =~= seq![args[1]]
            && matching(ps, n2) =~= seq![args[3]],
{
    let tail = args.skip(2);
    assert(tail.len() == 2);
    assert(tail[0] == args[2]);
    assert(tail[1] == args[3]);
    let tail2 = tail.skip(2);
    assert(tail2 =~= Seq::<CorvusValue>::empty());
    assert(built_pairs(tail2) == Ok::<Seq<(Seq<char>, CorvusValue)>, BuildError>(Seq::empty()));
    assert(built_pairs(tail) matches Ok(pt0) && pt0 == seq![(n2, args[3])] + Seq::<
        (Seq<char>, CorvusValue),
    >::empty());
    let pt = built_pairs(tail)->Ok_0;
    assert(pt =~= seq![(n2, args[3])]);
    assert(built_pairs(args) matches Ok(ps0) && ps0 == seq![(n1, args[1])] + pt);
    let ps = built_pairs(args)->Ok_0;
    assert(ps =~= seq![(n1, args[1]), (n2, args[3])]);
    let one = seq![(n1, args[1])];
    assert(ps.drop_last() =~= one);
    assert(one.drop_last() =~= Seq::<(Seq<char>, CorvusValue)>::empty());
    assert(matching(one.drop_last(), n1) =~= Seq::<CorvusValue>::empty());
    assert(one.last() == (n1, args[1]));
    assert(matching(one, n1) =~= seq![args[1]]);
    assert(matching(one.drop_last(), n2) =~= Seq::<CorvusValue>::empty());
    assert(matching(one, n2) =~= Seq::<CorvusValue>::empty());
    assert(ps.last() == (n2, args[3]));
    assert(matching(ps, n1) =~= matching(one, n1) + Seq::<CorvusValue>::empty());
    assert(matching(ps, n1) =~= seq![args[1]]);
    assert(matching(ps, n2) =~= matching(one, n2) + seq![args[3]]);
    assert(matching(ps, n2) =~= seq![args[3]]);
}

/// What the resolver class contributes to the host: indexed access by
/// parameter name.
pub open spec fn args_class_spec(c: ClassSpec) -> bool {
    &&& c.name@ == "Args"@
    &&& c.class_methods@.len() == 0
    &&& c.instance_methods@.len() == 1 && c.instance_methods@[0]@ == "[]"@
    &&& c.consts@.len() == 0
}

/// The resolver class's registry entry.
pub fn init() -> (r: ClassSpec)
    ensures
        args_class_spec(r),
{
    let mut c = crate::classes::class_spec("Args");
    c.instance_methods.push(String::from_str("[]"));
    c
}

} // verus!
