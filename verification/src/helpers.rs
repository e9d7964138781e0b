//! Small shared operations on host data: key normalization, host
//! truthiness, and the builder that turns a flat host argument list into a
//! call.

use vstd::prelude::*;
use crate::apply::Apply;
use crate::error::{BuildError, Error, ViewKind};
use crate::value::{host_of, normalized_key, CorvusValue, Host};

verus! {

/// A host datum's text form as a key: a symbol's text or decodable host
/// text; anything else is rejected with the error of the view that failed.
pub fn stringify_key(key: &CorvusValue) -> (r: Result<String, Error>)
    ensures
        match normalized_key(host_of(*key)) {
            Some(q) => r matches Ok(s) && s@ == q,
            None => r == Err::<String, Error>(
                match host_of(*key) {
                    Host::Text(_) => Error::Encoding,
                    _ => Error::Conversion(ViewKind::Text),
                },
            ),
        },
{
    match key.try_string_of_sym() {
        Some(s) => Ok(s),
        None => key.try_string(),
    }
}

/// Host truthiness: nil is false, a host boolean is its value, every other
/// datum is true.
pub open spec fn spec_truthy(h: Host) -> bool {
    match h {
        Host::Nil => false,
        Host::Bool(b) => b,
        _ => true,
    }
}

/// Whether the host treats the datum as true.
pub fn truthy(it: &CorvusValue) -> (r: bool)
    ensures
        r == spec_truthy(host_of(*it)),
{
    match it.try_bool() {
        Ok(b) => b,
        Err(_) => !it.is_nil_datum(),
    }
}

/// What building a call from a flat list yields for an even-length list:
/// the (name text, value) pairs in order, or the error for the first
/// name-position element that is not a name token.
pub open spec fn built_pairs(args: Seq<CorvusValue>) -> Result<
    Seq<(Seq<char>, CorvusValue)>,
    BuildError,
>
    decreases args.len(),
{
    if args.len() < 2 {
        Ok(Seq::empty())
    } else {
        match host_of(args[0]) {
            Host::Sym(s) => match built_pairs(args.skip(2)) {
                Ok(rest) => Ok(seq![(s@, args[1])] + rest),
                Err(e) => Err(e),
            },
            _ => Err(BuildError::Type),
        }
    }
}

/// Build a call from an even-length flat list alternating name tokens and
/// values: an empty or odd-length list is an arity error, a name position
/// holding anything but a name token is a type error, and otherwise the
/// call holds one pair per (name, value) pair of the list, in order.
pub fn build_apply(args: &Vec<CorvusValue>) -> (r: Result<Apply<CorvusValue>, BuildError>)
    ensures
        args@.len() == 0 || args@.len() % 2 != 0 ==> r == Err::<Apply<CorvusValue>, BuildError>(
            BuildError::Arity,
        ),
        args@.len() > 0 && args@.len() % 2 == 0 ==> match built_pairs(args@) {
            Ok(ps) => r matches Ok(a) && a@.len() == ps.len() && (forall|i: int|
                0 <= i < ps.len() ==> ((#[trigger] a@[i]).0@, a@[i].1) == ps[i]),
            Err(e) => r == Err::<Apply<CorvusValue>, BuildError>(e),
        },
{
    let n = args.len();
    if n == 0 || n % 2 != 0 {
        return Err(BuildError::Arity);
    }
    let mut apply: Apply<CorvusValue> = Apply::with_capacity(n / 2);
    let mut i: usize = 0;
    proof {
        assert(args@.skip(0) =~= args@);
        if let Ok(all) = built_pairs(args@) {
            assert(all =~= all.take(0) + all);
        }
    }
    loop
        invariant
            n == args@.len(),
            n > 0 && n % 2 == 0,
            i % 2 == 0,
            i <= n,
            built_pairs(args@) matches Ok(all) ==> {
                &&& built_pairs(args@.skip(i as int)) matches Ok(rest)
                &&& apply@.len() + rest.len() == all.len()
                &&& (forall|j: int|
                    0 <= j < apply@.len() ==> ((#[trigger] apply@[j]).0@, apply@[j].1) == all[j])
                &&& all =~= all.take(apply@.len() as int) + rest
            },
            built_pairs(args@) is Err ==> built_pairs(args@.skip(i as int)) == built_pairs(args@),
        ensures
            built_pairs(args@) matches Ok(ps) && apply@.len() == ps.len() && (forall|j: int|
                0 <= j < ps.len() ==> ((#[trigger] apply@[j]).0@, apply@[j].1) == ps[j]),
        decreases n - i,
    {
        if i >= n {
            proof {
                assert(args@.skip(n as int) =~= Seq::<CorvusValue>::empty());
                assert(built_pairs(args@.skip(n as int)) == Ok::<
                    Seq<(Seq<char>, CorvusValue)>,
                    BuildError,
                >(Seq::empty()));
                if let Ok(all) = built_pairs(args@) {
                    assert(apply@.len() == all.len());
                }
            }
            break;
        }
        let ghost suffix = args@.skip(i as int);
        proof {
            assert(suffix.len() == n - i);
            assert(suffix[0] == args@[i as int]);
            assert(suffix[1] == args@[i as int + 1]);
            assert(suffix.skip(2) =~= args@.skip(i as int + 2));
        }
        let name = match args[i].try_string_of_sym() {
            Some(s) => s,
            None => {
                proof {
                    assert(built_pairs(suffix) == Err::<
                        Seq<(Seq<char>, CorvusValue)>,
                        BuildError,
                    >(BuildError::Type));
                }
                return Err(BuildError::Type);
            },
        };
        let value = args[i + 1].duplicate();
        let ghost before = apply@;
        apply.push_arg(name.as_str(), value);
        proof {
            assert(apply@.drop_last() =~= before);
            assert(apply@ =~= before.push(apply@.last()));
            if let Ok(all) = built_pairs(args@) {
                let k = before.len() as int;
                let rest = built_pairs(suffix)->Ok_0;
                let rest2 = built_pairs(suffix.skip(2))->Ok_0;
                assert(rest =~= seq![(host_of(args@[i as int])->Sym_0@, args@[i as int + 1])]
                    + rest2);
                assert(all == all.take(k) + rest);
                assert(all.take(k).len() == k);
                assert(all[k] == rest[0]);
                assert((apply@[k].0@, apply@[k].1) == all[k]);
                assert(all.take(k + 1) =~= all.take(k).push(all[k]));
                assert(all =~= all.take(k + 1) + rest2);
            }
        }
        i = i + 2;
    }
    Ok(apply)
}

} // verus!
