//! A declared function shape: ordered named arguments, each typed,
//! required-or-optional and variadic-or-not, plus a return type and a
//! totality flag. Built once when a function is declared, immutable
//! thereafter. No shape validation happens here: an odd shape only
//! surfaces as a resolution anomaly when exercised.

use vstd::prelude::*;
use crate::classes::ClassSpec;
use crate::classes::corvus_type::Type;

verus! {

/// One declared argument.
#[derive(Debug)]
pub struct Argument {
    pub name: String,
    pub ty: Type,
    pub required: bool,
    pub variadic: bool,
}

/// A declared function shape. Argument order determines nothing
/// semantically except diagnostic ordering: the resolver looks arguments up
/// by name.
#[derive(Debug)]
pub struct Signature {
    pub args: Vec<Argument>,
    pub return_type: Type,
    pub total: bool,
}

/// The declared argument named `name`, by first declaration.
pub open spec fn find_arg(args: Seq<Argument>, name: Seq<char>) -> Option<Argument>
    decreases args.len(),
{
    if args.len() == 0 {
        None
    } else if args[0].name@ == name {
        Some(args[0])
    } else {
        find_arg(args.drop_first(), name)
    }
}

impl Signature {
    /// An empty shape with room for `n` arguments; the return type starts
    /// as the top type and the shape as partial until set.
    pub fn with_capacity(n: usize) -> (r: Signature)
        ensures
            r.args@ =~= Seq::<Argument>::empty(),
            r.return_type == Type::Any,
            r.total == false,
    {
        Signature { args: Vec::with_capacity(n), return_type: Type::Any, total: false }
    }

    /// Set the declared return type.
    pub fn set_return_type(&mut self, t: Type)
        ensures
            final(self).return_type == t,
            final(self).args == old(self).args,
            final(self).total == old(self).total,
    {
        self.return_type = t;
    }

    /// Set whether the function is total over its declared argument types.
    pub fn set_total(&mut self, total: bool)
        ensures
            final(self).total == total,
            final(self).args == old(self).args,
            final(self).return_type == old(self).return_type,
    {
        self.total = total;
    }

    /// Append one argument, preserving declaration order.
    pub fn add_argument(&mut self, arg: Argument)
        ensures
            final(self).args@ == old(self).args@.push(arg),
            final(self).return_type == old(self).return_type,
            final(self).total == old(self).total,
    {
        self.args.push(arg);
    }

    /// The declared argument under `name`, by first declaration.
    pub fn arg(&self, name: &str) -> (r: Option<&Argument>)
        ensures
            match find_arg(self.args@, name@) {
                Some(a) => r matches Some(b) && *b == a,
                None => r is None,
            },
    {
        let n = self.args.len();
        proof {
            assert(self.args@.subrange(0, n as int) =~= self.args@);
        }
        for i in 0..n
            invariant
                n == self.args@.len(),
                find_arg(self.args@, name@) == find_arg(
                    self.args@.subrange(i as int, n as int),
                    name@,
                ),
        {
            proof {
                assert(self.args@.subrange(i as int, n as int)[0] == self.args@[i as int]);
                assert(self.args@.subrange(i as int, n as int).drop_first() =~= self.args@.subrange(
                    i + 1,
                    n as int,
                ));
            }
            if crate::value::strings_equal(&self.args[i].name, name) {
                return Some(&self.args[i]);
            }
        }
        None
    }
}

/// Build a declared shape from its parts: the arguments in declaration
/// order, the return type, and the totality flag.
pub fn build_signature(args: Vec<Argument>, return_type: Type, total: bool) -> (r: Signature)
    ensures
        r.args@ == args@,
        r.return_type == return_type,
        r.total == total,
{
    let ghost all = args@;
    let mut rest = args;
    let mut signature = Signature::with_capacity(rest.len());
    signature.set_return_type(return_type);
    signature.set_total(total);
    while rest.len() > 0
        invariant
            signature.args@ + rest@ =~= all,
            signature.return_type == return_type,
            signature.total == total,
        decreases rest@.len(),
    {
        let arg = rest.remove(0);
        signature.add_argument(arg);
        proof {
            assert(signature.args@ + rest@ =~= all);
        }
    }
    proof {
        assert(signature.args@ =~= all);
    }
    signature
}

/// What the signature class contributes to the host.
pub open spec fn signature_class_spec(c: ClassSpec) -> bool {
    &&& c.name@ == "Signature"@
    &&& c.class_methods@.len() == 1 && c.class_methods@[0]@ == "new"@
    &&& c.instance_methods@.len() == 0
    &&& c.consts@.len() == 0
}

/// The signature class's registry entry.
pub fn init() -> (r: ClassSpec)
    ensures
        signature_class_spec(r),
{
    let mut c = crate::classes::class_spec("Signature");
    c.class_methods.push(String::from_str("new"));
    c
}

} // verus!
