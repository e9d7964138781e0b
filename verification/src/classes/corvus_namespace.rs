//! The namespace class as seen from this boundary. Function storage and
//! call dispatch are the external namespace's own algorithm; this module
//! only contributes the class's registry entry. The signature and call
//! values that flow through the namespace are built with
//! [`crate::classes::corvus_signature`] and [`crate::helpers::build_apply`].

use vstd::prelude::*;
use crate::classes::ClassSpec;

verus! {

/// What the namespace class contributes to the host: construction, function
/// definition, and the call-convention entry point.
pub open spec fn namespace_class_spec(c: ClassSpec) -> bool {
    &&& c.name@ == "Namespace"@
    &&& c.class_methods@.len() == 1 && c.class_methods@[0]@ == "new"@
    &&& c.instance_methods@.len() == 2
    &&& c.instance_methods@[0]@ == "define"@
    &&& c.instance_methods@[1]@ == "corvus_call"@
    &&& c.consts@.len() == 0
}

/// The namespace class's registry entry.
pub fn init() -> (r: ClassSpec)
    ensures
        namespace_class_spec(r),
{
    let mut c = crate::classes::class_spec("Namespace");
    c.class_methods.push(String::from_str("new"));
    c.instance_methods.push(String::from_str("define"));
    c.instance_methods.push(String::from_str("corvus_call"));
    c
}

} // verus!
