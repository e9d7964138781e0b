//! The compiler class as seen from this boundary. Parsing and type
//! inference are the external front end's work; the lowering itself is
//! [`crate::emitter::emit`], and a finished compilation is gathered into a
//! [`crate::classes::corvus_script::ScriptData`]. This module contributes
//! the class's registry entry.

use vstd::prelude::*;
use crate::classes::ClassSpec;

verus! {

/// What the compiler class contributes to the host.
pub open spec fn compiler_class_spec(c: ClassSpec) -> bool {
    &&& c.name@ == "Compiler"@
    &&& c.class_methods@.len() == 0
    &&& c.instance_methods@.len() == 1 && c.instance_methods@[0]@ == "compile"@
    &&& c.consts@.len() == 0
}

/// The compiler class's registry entry.
pub fn init() -> (r: ClassSpec)
    ensures
        compiler_class_spec(r),
{
    let mut c = crate::classes::class_spec("Compiler");
    c.instance_methods.push(String::from_str("compile"));
    c
}

} // verus!
