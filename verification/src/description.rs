//! The plugin description string, as the exact bytes handed to the host.
//!
//! The host reads the description through a table slot as a C string: a
//! pointer it follows up to the first NUL byte. The bytes therefore must
//! end in a NUL and hold no NUL before it; the FFI boundary keeps one copy
//! of them alive for the life of the process.

use vstd::prelude::*;

verus! {

/// The description's bytes, terminating NUL included:
/// "Cross-Platform Rust Plugin Template".
pub open spec fn description_bytes() -> Seq<u8> {
    seq![
        67u8, 114u8, 111u8, 115u8, 115u8, 45u8, 80u8, 108u8, 97u8, 116u8, 102u8, 111u8, 114u8,
        109u8, 32u8, 82u8, 117u8, 115u8, 116u8, 32u8, 80u8, 108u8, 117u8, 103u8, 105u8, 110u8,
        32u8, 84u8, 101u8, 109u8, 112u8, 108u8, 97u8, 116u8, 101u8, 0u8,
    ]
}

/// Builds the description as a byte vector.
pub fn plugin_description() -> (v: Vec<u8>)
    ensures
        v@ == description_bytes(),
{
    let mut v: Vec<u8> = Vec::new();
    v.push(67);
    v.push(114);
    v.push(111);
    v.push(115);
    v.push(115);
    v.push(45);
    v.push(80);
    v.push(108);
    v.push(97);
    v.push(116);
    v.push(102);
    v.push(111);
    v.push(114);
    v.push(109);
    v.push(32);
    v.push(82);
    v.push(117);
    v.push(115);
    v.push(116);
    v.push(32);
    v.push(80);
    v.push(108);
    v.push(117);
    v.push(103);
    v.push(105);
    v.push(110);
    v.push(32);
    v.push(84);
    v.push(101);
    v.push(109);
    v.push(112);
    v.push(108);
    v.push(97);
    v.push(116);
    v.push(101);
    v.push(0);
    proof {
        assert(v@ =~= description_bytes());
    }
    v
}

/// Law: the description is a non-empty C string — it ends in a NUL byte and
/// holds none before it, so a host that reads up to the first NUL sees the
/// whole, non-empty text.
pub proof fn lemma_description_c_string()
    ensures
        description_bytes().len() > 1,
        description_bytes().last() == 0u8,
        forall|i: int| 0 <= i < description_bytes().len() - 1 ==> description_bytes()[i] != 0u8,
{
}

} // verus!
