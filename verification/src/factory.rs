//! Interface-name resolution: the decision the factory entry point makes.
//!
//! The host probes the plugin with interface-name strings. Exactly one name
//! is implemented; the factory answers with a match flag and a status code
//! (0 on a match, 1 otherwise). The comparison is an exact byte-for-byte
//! match: no prefixes, no case folding, no versions other than the one
//! contracted string.

use vstd::prelude::*;

verus! {

/// The one contracted interface name, the ASCII bytes of
/// "ISERVERPLUGINCALLBACKS003".
pub open spec fn contracted_name() -> Seq<u8> {
    seq![
        73u8, 83u8, 69u8, 82u8, 86u8, 69u8, 82u8, 80u8, 76u8, 85u8, 71u8, 73u8, 78u8,
        67u8, 65u8, 76u8, 76u8, 66u8, 65u8, 67u8, 75u8, 83u8, 48u8, 48u8, 51u8,
    ]
}

/// Status code the factory reports on a match.
pub const STATUS_OK: i32 = 0;

/// Status code the factory reports when the name is not recognized.
pub const STATUS_FAILED: i32 = 1;

/// What the factory answers for a requested name: whether the singleton is
/// handed out, and the status code written for the caller.
#[derive(Clone, Copy, Debug, PartialEq, Eq, Structural)]
pub struct FactoryDecision {
    pub matched: bool,
    pub status: i32,
}

/// The decision the factory owes for a requested name.
pub open spec fn decision_for(name: Seq<u8>) -> FactoryDecision {
    if name == contracted_name() {
        FactoryDecision { matched: true, status: STATUS_OK }
    } else {
        FactoryDecision { matched: false, status: STATUS_FAILED }
    }
}

/// Builds the contracted interface name as a byte vector.
pub fn contracted_name_bytes() -> (v: Vec<u8>)
    ensures
        v@ == contracted_name(),
{
    let mut v: Vec<u8> = Vec::new();
    v.push(73);
    v.push(83);
    v.push(69);
    v.push(82);
    v.push(86);
    v.push(69);
    v.push(82);
    v.push(80);
    v.push(76);
    v.push(85);
    v.push(71);
    v.push(73);
    v.push(78);
    v.push(67);
    v.push(65);
    v.push(76);
    v.push(76);
    v.push(66);
    v.push(65);
    v.push(67);
    v.push(75);
    v.push(83);
    v.push(48);
    v.push(48);
    v.push(51);
    proof {
        assert(v@ =~= contracted_name());
    }
    v
}

/// Exact equality of two byte slices.
pub fn bytes_equal(a: &[u8], b: &[u8]) -> (r: bool)
    ensures
        r == (a@ == b@),
{
    if a.len() != b.len() {
        return false;
    }
    let n: usize = a.len();
    let mut i: usize = 0;
    while i < n
        invariant
            n == a@.len(),
            n == b@.len(),
            i <= n,
            forall|k: int| 0 <= k < i ==> a@[k] == b@[k],
        decreases n - i,
    {
        if a[i] != b[i] {
            return false;
        }
        i += 1;
    }
    proof {
        assert(a@ =~= b@);
    }
    true
}

/// Resolves a requested interface name. The decision is a pure function of
/// the name's bytes: a match (status 0) exactly on the contracted name, a
/// failure (status 1) on every other byte string.
pub fn resolve_interface(name: &[u8]) -> (d: FactoryDecision)
    ensures
        d == decision_for(name@),
        d.matched <==> name@ == contracted_name(),
        d.matched ==> d.status == STATUS_OK,
        !d.matched ==> d.status == STATUS_FAILED,
{
    let expected = contracted_name_bytes();
    if bytes_equal(name, expected.as_slice()) {
        FactoryDecision { matched: true, status: STATUS_OK }
    } else {
        FactoryDecision { matched: false, status: STATUS_FAILED }
    }
}

/// Law: the factory's answer depends on the requested name alone, so any two
/// calls with equal names yield identical decisions — it is idempotent and
/// free of ordering dependencies between calls.
pub proof fn lemma_factory_idempotent(name: Seq<u8>, d1: FactoryDecision, d2: FactoryDecision)
    requires
        d1 == decision_for(name),
        d2 == decision_for(name),
    ensures
        d1 == d2,
{
}

} // verus!
