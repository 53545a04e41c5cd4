//! The dispatch-table layout: the contracted slots, their order, and the
//! value each operation's body computes.
//!
//! The host reads the table at fixed offsets, so the slot count and order
//! are part of the wire contract; a slot added, removed or moved breaks
//! compatibility silently. This module fixes that layout once: `slot_order`
//! is the contracted sequence, `slot_pos` the contracted position of each
//! operation, and `slot_index` the executable offset lookup proved against
//! both. The `op_` functions give the result each operation returns; their
//! side effects (diagnostic output) stay outside the library and never
//! touch the table or the singleton.

use vstd::prelude::*;

verus! {

/// One slot of the dispatch table, named after its operation.
#[derive(Clone, Copy, Debug, PartialEq, Eq, Structural)]
pub enum Slot {
    Load,
    Unload,
    Pause,
    Unpause,
    GetPluginDescription,
    LevelInit,
    ServerActivate,
    GameFrame,
    LevelShutdown,
    ClientActive,
    ClientFullyConnect,
    ClientDisconnect,
    ClientPutInServer,
    SetCommandClient,
    ClientSettingsChanged,
    ClientConnect,
    ClientCommand,
    NetworkIdValidated,
    OnQueryCvarValueFinished,
    OnEdictAllocated,
    OnEdictFreed,
}

/// The contracted number of slots.
pub const SLOT_COUNT: usize = 21;

/// The contracted order of the dispatch-table slots.
pub open spec fn slot_order() -> Seq<Slot> {
    seq![
        Slot::Load,
        Slot::Unload,
        Slot::Pause,
        Slot::Unpause,
        Slot::GetPluginDescription,
        Slot::LevelInit,
        Slot::ServerActivate,
        Slot::GameFrame,
        Slot::LevelShutdown,
        Slot::ClientActive,
        Slot::ClientFullyConnect,
        Slot::ClientDisconnect,
        Slot::ClientPutInServer,
        Slot::SetCommandClient,
        Slot::ClientSettingsChanged,
        Slot::ClientConnect,
        Slot::ClientCommand,
        Slot::NetworkIdValidated,
        Slot::OnQueryCvarValueFinished,
        Slot::OnEdictAllocated,
        Slot::OnEdictFreed,
    ]
}

/// The contracted position of each operation in the table.
pub open spec fn slot_pos(s: Slot) -> int {
    match s {
        Slot::Load => 0,
        Slot::Unload => 1,
        Slot::Pause => 2,
        Slot::Unpause => 3,
        Slot::GetPluginDescription => 4,
        Slot::LevelInit => 5,
        Slot::ServerActivate => 6,
        Slot::GameFrame => 7,
        Slot::LevelShutdown => 8,
        Slot::ClientActive => 9,
        Slot::ClientFullyConnect => 10,
        Slot::ClientDisconnect => 11,
        Slot::ClientPutInServer => 12,
        Slot::SetCommandClient => 13,
        Slot::ClientSettingsChanged => 14,
        Slot::ClientConnect => 15,
        Slot::ClientCommand => 16,
        Slot::NetworkIdValidated => 17,
        Slot::OnQueryCvarValueFinished => 18,
        Slot::OnEdictAllocated => 19,
        Slot::OnEdictFreed => 20,
    }
}

/// The number of slots the table holds.
pub fn slot_count() -> (n: usize)
    ensures
        n == SLOT_COUNT,
        n == slot_order().len(),
{
    21
}

/// The table offset, in slots, at which the host finds the given operation.
pub fn slot_index(s: Slot) -> (i: usize)
    ensures
        i < SLOT_COUNT,
        i == slot_pos(s),
        slot_order()[i as int] == s,
{
    match s {
        Slot::Load => 0,
        Slot::Unload => 1,
        Slot::Pause => 2,
        Slot::Unpause => 3,
        Slot::GetPluginDescription => 4,
        Slot::LevelInit => 5,
        Slot::ServerActivate => 6,
        Slot::GameFrame => 7,
        Slot::LevelShutdown => 8,
        Slot::ClientActive => 9,
        Slot::ClientFullyConnect => 10,
        Slot::ClientDisconnect => 11,
        Slot::ClientPutInServer => 12,
        Slot::SetCommandClient => 13,
        Slot::ClientSettingsChanged => 14,
        Slot::ClientConnect => 15,
        Slot::ClientCommand => 16,
        Slot::NetworkIdValidated => 17,
        Slot::OnQueryCvarValueFinished => 18,
        Slot::OnEdictAllocated => 19,
        Slot::OnEdictFreed => 20,
    }
}

/// Law: the table has exactly `SLOT_COUNT` slots; every operation stands at
/// its contracted position and at no other, so the order is a permutation
/// of the operations with no slot repeated, added or dropped.
pub proof fn lemma_slot_order_exact()
    ensures
        slot_order().len() == SLOT_COUNT,
        forall|s: Slot| 0 <= #[trigger] slot_pos(s) < SLOT_COUNT,
        forall|s: Slot| slot_order()[#[trigger] slot_pos(s)] == s,
        forall|i: int| 0 <= i < SLOT_COUNT ==> slot_pos(#[trigger] slot_order()[i]) == i,
{
    assert forall|i: int| 0 <= i < SLOT_COUNT implies slot_pos(#[trigger] slot_order()[i]) == i by {
        assert(slot_pos(slot_order()[0]) == 0);
        assert(slot_pos(slot_order()[1]) == 1);
        assert(slot_pos(slot_order()[2]) == 2);
        assert(slot_pos(slot_order()[3]) == 3);
        assert(slot_pos(slot_order()[4]) == 4);
        assert(slot_pos(slot_order()[5]) == 5);
        assert(slot_pos(slot_order()[6]) == 6);
        assert(slot_pos(slot_order()[7]) == 7);
        assert(slot_pos(slot_order()[8]) == 8);
        assert(slot_pos(slot_order()[9]) == 9);
        assert(slot_pos(slot_order()[10]) == 10);
        assert(slot_pos(slot_order()[11]) == 11);
        assert(slot_pos(slot_order()[12]) == 12);
        assert(slot_pos(slot_order()[13]) == 13);
        assert(slot_pos(slot_order()[14]) == 14);
        assert(slot_pos(slot_order()[15]) == 15);
        assert(slot_pos(slot_order()[16]) == 16);
        assert(slot_pos(slot_order()[17]) == 17);
        assert(slot_pos(slot_order()[18]) == 18);
        assert(slot_pos(slot_order()[19]) == 19);
        assert(slot_pos(slot_order()[20]) == 20);
    }
}

/// Result of the load operation: the plugin reports a successful load.
pub fn op_load() -> (ok: bool)
    ensures
        ok,
{
    true
}

/// Verdict of the client-connect operation: the plugin lets the host
/// proceed (0, continue).
pub fn op_client_connect() -> (verdict: i32)
    ensures
        verdict == 0,
{
    0
}

/// Verdict of the client-command operation: the plugin lets the host
/// proceed (0, continue).
pub fn op_client_command() -> (verdict: i32)
    ensures
        verdict == 0,
{
    0
}

/// Verdict of the network-id-validated operation: the plugin lets the host
/// proceed (0, continue).
pub fn op_network_id_validated() -> (verdict: i32)
    ensures
        verdict == 0,
{
    0
}

} // verus!
