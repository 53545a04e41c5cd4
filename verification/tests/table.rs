use server_plugin::vtable::{
    op_client_command, op_client_connect, op_load, op_network_id_validated, slot_count,
    slot_index, Slot, SLOT_COUNT,
};

#[test]
fn table_has_contracted_slot_count() {
    assert_eq!(slot_count(), 21);
    assert_eq!(slot_count(), SLOT_COUNT);
}

#[test]
fn slots_stand_in_contracted_order() {
    let order = [
        Slot::Load,
        Slot::Unload,
        Slot::Pause,
        Slot::Unpause,
        Slot::GetPluginDescription,
        Slot::LevelInit,
        Slot::ServerActivate,
        Slot::GameFrame,
        Slot::LevelShutdown,
        Slot::ClientActive,
        Slot::ClientFullyConnect,
        Slot::ClientDisconnect,
        Slot::ClientPutInServer,
        Slot::SetCommandClient,
        Slot::ClientSettingsChanged,
        Slot::ClientConnect,
        Slot::ClientCommand,
        Slot::NetworkIdValidated,
        Slot::OnQueryCvarValueFinished,
        Slot::OnEdictAllocated,
        Slot::OnEdictFreed,
    ];
    assert_eq!(order.len(), slot_count());
    for (expected, slot) in order.iter().enumerate() {
        assert_eq!(slot_index(*slot), expected);
    }
}

#[test]
fn slot_offsets_are_stable_across_calls() {
    assert_eq!(slot_index(Slot::GetPluginDescription), 4);
    assert_eq!(
        slot_index(Slot::GetPluginDescription),
        slot_index(Slot::GetPluginDescription)
    );
    assert_eq!(slot_index(Slot::OnEdictFreed), SLOT_COUNT - 1);
}

#[test]
fn operations_return_documented_values() {
    assert!(op_load());
    assert_eq!(op_client_connect(), 0);
    assert_eq!(op_client_command(), 0);
    assert_eq!(op_network_id_validated(), 0);
}
