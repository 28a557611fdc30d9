use rfid_scanner::auth::AuthService;
use rfid_scanner::bus::{EventBus, DEFAULT_BUS_CAPACITY};
use rfid_scanner::common::SystemMessage;
use rfid_scanner::orchestrator::{process_next, Action, DoorState, Orchestrator};

#[test]
fn bus_delivers_in_send_order() {
    let mut bus = EventBus::new_default();
    bus.send(SystemMessage::OnCard(1)).unwrap();
    bus.send(SystemMessage::WifiConnected).unwrap();
    bus.send(SystemMessage::OnCard(3)).unwrap();
    assert!(matches!(bus.recv(), Some(SystemMessage::OnCard(1))));
    assert!(matches!(bus.recv(), Some(SystemMessage::WifiConnected)));
    assert!(matches!(bus.recv(), Some(SystemMessage::OnCard(3))));
    assert!(bus.recv().is_none());
}

#[test]
fn full_bus_hands_the_message_back() {
    let mut bus = EventBus::new_default();
    for k in 0..DEFAULT_BUS_CAPACITY as u32 {
        assert!(bus.send(SystemMessage::OnCard(k)).is_ok());
    }
    assert!(!bus.has_room());
    let refused = bus.send(SystemMessage::OnCard(99));
    assert!(matches!(refused, Err(SystemMessage::OnCard(99))));
    // Nothing was dropped: all ten originals still come out in order.
    for k in 0..DEFAULT_BUS_CAPACITY as u32 {
        assert!(matches!(bus.recv(), Some(SystemMessage::OnCard(c)) if c == k));
    }
    assert!(bus.recv().is_none());
}

#[test]
fn grant_unlocks_then_dwell_relocks() {
    let mut orch = Orchestrator::new();
    assert_eq!(orch.door_state(), DoorState::Locked);
    let actions = orch.step(SystemMessage::OnAuth(1234, "1234".to_string(), true));
    assert_eq!(orch.door_state(), DoorState::Unlocked);
    assert_eq!(actions.len(), 3);
    assert!(matches!(&actions[0], Action::SpeakText(t) if t == "Access granted 1234."));
    assert!(matches!(actions[1], Action::SetDoorUnlocked));
    assert!(matches!(actions[2], Action::StartDwellTimer));
    let actions = orch.dwell_expired();
    assert_eq!(orch.door_state(), DoorState::Locked);
    assert_eq!(actions.len(), 1);
    assert!(matches!(actions[0], Action::SetDoorLocked));
}

#[test]
fn denial_speaks_and_leaves_door_locked() {
    let mut orch = Orchestrator::new();
    let actions = orch.step(SystemMessage::OnAuth(9999, String::new(), false));
    assert_eq!(orch.door_state(), DoorState::Locked);
    assert_eq!(actions.len(), 1);
    assert!(matches!(&actions[0], Action::SpeakText(t) if t == "Access denied 9999."));
}

#[test]
fn card_scan_dispatches_to_the_auth_checker() {
    let mut orch = Orchestrator::new();
    let actions = orch.step(SystemMessage::OnCard(42));
    assert_eq!(actions.len(), 1);
    assert!(matches!(actions[0], Action::Authorize(42)));
    assert_eq!(orch.door_state(), DoorState::Locked);
}

#[test]
fn network_ready_starts_server_and_speaks() {
    let mut orch = Orchestrator::new();
    let actions = orch.step(SystemMessage::WifiConnected);
    assert_eq!(actions.len(), 2);
    assert!(matches!(actions[0], Action::StartServer));
    assert!(matches!(&actions[1], Action::SpeakText(t) if t == "Connected"));
}

#[test]
fn speak_request_passes_through_in_any_door_state() {
    let mut orch = Orchestrator::new();
    orch.step(SystemMessage::OnAuth(1, "1".to_string(), true));
    assert_eq!(orch.door_state(), DoorState::Unlocked);
    let actions = orch.step(SystemMessage::Speak("hello".to_string()));
    assert_eq!(actions.len(), 1);
    assert!(matches!(&actions[0], Action::SpeakText(t) if t == "hello"));
    assert_eq!(orch.door_state(), DoorState::Unlocked);
}

#[test]
fn firmware_buffer_is_handed_to_the_applier() {
    let mut orch = Orchestrator::new();
    let actions = orch.step(SystemMessage::OnOtaBuffer(vec![0xde, 0xad]));
    assert_eq!(actions.len(), 1);
    assert!(matches!(&actions[0], Action::ApplyFirmware(b) if b == &vec![0xde, 0xad]));
}

#[test]
fn failed_firmware_apply_does_not_reboot_and_events_continue() {
    let mut orch = Orchestrator::new();
    orch.step(SystemMessage::OnOtaBuffer(vec![1, 2, 3]));
    let actions = orch.firmware_result(false);
    assert!(actions.is_empty());
    assert_eq!(orch.door_state(), DoorState::Locked);
    // Subsequent events keep being processed.
    let actions = orch.step(SystemMessage::OnCard(7));
    assert!(matches!(actions[0], Action::Authorize(7)));
}

#[test]
fn successful_firmware_apply_reboots() {
    let mut orch = Orchestrator::new();
    let actions = orch.firmware_result(true);
    assert_eq!(actions.len(), 1);
    assert!(matches!(actions[0], Action::Reboot));
}

#[test]
fn grant_while_unlocked_restarts_the_dwell() {
    let mut orch = Orchestrator::new();
    orch.step(SystemMessage::OnAuth(1, "1".to_string(), true));
    let actions = orch.step(SystemMessage::OnAuth(2, "2".to_string(), true));
    assert_eq!(orch.door_state(), DoorState::Unlocked);
    assert!(matches!(actions[2], Action::StartDwellTimer));
    orch.dwell_expired();
    assert_eq!(orch.door_state(), DoorState::Locked);
}

#[test]
fn loop_turn_on_an_idle_bus_does_nothing() {
    let auth = AuthService::new("42".to_string());
    let mut bus = EventBus::new_default();
    let mut orch = Orchestrator::new();
    let out = process_next(&mut orch, &auth, &mut bus);
    assert!(out.is_empty());
    assert_eq!(bus.len(), 0);
    assert_eq!(orch.door_state(), DoorState::Locked);
}

#[test]
fn loop_turn_checks_a_scanned_card_at_once() {
    let auth = AuthService::new("42".to_string());
    let mut bus = EventBus::new_default();
    let mut orch = Orchestrator::new();
    bus.send(SystemMessage::OnCard(42)).unwrap();
    let out = process_next(&mut orch, &auth, &mut bus);
    assert!(out.is_empty());
    assert_eq!(bus.len(), 1);
    assert!(matches!(bus.recv(), Some(SystemMessage::OnAuth(42, name, true)) if name == "42"));
}

#[test]
fn two_loop_turns_take_a_scan_to_an_unlocked_door() {
    let auth = AuthService::new("42".to_string());
    let mut bus = EventBus::new_default();
    let mut orch = Orchestrator::new();
    bus.send(SystemMessage::OnCard(42)).unwrap();
    process_next(&mut orch, &auth, &mut bus);
    assert_eq!(orch.door_state(), DoorState::Locked);
    let out = process_next(&mut orch, &auth, &mut bus);
    assert_eq!(orch.door_state(), DoorState::Unlocked);
    assert_eq!(out.len(), 3);
    assert!(matches!(&out[0], Action::SpeakText(t) if t == "Access granted 42."));
    assert_eq!(bus.len(), 0);
}

#[test]
fn two_loop_turns_deny_an_absent_card() {
    let auth = AuthService::new("42".to_string());
    let mut bus = EventBus::new_default();
    let mut orch = Orchestrator::new();
    bus.send(SystemMessage::OnCard(9999)).unwrap();
    process_next(&mut orch, &auth, &mut bus);
    let out = process_next(&mut orch, &auth, &mut bus);
    assert_eq!(orch.door_state(), DoorState::Locked);
    assert_eq!(out.len(), 1);
    assert!(matches!(&out[0], Action::SpeakText(t) if t == "Access denied 9999."));
}
