use rust_mgba::config::{AgentConfiguration, AgentControl, AgentDriver, ClockRate, EmuClockMgr, GameConfigData};
use rust_mgba::fleet::{
    contains_gba, frame_message, join_path, last_component, message_length, rendezvous_path,
    sandbox_configuration, sandbox_path, save_data_path, unframe_message, worker_dir, FleetMonitor,
    FrameError, WorkerStatus,
};
use rust_mgba::text::{decimal_string, four_digit_string};

fn template() -> AgentConfiguration {
    AgentConfiguration {
        agent_control: AgentControl::Human,
        render_condition: true,
        store_observations: true,
        emu_clock_mgr: Some(EmuClockMgr::Clock(ClockRate { rate: 60 })),
        agent_driver: AgentDriver::Sockets(13721),
        game_config_data: GameConfigData {
            rom_path: "/home/roms/pokemon.gba".to_string(),
            save_state_path: Some("states/start.ss1".to_string()),
        },
    }
}

#[test]
fn decimal_forms() {
    assert_eq!(decimal_string(0), "0");
    assert_eq!(decimal_string(7), "7");
    assert_eq!(decimal_string(1234), "1234");
    assert_eq!(decimal_string(u64::MAX), u64::MAX.to_string());
    assert_eq!(four_digit_string(42), "0042");
}

#[test]
fn workers_get_distinct_sandboxes() {
    let root = "/tmp/rust_mgba/77";
    let dirs: Vec<String> = (0..3).map(|i| worker_dir(root, i)).collect();
    assert_eq!(dirs, vec!["/tmp/rust_mgba/77/0", "/tmp/rust_mgba/77/1", "/tmp/rust_mgba/77/2"]);
    assert_eq!(rendezvous_path(&dirs[1]), "/tmp/rust_mgba/77/1/manager.sock");
    assert_eq!(worker_dir(root, 10), "/tmp/rust_mgba/77/10");
}

#[test]
fn paths_move_into_the_sandbox() {
    assert_eq!(last_component("/a/b/c.gba"), "c.gba");
    assert_eq!(last_component("c.gba"), "c.gba");
    assert_eq!(last_component("/a/b/"), "");
    assert_eq!(join_path("/x", "y"), "/x/y");
    assert_eq!(sandbox_path("/sb", "/a/b/c.gba"), Some("/sb/c.gba".to_string()));
    assert_eq!(sandbox_path("/sb", "/a/b/"), None);
}

#[test]
fn save_data_beside_rom() {
    assert!(contains_gba("/roms/game.gba"));
    assert!(!contains_gba("/roms/game.gb"));
    assert!(!contains_gba("gb"));
    assert_eq!(save_data_path("/roms/game.gba"), Some("/roms/game.sav".to_string()));
    assert_eq!(save_data_path("/roms/game.gb"), Some("/roms/game.sav".to_string()));
    assert_eq!(save_data_path("a"), None);
}

#[test]
fn worker_configuration_differs_only_in_paths() {
    let t = template();
    let w = sandbox_configuration(&t, "/tmp/rust_mgba/77/2").unwrap();
    assert_eq!(w.agent_control, t.agent_control);
    assert_eq!(w.render_condition, t.render_condition);
    assert_eq!(w.store_observations, t.store_observations);
    assert_eq!(w.emu_clock_mgr, t.emu_clock_mgr);
    assert_eq!(w.agent_driver, t.agent_driver);
    assert_eq!(w.game_config_data.rom_path, "/tmp/rust_mgba/77/2/pokemon.gba");
    assert_eq!(w.game_config_data.save_state_path, Some("/tmp/rust_mgba/77/2/start.ss1".to_string()));
    let mut no_state = template();
    no_state.game_config_data.save_state_path = None;
    let w = sandbox_configuration(&no_state, "/sb").unwrap();
    assert_eq!(w.game_config_data.save_state_path, None);
    let mut bad = template();
    bad.game_config_data.rom_path = "/roms/".to_string();
    assert!(sandbox_configuration(&bad, "/sb").is_none());
}

#[test]
fn control_plane_framing_round_trip() {
    let payload = br#"{"agent_control":"Human"}"#;
    let m = frame_message(payload).unwrap();
    assert_eq!(&m[..4], &[0, 0, 0, payload.len() as u8]);
    assert_eq!(message_length(&m[..4]), payload.len() as u32);
    assert_eq!(unframe_message(&m).unwrap(), payload.to_vec());
    assert_eq!(frame_message(&[]).unwrap(), vec![0, 0, 0, 0]);
    assert_eq!(unframe_message(&[0, 0, 0, 0]).unwrap(), Vec::<u8>::new());
}

#[test]
fn control_plane_framing_errors() {
    assert_eq!(unframe_message(&[0, 0, 1]), Err(FrameError::MissingLength));
    assert_eq!(unframe_message(&[0, 0, 0, 3, 1, 2]), Err(FrameError::ShortPayload));
    assert_eq!(unframe_message(&[0, 0, 0, 1, 7, 8]).unwrap(), vec![7]);
}

#[test]
fn teardown_waits_for_every_worker() {
    let mut m = FleetMonitor::new(3);
    assert!(!m.teardown_due());
    assert!(!m.record_poll(0, None));
    assert!(!m.record_poll(0, Some(true)));
    assert!(!m.is_running(0));
    assert!(m.is_running(1));
    assert!(m.record_poll(1, Some(false)));
    assert_eq!(m.statuses[1], WorkerStatus::Exited { success: false });
    assert!(!m.teardown_due());
    assert!(!m.record_poll(1, Some(true)));
    assert_eq!(m.statuses[1], WorkerStatus::Exited { success: false });
    assert!(!m.record_poll(2, Some(true)));
    assert!(m.teardown_due());
    assert!(FleetMonitor::new(0).teardown_due());
}

#[test]
fn configuration_document_survives_framing() {
    let doc = r#"{"agent_control":"Human","render_condition":false,"store_observations":true,"emu_clock_mgr":{"CycleIgnore":3},"agent_driver":{"Sockets":10103},"game_config_data":{"rom_path":"/tmp/rust_mgba/1/0/g.gba","save_state_path":null}}"#;
    let message = frame_message(doc.as_bytes()).unwrap();
    let received = unframe_message(&message).unwrap();
    let sent: serde_json::Value = serde_json::from_str(doc).unwrap();
    let parsed: serde_json::Value = serde_json::from_slice(&received).unwrap();
    assert_eq!(parsed, sent);
}
