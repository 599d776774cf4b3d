use rust_mgba::agent::AgentCore;
use rust_mgba::config::{AgentConfiguration, AgentControl, AgentDriver, EmuClockMgr, GameConfigData};
use rust_mgba::control::{Button, ControlError, DeviceEvent};
use rust_mgba::pacer::CycleStep;
use rust_mgba::wire::{encode_handshake, parse_handshake};

fn config(control: AgentControl, store: bool) -> AgentConfiguration {
    AgentConfiguration {
        agent_control: control,
        render_condition: false,
        store_observations: store,
        emu_clock_mgr: Some(EmuClockMgr::CycleIgnore(1)),
        agent_driver: AgentDriver::Sockets(10103),
        game_config_data: GameConfigData { rom_path: "g.gba".to_string(), save_state_path: None },
    }
}

#[test]
fn agent_records_observations_on_io_cycles() {
    let geometry = parse_handshake(&encode_handshake(1, 1, 4)).unwrap();
    let mut agent = AgentCore::new(config(AgentControl::Replay, true), geometry, vec![3, 4], 0).unwrap();
    let mut cycles = 0;
    loop {
        let flag = false;
        match agent.run_loop.begin_cycle(flag) {
            CycleStep::Stop => break,
            CycleStep::Run { io, .. } => {
                if io && !agent.io_phase() {
                    break;
                }
                // The backend writes the next frame.
                let v = (cycles * 10) as u8;
                agent.frame.write_buffer(&[v, v, v, 255]);
                agent.run_loop.end_cycle();
                cycles += 1;
            }
        }
    }
    assert!(agent.run_loop.stopped);
    assert_eq!(cycles, 5);
    let set = agent.finish().unwrap();
    assert_eq!(set.len(), 2);
    assert_eq!(set.get(0).keycode_data, 3);
    assert_eq!(set.get(1).keycode_data, 4);
    assert_eq!(set.get(0).frame_buffer.frame_data, vec![0, 0, 0, 255]);
    assert_eq!(set.get(0).frame_buffer.processed_data, vec![0]);
    assert_eq!(set.get(1).frame_buffer.frame_data, vec![20, 20, 20, 255]);
    assert_eq!(set.get(1).frame_buffer.processed_data, vec![19]);
}

#[test]
fn agent_without_storage_keeps_no_history() {
    let geometry = parse_handshake(&encode_handshake(2, 2, 4)).unwrap();
    let mut agent = AgentCore::new(config(AgentControl::Human, false), geometry, vec![], 0).unwrap();
    assert!(agent.history.is_none());
    assert!(agent.io_phase());
    assert_eq!(agent.run_loop.keycode, 0);
    assert!(agent.finish().is_none());
}

#[test]
fn intelligent_agent_is_unsupported() {
    let geometry = parse_handshake(&encode_handshake(2, 2, 4)).unwrap();
    assert_eq!(
        AgentCore::new(config(AgentControl::Intelligent, true), geometry, vec![], 0).err(),
        Some(ControlError::Unsupported)
    );
}

#[test]
fn human_quit_ends_the_loop_and_history_keeps_geometry() {
    let geometry = parse_handshake(&encode_handshake(3, 2, 4)).unwrap();
    let mut agent = AgentCore::new(config(AgentControl::Human, true), geometry, vec![], 0).unwrap();
    agent.control.handle_event(DeviceEvent::Press(Button::Up));
    assert!(agent.io_phase());
    assert_eq!(agent.run_loop.keycode, 0x40);
    agent.control.handle_event(DeviceEvent::Quit);
    assert!(!agent.io_phase());
    assert!(agent.run_loop.stopped);
    assert_eq!(agent.run_loop.keycode, 0x40);
    let set = agent.finish().unwrap();
    assert_eq!(set.len(), 1);
    assert_eq!((set.width(), set.height(), set.pixel_type()), (3, 2, geometry.pixel_format));
}
