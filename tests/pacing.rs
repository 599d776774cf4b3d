use rust_mgba::config::{AgentConfiguration, AgentControl, AgentDriver, ClockRate, EmuClockMgr, GameConfigData};
use rust_mgba::pacer::{CycleStep, RunLoop, DEFAULT_POLLING_PERIOD};

fn config_with(clock: Option<EmuClockMgr>) -> AgentConfiguration {
    AgentConfiguration {
        agent_control: AgentControl::Human,
        render_condition: false,
        store_observations: false,
        emu_clock_mgr: clock,
        agent_driver: AgentDriver::Native,
        game_config_data: GameConfigData { rom_path: "game.gba".to_string(), save_state_path: None },
    }
}

fn io_cycles(skip: u32, len: u64) -> Vec<u64> {
    let config = config_with(Some(EmuClockMgr::CycleIgnore(skip)));
    let mut rl = RunLoop::new(&config, 0);
    let mut io = vec![];
    for c in 0..len {
        match rl.begin_cycle(false) {
            CycleStep::Run { io: true, pace } => {
                assert!(!pace);
                io.push(c);
            }
            CycleStep::Run { io: false, .. } => {}
            CycleStep::Stop => panic!("no stop was asked"),
        }
        rl.end_cycle();
    }
    assert_eq!(rl.io_counter, io.len() as u64);
    assert_eq!(rl.cycle_counter, len);
    io
}

#[test]
fn cycle_skip_runs_every_n_plus_first_cycle() {
    assert_eq!(io_cycles(2, 9), vec![2, 5, 8]);
    assert_eq!(io_cycles(2, 10).len(), 3);
    assert_eq!(io_cycles(0, 5), vec![0, 1, 2, 3, 4]);
    assert_eq!(io_cycles(4, 24).len(), 24 / 5);
}

#[test]
fn cycle_skip_count_is_floor_of_length_over_period() {
    for skip in 0..6u32 {
        for len in 0..40u64 {
            assert_eq!(io_cycles(skip, len).len() as u64, len / (skip as u64 + 1));
        }
    }
}

#[test]
fn stop_flag_is_sampled_on_polling_period() {
    let config = config_with(None);
    let mut rl = RunLoop::new(&config, 0);
    assert_eq!(rl.polling_period, DEFAULT_POLLING_PERIOD);
    assert!(rl.polls_stop_flag());
    assert_eq!(rl.begin_cycle(false), CycleStep::Run { io: true, pace: false });
    rl.end_cycle();
    // Not a sampling cycle: a set flag is not looked at.
    assert!(!rl.polls_stop_flag());
    assert_eq!(rl.begin_cycle(true), CycleStep::Run { io: true, pace: false });
    rl.end_cycle();
    for _ in 2..5000 {
        assert!(matches!(rl.begin_cycle(true), CycleStep::Run { .. }));
        rl.end_cycle();
    }
    assert!(rl.polls_stop_flag());
    assert_eq!(rl.begin_cycle(true), CycleStep::Stop);
    assert!(rl.stopped);
    assert_eq!(rl.cycle_counter, 5000);
}

#[test]
fn clock_rate_sets_duration_and_polling() {
    assert_eq!(ClockRate { rate: 60 }.get_duration(), 16666);
    assert_eq!(ClockRate { rate: 1 }.get_duration(), 1_000_000);
    let config = config_with(Some(EmuClockMgr::Clock(ClockRate { rate: 1000 })));
    let rl = RunLoop::new(&config, 0);
    assert_eq!(rl.polling_period, 1000);
    assert_eq!(rl.cycle_duration, 1000);
}

#[test]
fn fixed_rate_gap_is_at_least_one_period() {
    let config = config_with(Some(EmuClockMgr::Clock(ClockRate { rate: 1000 })));
    let mut rl = RunLoop::new(&config, 50);
    assert_eq!(rl.begin_cycle(false), CycleStep::Run { io: true, pace: true });
    assert!(!rl.pace_gate(500));
    assert!(!rl.pace_gate(1049));
    assert!(rl.pace_gate(1050));
    assert_eq!(rl.last_gate, 1050);
    rl.end_cycle();
    let mut opened = vec![1050u64];
    let mut now = 1050u64;
    for _ in 0..5 {
        assert_eq!(rl.begin_cycle(false), CycleStep::Run { io: true, pace: true });
        loop {
            now += 100;
            if rl.pace_gate(now) {
                break;
            }
        }
        opened.push(now);
        rl.end_cycle();
    }
    for w in opened.windows(2) {
        assert!(w[1] - w[0] >= 1000);
    }
    assert!(!rl.pace_gate(10));
}

#[test]
fn missing_input_stops_the_loop() {
    let config = config_with(None);
    let mut rl = RunLoop::new(&config, 0);
    assert!(rl.accept_input(Some(0x40)));
    assert_eq!(rl.keycode, 0x40);
    assert!(!rl.accept_input(None));
    assert!(rl.stopped);
    assert_eq!(rl.keycode, 0x40);
}

#[test]
fn zero_clock_rate_is_invalid() {
    let config = config_with(Some(EmuClockMgr::Clock(ClockRate { rate: 0 })));
    assert!(!config.is_valid());
    assert!(config_with(Some(EmuClockMgr::CycleIgnore(0))).is_valid());
    assert!(config_with(None).is_valid());
}

#[test]
fn control_kind_names() {
    assert_eq!(AgentControl::Human.display_name(), "AgentControl::Human");
    assert_eq!(AgentControl::Replay.display_name(), "AgentControl::Replay");
    assert_eq!(AgentControl::Intelligent.display_name(), "AgentControl::Intelligent");
}
