use cellarium::params::{find_param, PanelAction, PanelKey, ParamChange, ParamState};
use cellarium::persist::{params_file_name, params_json, HistoryEntry, ParamsFile};
use cellarium::runtime::{texel_fill, uniform_buffer_size, Action, Controls, Key, Simulation, TextureState};

fn state() -> ParamState<f32> {
    ParamState {
        values: vec![0.5, 2.0],
        defaults: vec![0.5, 2.0],
        names: vec!["FEED".to_string(), "KILL".to_string()],
        selected: 0,
        title: "Gray Scott".to_string(),
        running: true,
        tick: 10,
        history: vec![],
        replay: vec![],
        replay_cursor: 0,
    }
}

fn change(tick: u32, param: &str, value: f32) -> ParamChange<f32> {
    ParamChange { tick, param: param.to_string(), value }
}

#[test]
fn set_param_records_history() {
    let mut s = state();
    s.set_param(1, 3.0);
    assert_eq!(s.values, vec![0.5, 3.0]);
    assert_eq!(s.history.len(), 1);
    assert_eq!((s.history[0].tick, s.history[0].param.as_str(), s.history[0].value), (10, "KILL", 3.0));
}

#[test]
fn set_param_during_replay_is_not_recorded() {
    let mut s = state();
    s.replay = vec![change(100, "FEED", 1.0)];
    assert!(s.is_replaying());
    s.set_param(0, 0.25);
    assert_eq!(s.values[0], 0.25);
    assert!(s.history.is_empty());
}

#[test]
fn replay_applies_due_changes_in_order() {
    let mut s = state();
    s.replay = vec![change(5, "FEED", 1.0), change(8, "NOPE", 9.0), change(10, "FEED", 1.5), change(11, "KILL", 7.0)];
    s.apply_pending_replay();
    assert_eq!(s.values, vec![1.5, 2.0]);
    assert_eq!(s.replay_cursor, 3);
    s.apply_pending_replay();
    assert_eq!(s.values, vec![1.5, 2.0]);
    assert_eq!(s.replay_cursor, 3);
    s.tick = 11;
    s.apply_pending_replay();
    assert_eq!(s.values, vec![1.5, 7.0]);
    assert_eq!(s.replay_cursor, 4);
}

#[test]
fn recorded_history_replays_to_the_same_values() {
    let mut s = state();
    s.set_param(0, 0.75);
    s.tick = 12;
    s.set_param(1, 4.0);
    let recorded = s.history.clone();
    let mut r = state();
    r.replay = recorded;
    r.tick = 12;
    r.apply_pending_replay();
    assert_eq!(r.values, s.values);
}

#[test]
fn clear_history_forgets_everything() {
    let mut s = state();
    s.set_param(0, 1.0);
    s.replay = vec![change(1, "FEED", 1.0)];
    s.replay_cursor = 1;
    s.clear_history();
    assert!(s.history.is_empty());
    assert!(s.replay.is_empty());
    assert_eq!(s.replay_cursor, 0);
    assert!(!s.is_replaying());
}

#[test]
fn find_param_by_name() {
    let s = state();
    assert_eq!(find_param(&s.names, "KILL"), Some(1));
    assert_eq!(find_param(&s.names, "kill"), None);
}

#[test]
fn parameter_file_text() {
    let names = vec!["FEED".to_string(), "KILL".to_string()];
    let values = vec!["0.055".to_string(), "0.062".to_string()];
    let history = vec![ParamChange { tick: 3, param: "FEED".to_string(), value: "0.06".to_string() }];
    let json = params_json(&names, &values, &history);
    assert_eq!(json, "{\n  \"initial\": {\n    \"FEED\": 0.055,\n    \"KILL\": 0.062\n  },\n  \"history\": [\n    {\"tick\": 3, \"param\": \"FEED\", \"value\": 0.06}\n  ]\n}");
}

#[test]
fn parameter_file_without_history() {
    let json = params_json(&vec!["A".to_string()], &vec!["1".to_string()], &vec![]);
    assert_eq!(json, "{\n  \"initial\": {\n    \"A\": 1\n  },\n  \"history\": [\n\n  ]\n}");
}

#[test]
fn parameter_file_name() {
    assert_eq!(params_file_name("Gray Scott"), "gray_scott_params.json");
    assert_eq!(params_file_name("Cellarium"), "cellarium_params.json");
    assert_eq!(params_file_name("A  B"), "a__b_params.json");
}

#[test]
fn loading_a_recorded_file() {
    let mut s = state();
    s.replay_cursor = 0;
    let file = ParamsFile::Recorded {
        initial: vec![("KILL".to_string(), Some(2.5)), ("OTHER".to_string(), Some(1.0)), ("FEED".to_string(), None)],
        history: Some(vec![
            HistoryEntry { tick: Some(4), param: Some("FEED".to_string()), value: Some(0.1) },
            HistoryEntry { tick: None, param: Some("FEED".to_string()), value: Some(0.2) },
            HistoryEntry { tick: Some(4294967301), param: Some("KILL".to_string()), value: Some(0.3) },
        ]),
    };
    s.load_params(file);
    assert_eq!(s.values, vec![0.5, 2.5]);
    assert_eq!(s.replay.len(), 2);
    assert_eq!((s.replay[0].tick, s.replay[0].param.as_str(), s.replay[0].value), (4, "FEED", 0.1));
    assert_eq!(s.replay[1].tick, 5);
    assert_eq!(s.replay_cursor, 0);
}

#[test]
fn loading_a_flat_file() {
    let mut s = state();
    s.load_params(ParamsFile::Flat(vec![("FEED".to_string(), Some(0.9))]));
    assert_eq!(s.values, vec![0.9, 2.0]);
    assert!(s.replay.is_empty());
    s.load_params(ParamsFile::Other);
    assert_eq!(s.values, vec![0.9, 2.0]);
}

#[test]
fn simulation_defaults_and_builder() {
    let s: Simulation<()> = Simulation::new(256, 128);
    assert_eq!((s.width, s.height), (256, 128));
    assert_eq!(s.title, "Cellarium");
    assert_eq!(s.ticks_per_frame, 1);
    assert!(!s.paused);
    assert_eq!((s.window_width, s.window_height), (None, None));
    let s = s.title("Life").ticks_per_frame(4).paused(true).window_size(800, 600);
    assert_eq!(s.title, "Life");
    assert_eq!(s.ticks_per_frame, 4);
    assert!(s.paused);
    assert_eq!((s.window_width, s.window_height), (Some(800), Some(600)));
}

#[test]
fn uniform_buffer_sizes() {
    assert_eq!(uniform_buffer_size(0), 32);
    assert_eq!(uniform_buffer_size(1), 48);
    assert_eq!(uniform_buffer_size(4), 48);
    assert_eq!(uniform_buffer_size(5), 64);
}

#[test]
fn ping_pong_swaps_read_and_write() {
    let mut t = TextureState::new(vec!["ta0", "ta1"], vec!["tb0", "tb1"], vec![1, 2], vec![3, 4], 8, 8, 2);
    assert_eq!(t.read_views(), &[1, 2]);
    assert_eq!(t.write_views(), &[3, 4]);
    assert_eq!(t.read_textures(), &["ta0", "ta1"]);
    t.swap();
    assert_eq!(t.read_views(), &[3, 4]);
    assert_eq!(t.write_views(), &[1, 2]);
    assert_eq!(t.write_textures(), &["ta0", "ta1"]);
    t.swap();
    assert!(!t.phase);
}

#[test]
fn texel_fill_repeats_the_texel() {
    let texel: [u8; 16] = [1, 2, 3, 4, 5, 6, 7, 8, 9, 10, 11, 12, 13, 14, 15, 16];
    let d = texel_fill(texel, 2, 3);
    assert_eq!(d.len(), 96);
    assert_eq!(&d[16..32], &texel);
    assert_eq!(d[95], 16);
}

fn controls() -> Controls {
    Controls { paused: false, ticks_per_frame: 1, selected_param: 0, param_count: 2 }
}

#[test]
fn keyboard_controls() {
    let mut c = controls();
    assert!(matches!(c.on_key(Key::ArrowRight), Action::Nothing));
    assert!(matches!(c.on_key(Key::Space), Action::Redraw));
    assert!(c.paused);
    assert_eq!(c.frame_ticks(), 0);
    assert!(matches!(c.on_key(Key::ArrowRight), Action::StepAndRedraw));
    assert!(matches!(c.on_key(Key::Minus), Action::Nothing));
    assert_eq!(c.ticks_per_frame, 1);
    for _ in 0..70 {
        c.on_key(Key::Equal);
    }
    assert_eq!(c.ticks_per_frame, 64);
    assert!(matches!(c.on_key(Key::Space), Action::Redraw));
    assert_eq!(c.frame_ticks(), 64);
    assert!(matches!(c.on_key(Key::Tab), Action::ShowParam));
    assert_eq!(c.selected_param, 1);
    assert!(matches!(c.on_key(Key::BracketRight), Action::IncreaseParam(1)));
    assert!(matches!(c.on_key(Key::Tab), Action::ShowParam));
    assert_eq!(c.selected_param, 0);
    assert!(matches!(c.on_key(Key::BracketLeft), Action::DecreaseParam(0)));
    assert!(matches!(c.on_key(Key::KeyR), Action::ResetAndRedraw));
    assert!(matches!(c.on_key(Key::Escape), Action::Exit));
    assert!(matches!(c.on_key(Key::Other), Action::Nothing));
}

#[test]
fn no_parameters_no_parameter_keys() {
    let mut c = Controls { paused: false, ticks_per_frame: 3, selected_param: 0, param_count: 0 };
    assert!(matches!(c.on_key(Key::Tab), Action::Nothing));
    assert!(matches!(c.on_key(Key::BracketLeft), Action::Nothing));
    assert_eq!(c.selected_param, 0);
}

#[test]
fn parameter_panel_keys() {
    let mut s = state();
    assert!(matches!(s.on_panel_key(PanelKey::Up), PanelAction::Nothing));
    assert_eq!(s.selected, 0);
    assert!(matches!(s.on_panel_key(PanelKey::Down), PanelAction::Nothing));
    assert_eq!(s.selected, 1);
    assert!(matches!(s.on_panel_key(PanelKey::Down), PanelAction::Nothing));
    assert_eq!(s.selected, 1);
    assert!(matches!(s.on_panel_key(PanelKey::Right), PanelAction::Increase(1)));
    assert!(matches!(s.on_panel_key(PanelKey::Left), PanelAction::Decrease(1)));
    s.values[1] = 9.0;
    assert!(matches!(s.on_panel_key(PanelKey::Default), PanelAction::Nothing));
    assert_eq!(s.values, vec![0.5, 2.0]);
    assert_eq!(s.history.len(), 1);
    assert!(matches!(s.on_panel_key(PanelKey::Save), PanelAction::Save));
    assert!(matches!(s.on_panel_key(PanelKey::Other), PanelAction::Nothing));
    assert!(matches!(s.on_panel_key(PanelKey::Quit), PanelAction::Quit));
    assert!(!s.running);
}

#[test]
fn empty_panel_only_quits() {
    let mut s: ParamState<f32> = ParamState {
        values: vec![], defaults: vec![], names: vec![], selected: 0, title: "T".to_string(), running: true,
        tick: 0, history: vec![], replay: vec![], replay_cursor: 0,
    };
    assert!(matches!(s.on_panel_key(PanelKey::Down), PanelAction::Nothing));
    assert!(matches!(s.on_panel_key(PanelKey::Save), PanelAction::Nothing));
    assert!(s.running);
    assert!(matches!(s.on_panel_key(PanelKey::Quit), PanelAction::Quit));
    assert!(!s.running);
}

#[test]
fn complete_history_loads_entry_for_entry() {
    let mut s = state();
    let file = ParamsFile::Recorded {
        initial: vec![],
        history: Some(vec![
            HistoryEntry { tick: Some(1), param: Some("KILL".to_string()), value: Some(0.3) },
            HistoryEntry { tick: Some(2), param: Some("FEED".to_string()), value: Some(0.4) },
        ]),
    };
    s.load_params(file);
    let got: Vec<(u32, String, f32)> = s.replay.iter().map(|c| (c.tick, c.param.clone(), c.value)).collect();
    assert_eq!(got, vec![(1, "KILL".to_string(), 0.3), (2, "FEED".to_string(), 0.4)]);
    s.tick = 2;
    s.apply_pending_replay();
    assert_eq!(s.values, vec![0.4, 0.3]);
}

#[test]
fn quitting_the_panel_keeps_the_selection() {
    let mut s = state();
    s.selected = 1;
    s.values[1] = 3.0;
    assert!(matches!(s.on_panel_key(PanelKey::Quit), PanelAction::Quit));
    assert_eq!(s.selected, 1);
    assert_eq!(s.values, vec![0.5, 3.0]);
    assert_eq!(s.title, "Gray Scott");
    assert!(s.history.is_empty());
    assert!(!s.running);
}

#[test]
fn controls_at_the_limits_of_their_types() {
    let mut c = Controls { paused: false, ticks_per_frame: u32::MAX, selected_param: usize::MAX, param_count: 3 };
    assert!(matches!(c.on_key(Key::Equal), Action::Nothing));
    assert_eq!(c.ticks_per_frame, 64);
    assert!(matches!(c.on_key(Key::Tab), Action::ShowParam));
    // (usize::MAX + 1) mod 3
    assert_eq!(c.selected_param, ((usize::MAX % 3) + 1) % 3);
}

#[test]
fn replay_skips_unknown_parameters() {
    let mut s = state();
    s.replay = vec![
        ParamChange { tick: 5, param: "NOPE".to_string(), value: 9.0 },
        ParamChange { tick: 10, param: "KILL".to_string(), value: 4.0 },
        ParamChange { tick: 11, param: "FEED".to_string(), value: 1.0 },
    ];
    s.apply_pending_replay();
    assert_eq!(s.values, vec![0.5, 4.0]);
    assert_eq!(s.replay_cursor, 2);
}
