use sun::supervisor::fault_message;
use sun::{Config, ControlStep, Message, Module, RoutineAction, Supervisor};

fn config_with_battery(on: bool) -> Config {
    let mut c = Config::default();
    c.battery.off = !on;
    c.sound.off = true;
    c.keyboard.off = true;
    c.brightness.off = true;
    c
}

#[test]
fn all_modules_in_reload_order() {
    assert_eq!(Module::all(), vec![Module::Sound, Module::Battery, Module::Keyboard, Module::Brightness]);
}

#[test]
fn switching_on_spawns_only_without_worker() {
    let mut s: Supervisor<u32> = Supervisor::new();
    assert!(!s.is_running(Module::Battery));
    assert!(matches!(s.update_routine(Module::Battery, false), RoutineAction::Spawn));
    s.register(Module::Battery, 7);
    assert!(s.is_running(Module::Battery));
    assert_eq!(s.handle(Module::Battery), Some(&7));
    assert!(matches!(s.update_routine(Module::Battery, false), RoutineAction::Interrupt));
    assert_eq!(s.handle(Module::Battery), Some(&7));
}

#[test]
fn switching_off_hands_back_the_worker() {
    let mut s: Supervisor<u32> = Supervisor::new();
    s.register(Module::Sound, 3);
    s.register(Module::Keyboard, 4);
    match s.update_routine(Module::Sound, true) {
        RoutineAction::Stop(h) => assert_eq!(h, 3),
        _ => panic!("expected a stop"),
    }
    assert!(!s.is_running(Module::Sound));
    assert_eq!(s.handle(Module::Sound), None);
    assert_eq!(s.handle(Module::Keyboard), Some(&4));
    assert!(matches!(s.update_routine(Module::Sound, true), RoutineAction::Idle));
}

#[test]
fn battery_scenario_enable_change_disable() {
    let mut s: Supervisor<u32> = Supervisor::new();
    let actions = s.apply(&config_with_battery(false));
    assert!(actions.iter().all(|(_, a)| matches!(a, RoutineAction::Idle)));

    let actions = s.apply(&config_with_battery(true));
    assert_eq!(actions.len(), 4);
    assert_eq!(actions[1].0, Module::Battery);
    assert!(matches!(actions[1].1, RoutineAction::Spawn));
    s.register(Module::Battery, 11);

    let mut changed = config_with_battery(true);
    changed.battery.warn_at = 30;
    let actions = s.apply(&changed);
    assert!(matches!(actions[1].1, RoutineAction::Interrupt));
    assert_eq!(s.handle(Module::Battery), Some(&11));

    let actions = s.apply(&config_with_battery(false));
    assert!(matches!(actions[1].1, RoutineAction::Stop(11)));
    assert!(!s.is_running(Module::Battery));
}

#[test]
fn back_to_back_reloads_apply_in_order() {
    let mut s: Supervisor<u32> = Supervisor::new();
    let first = s.handle_message(Message::ConfigReload(config_with_battery(true)));
    match first {
        ControlStep::Applied(actions) => {
            assert!(matches!(actions[1].1, RoutineAction::Spawn));
            s.register(Module::Battery, 1);
        }
        _ => panic!("expected a pass"),
    }
    let second = s.handle_message(Message::ConfigReload(config_with_battery(false)));
    match second {
        ControlStep::Applied(actions) => assert!(matches!(actions[1].1, RoutineAction::Stop(1))),
        _ => panic!("expected a pass"),
    }
    assert!(!s.is_running(Module::Battery));
}

#[test]
fn reload_error_leaves_registry() {
    let mut s: Supervisor<u32> = Supervisor::new();
    s.register(Module::Brightness, 5);
    let step = s.handle_message(Message::ConfigReloadError("line 3: bad node".to_string()));
    assert!(!step.is_exit());
    match step {
        ControlStep::ReloadFailed(e) => assert_eq!(e, "line 3: bad node"),
        _ => panic!("expected a failed reload"),
    }
    assert_eq!(s.handle(Module::Brightness), Some(&5));
}

#[test]
fn worker_fault_ends_control_loop() {
    let msg = fault_message("src/battery.rs:12:5", "capacity missing", "0: main");
    let text = match &msg {
        Message::ModulePanic(d) => d.clone(),
        _ => panic!("expected a fault"),
    };
    assert_eq!(text, "panic at 'src/battery.rs:12:5' - capacity missing\n0: main");
    assert!(text.contains("capacity missing"));
    let mut s: Supervisor<u32> = Supervisor::new();
    s.register(Module::Sound, 2);
    let step = s.handle_message(msg);
    assert!(step.is_exit());
    match step {
        ControlStep::Exit(d) => assert_eq!(d, text),
        _ => panic!("expected exit"),
    }
    assert!(s.is_running(Module::Sound));
}
