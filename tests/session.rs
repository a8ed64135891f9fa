use crochet_getty::session::{Action, Controller, Phase, Strategy, TTY_MODE};

fn supervised() -> Controller {
    Controller::new("tty1".to_string(), Strategy::Supervised, true, true)
}

#[test]
fn supervised_session_loops_back_to_the_device() {
    let mut ctl = supervised();
    assert_eq!(ctl.phase, Phase::Idle);
    for _ in 0..2 {
        match ctl.step(true) {
            Action::OpenDevice(p) => assert_eq!(p, "/dev/tty1"),
            a => panic!("unexpected {:?}", a),
        }
        match ctl.step(true) {
            Action::ChangeOwner(u, g) => {
                assert_eq!(u, "root");
                assert_eq!(g, "tty");
            }
            a => panic!("unexpected {:?}", a),
        }
        match ctl.step(true) {
            Action::ChangeMode(m) => assert_eq!(m, 0o620),
            a => panic!("unexpected {:?}", a),
        }
        assert!(matches!(ctl.step(true), Action::Greet(true, true)));
        assert_eq!(ctl.phase, Phase::Provisioned);
        assert!(matches!(ctl.step(true), Action::SpawnLogin));
        assert!(matches!(ctl.step(true), Action::Done));
        assert_eq!(ctl.phase, Phase::Idle);
    }
    assert_eq!(TTY_MODE, 0o620);
}

#[test]
fn owner_failure_halts_before_handoff() {
    let mut ctl = supervised();
    ctl.step(true);
    ctl.step(true);
    assert!(matches!(ctl.step(false), Action::Halt));
    assert_eq!(ctl.phase, Phase::Failed);
    for _ in 0..5 {
        assert!(matches!(ctl.step(true), Action::Halt));
    }
}

#[test]
fn mode_failure_halts_before_handoff() {
    let mut ctl = Controller::new("ttyS0".to_string(), Strategy::InProcess, false, false);
    ctl.step(true);
    ctl.step(true);
    assert!(matches!(ctl.step(true), Action::ChangeMode(_)));
    assert!(matches!(ctl.step(false), Action::Halt));
    for _ in 0..5 {
        assert!(matches!(ctl.step(true), Action::Halt));
    }
}

#[test]
fn open_failure_halts() {
    let mut ctl = supervised();
    ctl.step(true);
    assert!(matches!(ctl.step(false), Action::Halt));
}

#[test]
fn in_process_handoff_never_returns_to_idle() {
    let mut ctl = Controller::new("ttyS0".to_string(), Strategy::InProcess, false, true);
    match ctl.step(true) {
        Action::OpenDevice(p) => assert_eq!(p, "/dev/ttyS0"),
        a => panic!("unexpected {:?}", a),
    }
    ctl.step(true);
    ctl.step(true);
    assert!(matches!(ctl.step(true), Action::Greet(false, true)));
    assert!(matches!(ctl.step(true), Action::RedirectAndExec));
    assert!(matches!(ctl.step(true), Action::Halt));
    assert_eq!(ctl.phase, Phase::Failed);
}

#[test]
fn failed_login_spawn_halts() {
    let mut ctl = supervised();
    for _ in 0..5 {
        ctl.step(true);
    }
    assert!(matches!(ctl.step(false), Action::Halt));
}
