use kobold::controls::{ControlMapper, ControlMappings, Direction, GameAction, GamepadState};
use kobold::session::ControlSession;
use kobold::worker::{Directive, Timeouts, WorkerMessage, WorkerSupervisor};

fn session(max_steps: u32) -> ControlSession {
    ControlSession::new(ControlMapper::new(ControlMappings::default()), max_steps, 100)
}

fn handshake() -> WorkerSupervisor {
    let mut sup = WorkerSupervisor::spawned("tcp://127.0.0.1:5555".to_string(), Timeouts::default());
    assert!(matches!(sup.on_message(WorkerMessage::Ready), Directive::Send(_)));
    assert_eq!(sup.on_message(WorkerMessage::Connected), Directive::Wait);
    sup
}

fn prediction(ly: i32) -> WorkerMessage {
    WorkerMessage::Prediction { j_left: vec![0, ly], j_right: vec![0, 0], buttons: vec![] }
}

fn deliver(sup: &mut WorkerSupervisor, msg: WorkerMessage) -> GamepadState {
    match sup.on_message(msg) {
        Directive::Deliver(s) => s,
        other => panic!("unexpected directive {:?}", other),
    }
}

#[test]
fn three_frames_three_actions_in_order() {
    let mut sup = handshake();
    let mut s = session(60);
    let mut dispatched = Vec::new();
    for (frame, ly) in [(1u32, -800), (2, 800), (3, 0)] {
        assert!(s.begin_step(false));
        assert!(s.consider_frame(Some(frame)));
        assert!(sup.request_prediction(&vec![frame as u8]).is_some());
        let sample = deliver(&mut sup, prediction(ly));
        dispatched.push(s.on_prediction(&sample).unwrap());
    }
    assert_eq!(
        dispatched,
        vec![
            GameAction::Move(Direction::Up),
            GameAction::Move(Direction::Down),
            GameAction::Move(Direction::Stop),
        ]
    );
    assert_eq!(s.actions_dispatched, 3);
    assert_eq!(s.frames_observed, 3);
    assert_eq!(s.last_frame, 3);
    assert_eq!(s.last_action, Some(GameAction::Move(Direction::Stop)));
}

#[test]
fn slow_prediction_dispatches_nothing_and_loop_goes_on() {
    let mut sup = handshake();
    let mut s = session(60);
    assert!(s.begin_step(false));
    assert!(s.consider_frame(Some(1)));
    sup.request_prediction(&vec![1]).unwrap();
    assert_eq!(sup.wait_budget_ms(), Some(2000));
    assert!(matches!(sup.on_timeout(), Directive::Skip(_)));
    s.on_skip();
    assert_eq!(s.actions_dispatched, 0);
    let late = deliver_after_timeout(&mut sup);
    assert_eq!(late, Directive::Wait);
    assert!(s.begin_step(false));
    assert!(s.consider_frame(Some(2)));
    sup.request_prediction(&vec![2]).unwrap();
    let sample = deliver(&mut sup, prediction(-900));
    assert_eq!(s.on_prediction(&sample), Some(GameAction::Move(Direction::Up)));
    assert_eq!(s.actions_dispatched, 1);
    assert_eq!(s.frames_observed, 2);
}

fn deliver_after_timeout(sup: &mut WorkerSupervisor) -> Directive {
    sup.on_message(prediction(-800))
}

#[test]
fn old_frames_are_skipped() {
    let mut s = session(60);
    assert!(s.begin_step(false));
    assert!(!s.consider_frame(None));
    assert!(!s.consider_frame(Some(0)));
    assert!(s.consider_frame(Some(4)));
    assert!(!s.consider_frame(Some(5)));
    s.on_skip();
    assert!(s.begin_step(false));
    assert!(!s.consider_frame(Some(4)));
    assert!(!s.consider_frame(Some(3)));
    assert_eq!(s.last_frame, 4);
    assert_eq!(s.frames_observed, 1);
}

#[test]
fn stale_sample_is_dropped() {
    let mut s = session(60);
    let sample = ControlMapper::parse_nitrogen_output(&vec![0, -900], &vec![], &vec![]);
    assert!(s.begin_step(false));
    assert_eq!(s.on_prediction(&sample), None);
    assert_eq!(s.actions_dispatched, 0);
}

#[test]
fn loop_stops_on_budget_and_game_exit() {
    let mut s = session(2);
    assert!(s.begin_step(false));
    assert!(s.begin_step(false));
    assert!(!s.begin_step(false));
    assert!(s.finished);
    let mut s = session(5);
    assert!(s.begin_step(false));
    assert!(!s.begin_step(true));
    assert!(!s.begin_step(false));
    assert_eq!(s.step, 1);
}
