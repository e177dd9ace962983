use kobold::controls::{GamepadButtons, GamepadState};
use kobold::worker::{
    connect_command, predict_command, predict_command_with, quit_command, Directive, Failure, Phase, SkipReason,
    Timeouts, WorkerMessage, WorkerSupervisor,
};

fn connected() -> WorkerSupervisor {
    let mut sup = WorkerSupervisor::spawned("tcp://127.0.0.1:5555".to_string(), Timeouts::default());
    sup.on_message(WorkerMessage::Ready);
    sup.on_message(WorkerMessage::Connected);
    sup
}

#[test]
fn handshake_sends_connect_then_connects() {
    let mut sup = WorkerSupervisor::spawned("tcp://127.0.0.1:5555".to_string(), Timeouts::default());
    assert_eq!(sup.wait_budget_ms(), Some(10000));
    assert_eq!(sup.on_message(WorkerMessage::Other), Directive::Wait);
    assert_eq!(sup.phase, Phase::WaitingReady);
    let d = sup.on_message(WorkerMessage::Ready);
    assert_eq!(
        d,
        Directive::Send("{\"addr\":\"tcp://127.0.0.1:5555\",\"type\":\"connect\"}\n".to_string())
    );
    assert_eq!(sup.phase, Phase::Connecting);
    assert_eq!(sup.on_message(WorkerMessage::Connected), Directive::Wait);
    assert_eq!(sup.phase, Phase::Connected);
    assert_eq!(sup.wait_budget_ms(), None);
    assert!(sup.holds_process);
}

#[test]
fn silent_worker_fails_and_is_released() {
    let mut sup = WorkerSupervisor::spawned("tcp://x".to_string(), Timeouts::default());
    sup.on_message(WorkerMessage::Connected);
    sup.on_message(WorkerMessage::Other);
    assert_eq!(sup.on_timeout(), Directive::Shutdown);
    assert_eq!(sup.phase, Phase::Failed);
    assert_eq!(sup.failure, Some(Failure::HandshakeTimeout));
    assert!(!sup.holds_process);
    assert_eq!(sup.terminate(), Directive::Wait);
    assert_eq!(sup.phase, Phase::Failed);
}

#[test]
fn connect_error_fails_with_message() {
    let mut sup = WorkerSupervisor::spawned("tcp://x".to_string(), Timeouts::default());
    sup.on_message(WorkerMessage::Ready);
    assert_eq!(sup.wait_budget_ms(), Some(10000));
    let d = sup.on_message(WorkerMessage::Error("refused".to_string()));
    assert_eq!(d, Directive::Shutdown);
    assert_eq!(sup.failure, Some(Failure::HandshakeError("refused".to_string())));
    assert!(!sup.holds_process);
}

#[test]
fn connect_timeout_fails() {
    let mut sup = WorkerSupervisor::spawned("tcp://x".to_string(), Timeouts::default());
    sup.on_message(WorkerMessage::Ready);
    assert_eq!(sup.on_timeout(), Directive::Shutdown);
    assert_eq!(sup.failure, Some(Failure::HandshakeTimeout));
}

#[test]
fn prediction_round_trip() {
    let mut sup = connected();
    let line = sup.request_prediction(&b"hello".to_vec()).unwrap();
    assert_eq!(line, "{\"image\":\"aGVsbG8=\",\"type\":\"predict\"}\n");
    assert_eq!(sup.phase, Phase::AwaitingPrediction);
    assert_eq!(sup.wait_budget_ms(), Some(2000));
    assert!(sup.request_prediction(&vec![1]).is_none());
    assert_eq!(sup.on_message(WorkerMessage::Error("busy".to_string())), Directive::Wait);
    let d = sup.on_message(WorkerMessage::Prediction {
        j_left: vec![0, -800],
        j_right: vec![],
        buttons: vec![0, 900],
    });
    let mut buttons = GamepadButtons::default();
    buttons.south = true;
    assert_eq!(d, Directive::Deliver(GamepadState { j_left: (0, -800), j_right: (0, 0), buttons }));
    assert_eq!(sup.phase, Phase::Connected);
}

#[test]
fn prediction_timeout_and_error_skip() {
    let mut sup = connected();
    sup.request_prediction(&vec![]).unwrap();
    assert_eq!(sup.on_timeout(), Directive::Skip(SkipReason::PredictionTimeout));
    assert_eq!(sup.phase, Phase::Connected);
    sup.request_prediction(&vec![]).unwrap();
    assert_eq!(
        sup.on_message(WorkerMessage::PredictionFailed("oom".to_string())),
        Directive::Skip(SkipReason::WorkerReportedError("oom".to_string()))
    );
    assert_eq!(sup.phase, Phase::Connected);
}

#[test]
fn exit_and_terminate() {
    let mut sup = connected();
    assert_eq!(sup.terminate(), Directive::Shutdown);
    assert_eq!(sup.phase, Phase::Terminated);
    assert_eq!(sup.terminate(), Directive::Wait);
    assert_eq!(sup.on_exit(), Directive::Wait);
    let mut sup = connected();
    assert_eq!(sup.on_exit(), Directive::Shutdown);
    assert_eq!(sup.failure, Some(Failure::WorkerExited));
    let sup = WorkerSupervisor::spawn_failed("tcp://x".to_string(), Timeouts::default());
    assert_eq!(sup.failure, Some(Failure::SpawnFailure));
    assert!(!sup.holds_process);
}

#[test]
fn command_lines() {
    assert_eq!(quit_command(), "{\"type\":\"quit\"}\n");
    assert_eq!(
        connect_command("a\"b\\c\nd"),
        "{\"addr\":\"a\\\"b\\\\c\\u000ad\",\"type\":\"connect\"}\n"
    );
    assert_eq!(predict_command(&vec![0xff, 0x00]), "{\"image\":\"/wA=\",\"type\":\"predict\"}\n");
}

#[test]
fn predict_line_frames_encoded_text() {
    assert_eq!(
        predict_command_with("QUJD"),
        "{\"image\":\"QUJD\",\"type\":\"predict\"}\n"
    );
    assert_eq!(predict_command(&b"ABC".to_vec()), "{\"image\":\"QUJD\",\"type\":\"predict\"}\n");
    assert_eq!(predict_command(&vec![]), "{\"image\":\"\",\"type\":\"predict\"}\n");
}
