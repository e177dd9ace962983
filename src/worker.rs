//! The worker supervisor: the lifecycle of the inference subprocess and the
//! line-delimited JSON protocol spoken over its standard streams.
//!
//! The supervisor decides; the caller does the I/O. Each event (a decoded
//! message, a timeout, the worker's exit) goes in, and a directive comes out:
//! wait, write a line, deliver a sample, skip the cycle, or shut down.
use vstd::prelude::*;
use base64::Engine;
use crate::controls::{ControlMapper, GamepadState, parsed_sample};

verus! {

/// Milliseconds to wait for the worker's `ready`.
pub const READY_TIMEOUT_MS: u64 = 10000;

/// Milliseconds to wait for `connected` after `connect`.
pub const CONNECT_TIMEOUT_MS: u64 = 10000;

/// Milliseconds to wait for a `prediction` after `predict`.
pub const PREDICTION_TIMEOUT_MS: u64 = 2000;

/// The waiting budgets of the handshake and of each prediction.
#[derive(Clone, Copy, Debug, PartialEq, Eq)]
pub struct Timeouts {
    pub ready_ms: u64,
    pub connect_ms: u64,
    pub prediction_ms: u64,
}

impl Default for Timeouts {
    fn default() -> (r: Self)
        ensures
            r.ready_ms == READY_TIMEOUT_MS,
            r.connect_ms == CONNECT_TIMEOUT_MS,
            r.prediction_ms == PREDICTION_TIMEOUT_MS,
    {
        Timeouts {
            ready_ms: READY_TIMEOUT_MS,
            connect_ms: CONNECT_TIMEOUT_MS,
            prediction_ms: PREDICTION_TIMEOUT_MS,
        }
    }
}

/// A message from the worker, as decoded from one line of its output.
/// Analog readings are in thousandths.
#[derive(Clone, Debug, PartialEq, Eq)]
pub enum WorkerMessage {
    Ready,
    Connected,
    Error(String),
    Prediction { j_left: Vec<i32>, j_right: Vec<i32>, buttons: Vec<i32> },
    /// A `prediction` message that carries an error instead of readings.
    PredictionFailed(String),
    /// Any other line, including one that is not a JSON object.
    Other,
}

/// Where the supervisor stands in the worker's lifecycle.
#[derive(Clone, Copy, Debug, PartialEq, Eq, Structural)]
pub enum Phase {
    /// Spawned, waiting for `ready`.
    WaitingReady,
    /// `connect` sent, waiting for `connected`.
    Connecting,
    /// Ready for a prediction request.
    Connected,
    /// One `predict` outstanding.
    AwaitingPrediction,
    Failed,
    Terminated,
}

/// Why the supervisor failed.
#[derive(Clone, Debug, PartialEq, Eq)]
pub enum Failure {
    /// The worker could not be started.
    SpawnFailure,
    /// No `ready` or `connected` within its budget.
    HandshakeTimeout,
    /// The worker answered `connect` with an error.
    HandshakeError(String),
    /// The worker exited while the supervisor still held it.
    WorkerExited,
}

/// Why a prediction cycle produced no sample.
#[derive(Clone, Debug, PartialEq, Eq)]
pub enum SkipReason {
    PredictionTimeout,
    WorkerReportedError(String),
}

/// What the caller does next.
#[derive(Clone, Debug, PartialEq, Eq)]
pub enum Directive {
    /// Keep waiting for the next event.
    Wait,
    /// Write this line to the worker's input.
    Send(String),
    /// A prediction arrived: hand the sample to the control loop.
    Deliver(GamepadState),
    /// The current prediction is abandoned; go on to the next cycle.
    Skip(SkipReason),
    /// Send `quit` best-effort, then kill the worker and reap it.
    Shutdown,
}

pub open spec fn is_terminal(p: Phase) -> bool {
    p == Phase::Failed || p == Phase::Terminated
}

/// The phase after a message arrives.
pub open spec fn phase_after_message(p: Phase, m: WorkerMessage) -> Phase {
    match (p, m) {
        (Phase::WaitingReady, WorkerMessage::Ready) => Phase::Connecting,
        (Phase::Connecting, WorkerMessage::Connected) => Phase::Connected,
        (Phase::Connecting, WorkerMessage::Error(_)) => Phase::Failed,
        (Phase::AwaitingPrediction, WorkerMessage::Prediction { .. }) => Phase::Connected,
        (Phase::AwaitingPrediction, WorkerMessage::PredictionFailed(_)) => Phase::Connected,
        _ => p,
    }
}

/// The phase after the current wait runs out.
pub open spec fn phase_after_timeout(p: Phase) -> Phase {
    match p {
        Phase::WaitingReady => Phase::Failed,
        Phase::Connecting => Phase::Failed,
        Phase::AwaitingPrediction => Phase::Connected,
        _ => p,
    }
}

/// The phase after a run of messages.
pub open spec fn phase_after_messages(p: Phase, ms: Seq<WorkerMessage>) -> Phase
    decreases ms.len(),
{
    if ms.len() == 0 {
        p
    } else {
        phase_after_message(phase_after_messages(p, ms.drop_last()), ms.last())
    }
}

/// Characters that stand for `c` inside a JSON string.
pub open spec fn json_char(c: char) -> Seq<char> {
    if c == '"' {
        seq!['\\', '"']
    } else if c == '\\' {
        seq!['\\', '\\']
    } else if (c as u32) < 0x20 {
        seq!['\\', 'u', '0', '0', hex_digit((c as u32) / 16), hex_digit((c as u32) % 16)]
    } else {
        seq![c]
    }
}

pub open spec fn hex_digit(d: u32) -> char {
    if d < 10 { (('0' as u32) + d) as char } else { (('a' as u32) + d - 10) as char }
}

/// `s` with every character escaped for a JSON string.
pub open spec fn json_escaped(s: Seq<char>) -> Seq<char>
    decreases s.len(),
{
    if s.len() == 0 {
        seq![]
    } else {
        json_escaped(s.drop_last()) + json_char(s.last())
    }
}

/// The `connect` command line for an endpoint.
pub open spec fn connect_line(addr: Seq<char>) -> Seq<char> {
    r#"{"addr":""#@ + json_escaped(addr) + r#"","type":"connect"}"#@ + "\n"@
}

/// The `predict` command line that carries an encoded image.
pub open spec fn predict_frame(encoded: Seq<char>) -> Seq<char> {
    r#"{"image":""#@ + encoded + r#"","type":"predict"}"#@ + "\n"@
}

/// The `predict` command line for an image.
pub open spec fn predict_line(image: Seq<u8>) -> Seq<char> {
    predict_frame(base64_of(image))
}

/// The standard, padded base64 encoding of the bytes.
pub uninterp spec fn base64_of(b: Seq<u8>) -> Seq<char>;

/// Relies on base64's `STANDARD` engine `encode`: the padded base64 text of
/// the bytes, four characters for each started group of three. The length
/// computation panics on overflow, which `requires` excludes.
#[verifier::external_body]
fn encode_base64(bytes: &Vec<u8>) -> (r: String)
    requires
        4 * ((bytes@.len() + 2) / 3) <= usize::MAX,
    ensures
        r@ == base64_of(bytes@),
        r@.len() == 4 * ((bytes@.len() + 2) / 3),
{
    base64::engine::general_purpose::STANDARD.encode(bytes)
}

fn hex_digit_str(d: u32) -> (r: &'static str)
    requires
        d < 16,
    ensures
        r@ == seq![hex_digit(d)],
{
    proof {
        reveal_strlit("0"); reveal_strlit("1"); reveal_strlit("2"); reveal_strlit("3");
        reveal_strlit("4"); reveal_strlit("5"); reveal_strlit("6"); reveal_strlit("7");
        reveal_strlit("8"); reveal_strlit("9"); reveal_strlit("a"); reveal_strlit("b");
        reveal_strlit("c"); reveal_strlit("d"); reveal_strlit("e"); reveal_strlit("f");
    }
    match d {
        0 => "0",
        1 => "1",
        2 => "2",
        3 => "3",
        4 => "4",
        5 => "5",
        6 => "6",
        7 => "7",
        8 => "8",
        9 => "9",
        10 => "a",
        11 => "b",
        12 => "c",
        13 => "d",
        14 => "e",
        _ => "f",
    }
}

/// Appends `s`, escaped for a JSON string, to `out`.
pub fn push_json_escaped(out: &mut String, s: &str)
    ensures
        final(out)@ == old(out)@ + json_escaped(s@),
{
    let n = s.unicode_len();
    let mut k: usize = 0;
    assert(s@.subrange(0, 0) =~= Seq::<char>::empty());
    while k < n
        invariant
            n == s@.len(),
            k <= n,
            out@ == old(out)@ + json_escaped(s@.subrange(0, k as int)),
        decreases n - k,
    {
        let c = s.get_char(k);
        let ghost before = out@;
        proof {
            reveal_strlit(r"\");
            reveal_strlit(r#"""#);
            reveal_strlit(r"\u00");
        }
        if c == '"' {
            out.append(r"\");
            out.append(r#"""#);
            assert(out@ =~= before + json_char(c));
        } else if c == '\\' {
            out.append(r"\");
            out.append(r"\");
            assert(out@ =~= before + json_char(c));
        } else if (c as u32) < 0x20 {
            out.append(r"\u00");
            out.append(hex_digit_str((c as u32) / 16));
            out.append(hex_digit_str((c as u32) % 16));
            assert(out@ =~= before + json_char(c));
        } else {
            let one = s.substring_char(k, k + 1);
            out.append(one);
            assert(one@ =~= seq![c]);
        }
        assert(out@ =~= before + json_char(c));
        assert(s@.subrange(0, k + 1).drop_last() =~= s@.subrange(0, k as int));
        k = k + 1;
    }
    assert(s@.subrange(0, n as int) =~= s@);
}

/// The `connect` command for `addr`, as one line.
pub fn connect_command(addr: &str) -> (r: String)
    ensures
        r@ == connect_line(addr@),
{
    let mut out = String::from_str(r#"{"addr":""#);
    push_json_escaped(&mut out, addr);
    out.append(r#"","type":"connect"}"#);
    out.append("\n");
    out
}

/// The `predict` command for an image already in base64, as one line.
pub fn predict_command_with(encoded: &str) -> (r: String)
    ensures
        r@ == predict_frame(encoded@),
{
    let mut out = String::from_str(r#"{"image":""#);
    out.append(encoded);
    out.append(r#"","type":"predict"}"#);
    out.append("\n");
    out
}

/// The `predict` command for an image, base64-encoded, as one line.
pub fn predict_command(image: &Vec<u8>) -> (r: String)
    requires
        4 * ((image@.len() + 2) / 3) <= usize::MAX,
    ensures
        r@ == predict_line(image@),
{
    let encoded = encode_base64(image);
    predict_command_with(encoded.as_str())
}

/// The `quit` command, as one line.
pub fn quit_command() -> (r: String)
    ensures
        r@ == r#"{"type":"quit"}"#@ + "\n"@,
{
    let mut out = String::from_str(r#"{"type":"quit"}"#);
    out.append("\n");
    out
}

/// Whether the current wait running out ends the worker.
pub open spec fn timeout_shuts_down(p: Phase) -> bool {
    p == Phase::WaitingReady || p == Phase::Connecting
}

/// Owns the lifecycle of one worker process and its handshake.
pub struct WorkerSupervisor {
    pub phase: Phase,
    pub failure: Option<Failure>,
    /// The inference endpoint that `connect` names.
    pub endpoint: String,
    pub timeouts: Timeouts,
    /// Whether a live worker process is still held; when this turns false
    /// the caller has been told to kill and reap it.
    pub holds_process: bool,
}

impl WorkerSupervisor {
    /// A process is held exactly while the phase is not terminal, and a
    /// failure is recorded exactly when the phase is `Failed`.
    pub open spec fn wf(&self) -> bool {
        &&& (is_terminal(self.phase) <==> !self.holds_process)
        &&& (self.phase == Phase::Failed <==> self.failure is Some)
    }

    /// A supervisor for a worker that was just started.
    pub fn spawned(endpoint: String, timeouts: Timeouts) -> (r: Self)
        ensures
            r.wf(),
            r.phase == Phase::WaitingReady,
            r.holds_process,
            r.failure is None,
            r.endpoint == endpoint,
            r.timeouts == timeouts,
    {
        WorkerSupervisor {
            phase: Phase::WaitingReady,
            failure: None,
            endpoint,
            timeouts,
            holds_process: true,
        }
    }

    /// A supervisor for a worker that could not be started.
    pub fn spawn_failed(endpoint: String, timeouts: Timeouts) -> (r: Self)
        ensures
            r.wf(),
            r.phase == Phase::Failed,
            !r.holds_process,
            r.failure == Some(Failure::SpawnFailure),
            r.endpoint == endpoint,
            r.timeouts == timeouts,
    {
        WorkerSupervisor {
            phase: Phase::Failed,
            failure: Some(Failure::SpawnFailure),
            endpoint,
            timeouts,
            holds_process: false,
        }
    }

    /// How long the current wait may last; `None` when nothing is awaited.
    pub fn wait_budget_ms(&self) -> (r: Option<u64>)
        ensures
            r == match self.phase {
                Phase::WaitingReady => Some(self.timeouts.ready_ms),
                Phase::Connecting => Some(self.timeouts.connect_ms),
                Phase::AwaitingPrediction => Some(self.timeouts.prediction_ms),
                _ => None,
            },
    {
        match self.phase {
            Phase::WaitingReady => Some(self.timeouts.ready_ms),
            Phase::Connecting => Some(self.timeouts.connect_ms),
            Phase::AwaitingPrediction => Some(self.timeouts.prediction_ms),
            _ => None,
        }
    }

    /// Handles one message from the worker. Messages that the current phase
    /// does not wait for are ignored.
    pub fn on_message(&mut self, m: WorkerMessage) -> (r: Directive)
        requires
            old(self).wf(),
        ensures
            final(self).wf(),
            final(self).phase == phase_after_message(old(self).phase, m),
            final(self).endpoint == old(self).endpoint,
            final(self).timeouts == old(self).timeouts,
            final(self).phase != Phase::Failed ==> final(self).failure == old(self).failure,
            match (old(self).phase, m) {
                (Phase::WaitingReady, WorkerMessage::Ready) =>
                    r matches Directive::Send(line) && line@ == connect_line(old(self).endpoint@),
                (Phase::Connecting, WorkerMessage::Connected) => r == Directive::Wait,
                (Phase::Connecting, WorkerMessage::Error(e)) => {
                    &&& r == Directive::Shutdown
                    &&& final(self).failure == Some(Failure::HandshakeError(e))
                },
                (Phase::AwaitingPrediction, WorkerMessage::Prediction { j_left, j_right, buttons }) =>
                    r == Directive::Deliver(parsed_sample(j_left@, j_right@, buttons@)),
                (Phase::AwaitingPrediction, WorkerMessage::PredictionFailed(e)) =>
                    r == Directive::Skip(SkipReason::WorkerReportedError(e)),
                _ => r == Directive::Wait,
            },
    {
        match (self.phase, m) {
            (Phase::WaitingReady, WorkerMessage::Ready) => {
                self.phase = Phase::Connecting;
                Directive::Send(connect_command(self.endpoint.as_str()))
            },
            (Phase::Connecting, WorkerMessage::Connected) => {
                self.phase = Phase::Connected;
                Directive::Wait
            },
            (Phase::Connecting, WorkerMessage::Error(e)) => {
                self.phase = Phase::Failed;
                self.failure = Some(Failure::HandshakeError(e));
                self.holds_process = false;
                Directive::Shutdown
            },
            (Phase::AwaitingPrediction, WorkerMessage::Prediction { j_left, j_right, buttons }) => {
                self.phase = Phase::Connected;
                Directive::Deliver(ControlMapper::parse_nitrogen_output(&j_left, &j_right, &buttons))
            },
            (Phase::AwaitingPrediction, WorkerMessage::PredictionFailed(e)) => {
                self.phase = Phase::Connected;
                Directive::Skip(SkipReason::WorkerReportedError(e))
            },
            _ => Directive::Wait,
        }
    }

    /// Handles the end of the current wait's budget: a handshake wait fails
    /// the supervisor, a prediction wait abandons the prediction.
    pub fn on_timeout(&mut self) -> (r: Directive)
        requires
            old(self).wf(),
        ensures
            final(self).wf(),
            final(self).phase == phase_after_timeout(old(self).phase),
            final(self).endpoint == old(self).endpoint,
            final(self).timeouts == old(self).timeouts,
            (r == Directive::Shutdown) == timeout_shuts_down(old(self).phase),
            timeout_shuts_down(old(self).phase) ==> final(self).failure == Some(Failure::HandshakeTimeout),
            !timeout_shuts_down(old(self).phase) ==> final(self).failure == old(self).failure,
            old(self).phase == Phase::AwaitingPrediction ==> r == Directive::Skip(SkipReason::PredictionTimeout),
            old(self).phase != Phase::AwaitingPrediction && !timeout_shuts_down(old(self).phase) ==> r == Directive::Wait,
    {
        match self.phase {
            Phase::WaitingReady | Phase::Connecting => {
                self.phase = Phase::Failed;
                self.failure = Some(Failure::HandshakeTimeout);
                self.holds_process = false;
                Directive::Shutdown
            },
            Phase::AwaitingPrediction => {
                self.phase = Phase::Connected;
                Directive::Skip(SkipReason::PredictionTimeout)
            },
            _ => Directive::Wait,
        }
    }

    /// Handles the worker's exit: a held worker is reaped and the supervisor
    /// fails; afterwards there is nothing to do.
    pub fn on_exit(&mut self) -> (r: Directive)
        requires
            old(self).wf(),
        ensures
            final(self).wf(),
            final(self).endpoint == old(self).endpoint,
            final(self).timeouts == old(self).timeouts,
            old(self).holds_process ==> {
                &&& final(self).phase == Phase::Failed
                &&& final(self).failure == Some(Failure::WorkerExited)
                &&& r == Directive::Shutdown
            },
            !old(self).holds_process ==> *final(self) == *old(self) && r == Directive::Wait,
    {
        if self.holds_process {
            self.phase = Phase::Failed;
            self.failure = Some(Failure::WorkerExited);
            self.holds_process = false;
            Directive::Shutdown
        } else {
            Directive::Wait
        }
    }

    /// Starts a prediction for an image when the worker is connected and no
    /// prediction is outstanding; returns the line to write.
    pub fn request_prediction(&mut self, image: &Vec<u8>) -> (r: Option<String>)
        requires
            old(self).wf(),
            4 * ((image@.len() + 2) / 3) <= usize::MAX,
        ensures
            final(self).wf(),
            final(self).endpoint == old(self).endpoint,
            final(self).timeouts == old(self).timeouts,
            final(self).failure == old(self).failure,
            final(self).holds_process == old(self).holds_process,
            old(self).phase == Phase::Connected ==> {
                &&& final(self).phase == Phase::AwaitingPrediction
                &&& r matches Some(line) && line@ == predict_line(image@)
            },
            old(self).phase != Phase::Connected ==> final(self).phase == old(self).phase && r is None,
    {
        if self.phase == Phase::Connected {
            self.phase = Phase::AwaitingPrediction;
            Some(predict_command(image))
        } else {
            None
        }
    }

    /// Ends the worker: a held worker is to be sent `quit`, killed and
    /// reaped, and the supervisor is terminated. Calling it again, or after a
    /// failure, changes nothing.
    pub fn terminate(&mut self) -> (r: Directive)
        requires
            old(self).wf(),
        ensures
            final(self).wf(),
            !final(self).holds_process,
            is_terminal(final(self).phase),
            old(self).holds_process ==> final(self).phase == Phase::Terminated && r == Directive::Shutdown
                && final(self).failure == old(self).failure && final(self).endpoint == old(self).endpoint
                && final(self).timeouts == old(self).timeouts,
            !old(self).holds_process ==> *final(self) == *old(self) && r == Directive::Wait,
    {
        if self.holds_process {
            self.phase = Phase::Terminated;
            self.holds_process = false;
            Directive::Shutdown
        } else {
            Directive::Wait
        }
    }
}

/// A worker that never sends `ready` stays in its first phase whatever else
/// it sends; when the wait then runs out the supervisor fails and shuts the
/// worker down, after which it holds no process.
pub proof fn lemma_silent_worker_fails(ms: Seq<WorkerMessage>)
    requires
        forall|i: int| 0 <= i < ms.len() ==> !(#[trigger] ms[i] is Ready),
    ensures
        phase_after_messages(Phase::WaitingReady, ms) == Phase::WaitingReady,
        timeout_shuts_down(phase_after_messages(Phase::WaitingReady, ms)),
        phase_after_timeout(phase_after_messages(Phase::WaitingReady, ms)) == Phase::Failed,
        is_terminal(phase_after_timeout(phase_after_messages(Phase::WaitingReady, ms))),
    decreases ms.len(),
{
    if ms.len() > 0 {
        let rest = ms.drop_last();
        assert forall|i: int| 0 <= i < rest.len() implies !(#[trigger] rest[i] is Ready) by {
            assert(rest[i] == ms[i]);
        }
        lemma_silent_worker_fails(rest);
        assert(!(ms[ms.len() - 1] is Ready));
    }
}

} // verus!
