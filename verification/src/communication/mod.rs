//! GRBL protocol communication.
//!
//! The controller keeps everything that is known about one machine: the
//! connection, the parsed status, the queue of commands and the log of
//! responses. It performs no input or output itself. Operations that need the
//! transport hand back what is to be written or done, and take what came back
//! as an argument.

use vstd::prelude::*;
use std::collections::VecDeque;
use crate::text::{trim, uppercase_of, chars_of, trimmed, spells, string_of, to_uppercase};

pub mod grbl;
pub mod serial;
pub mod status;

pub use grbl::VersionInfo;
pub use serial::{SerialConfig, DataBits, StopBits, Parity, FlowControl};
pub use status::StatusReport;

verus! {

/// GRBL machine state.
#[derive(Debug, Clone, Copy, PartialEq, Eq, Structural, Hash)]
pub enum MachineState {
    Unknown,
    Idle,
    Run,
    Hold,
    Jog,
    Alarm,
    Door,
    Check,
    Home,
    Sleep,
}

impl Default for MachineState {
    fn default() -> (r: MachineState)
        ensures
            r == MachineState::Unknown,
    {
        MachineState::Unknown
    }
}

/// The state that a name stands for, letter by letter: one of the nine names
/// in upper case, and `Unknown` for any other text.
pub open spec fn state_named(name: Seq<char>) -> MachineState {
    if name == "IDLE"@ {
        MachineState::Idle
    } else if name == "RUN"@ {
        MachineState::Run
    } else if name == "HOLD"@ {
        MachineState::Hold
    } else if name == "JOG"@ {
        MachineState::Jog
    } else if name == "ALARM"@ {
        MachineState::Alarm
    } else if name == "DOOR"@ {
        MachineState::Door
    } else if name == "CHECK"@ {
        MachineState::Check
    } else if name == "HOME"@ {
        MachineState::Home
    } else if name == "SLEEP"@ {
        MachineState::Sleep
    } else {
        MachineState::Unknown
    }
}

/// Whether a text is one of the nine names of a state, in upper case.
pub open spec fn is_state_name(name: Seq<char>) -> bool {
    name == "IDLE"@ || name == "RUN"@ || name == "HOLD"@ || name == "JOG"@ || name == "ALARM"@
        || name == "DOOR"@ || name == "CHECK"@ || name == "HOME"@ || name == "SLEEP"@
}

/// The state that a piece of status text stands for: the state named by the
/// text once it is trimmed and put in upper case. Surrounding white space and
/// the case of letters do not count, and any other text is `Unknown`.
pub open spec fn state_of(s: Seq<char>) -> MachineState {
    state_named(uppercase_of(trim(s)))
}

impl MachineState {
    /// Parses the state out of a GRBL status report.
    pub fn from_str(s: &str) -> (r: MachineState)
        ensures
            r == state_of(s@),
    {
        let text = chars_of(s);
        MachineState::from_chars(&text)
    }

    /// Parses the state out of the characters of a GRBL status report.
    pub fn from_chars(text: &Vec<char>) -> (r: MachineState)
        ensures
            r == state_of(text@),
    {
        let t = trimmed(text);
        let plain = string_of(&t);
        let name = to_uppercase(plain.as_str());
        MachineState::from_upper_case(name.as_str())
    }

    /// The state that a name in upper case stands for. The name is taken
    /// letter by letter: a name in another case, or with anything around it,
    /// is `Unknown`.
    pub fn from_upper_case(name: &str) -> (r: MachineState)
        ensures
            r == state_named(name@),
    {
        let name = chars_of(name);
        if spells(&name, "IDLE") {
            MachineState::Idle
        } else if spells(&name, "RUN") {
            MachineState::Run
        } else if spells(&name, "HOLD") {
            MachineState::Hold
        } else if spells(&name, "JOG") {
            MachineState::Jog
        } else if spells(&name, "ALARM") {
            MachineState::Alarm
        } else if spells(&name, "DOOR") {
            MachineState::Door
        } else if spells(&name, "CHECK") {
            MachineState::Check
        } else if spells(&name, "HOME") {
            MachineState::Home
        } else if spells(&name, "SLEEP") {
            MachineState::Sleep
        } else {
            MachineState::Unknown
        }
    }

    /// Colour code of the state, for display.
    pub fn color(&self) -> (r: &'static str)
        ensures
            r@ == match *self {
                MachineState::Idle => "#00AA00"@,
                MachineState::Run | MachineState::Jog => "#0000FF"@,
                MachineState::Hold | MachineState::Door => "#FFFF00"@,
                MachineState::Alarm | MachineState::Check => "#FF0000"@,
                _ => "#CCCCCC"@,
            },
    {
        match self {
            MachineState::Idle => "#00AA00",
            MachineState::Run => "#0000FF",
            MachineState::Jog => "#0000FF",
            MachineState::Hold => "#FFFF00",
            MachineState::Door => "#FFFF00",
            MachineState::Alarm => "#FF0000",
            MachineState::Check => "#FF0000",
            _ => "#CCCCCC",
        }
    }
}

/// A position of the machine, each axis in thousandths of a millimetre.
#[derive(Debug, Clone, Copy, PartialEq, Eq, Structural)]
pub struct Position {
    pub x: i64,
    pub y: i64,
    pub z: i64,
}

impl Default for Position {
    fn default() -> (r: Position)
        ensures
            r == (Position { x: 0, y: 0, z: 0 }),
    {
        Position { x: 0, y: 0, z: 0 }
    }
}

/// The status of the machine as last reported.
#[derive(Debug)]
pub struct GrblStatus {
    pub state: MachineState,
    pub mpos: Position,
    pub wpos: Position,
    pub feed_rate: u32,
    pub spindle_speed: u32,
    pub version: String,
    pub connected: bool,
}

impl Default for GrblStatus {
    fn default() -> (r: GrblStatus)
        ensures
            r.state == MachineState::Unknown,
            r.mpos == (Position { x: 0, y: 0, z: 0 }),
            r.wpos == (Position { x: 0, y: 0, z: 0 }),
            r.feed_rate == 0,
            r.spindle_speed == 0,
            r.version@ == Seq::<char>::empty(),
            !r.connected,
    {
        GrblStatus {
            state: MachineState::Unknown,
            mpos: Position { x: 0, y: 0, z: 0 },
            wpos: Position { x: 0, y: 0, z: 0 },
            feed_rate: 0,
            spindle_speed: 0,
            version: String::new(),
            connected: false,
        }
    }
}

impl Clone for GrblStatus {
    fn clone(&self) -> (r: GrblStatus)
        ensures
            r == *self,
    {
        GrblStatus {
            state: self.state,
            mpos: self.mpos,
            wpos: self.wpos,
            feed_rate: self.feed_rate,
            spindle_speed: self.spindle_speed,
            version: self.version.clone(),
            connected: self.connected,
        }
    }
}

/// A response of the device.
#[derive(Debug)]
pub enum GrblResponse {
    Okay,
    Error(String),
    Status(GrblStatus),
    Version(String),
    Settings(String),
}

/// How a failed connection is retried.
#[derive(Debug, Clone, Copy, PartialEq, Eq, Structural)]
pub struct RecoveryConfig {
    pub max_retries: u32,
    pub retry_delay_ms: u64,
    pub auto_reconnect: bool,
    pub reconnect_delay_ms: u64,
}

impl Default for RecoveryConfig {
    fn default() -> (r: RecoveryConfig)
        ensures
            r == (RecoveryConfig {
                max_retries: 3,
                retry_delay_ms: 500,
                auto_reconnect: true,
                reconnect_delay_ms: 2000,
            }),
    {
        RecoveryConfig {
            max_retries: 3,
            retry_delay_ms: 500,
            auto_reconnect: true,
            reconnect_delay_ms: 2000,
        }
    }
}

/// Why an operation of the controller failed.
#[derive(Debug, Clone, Copy, PartialEq, Eq, Structural)]
pub enum ControllerError {
    /// The port could not be opened within the allowed attempts.
    Connection,
    /// An attempt was reported while no connect was under way.
    NotConnecting,
    /// The device did not answer the version query.
    VersionUnavailable,
}

impl ControllerError {
    /// A description of the error.
    pub fn message(&self) -> (r: &'static str)
        ensures
            r@ == match *self {
                ControllerError::Connection => "Failed to open serial port"@,
                ControllerError::NotConnecting => "No connection attempt in progress"@,
                ControllerError::VersionUnavailable => "No response to version query"@,
            },
    {
        match self {
            ControllerError::Connection => "Failed to open serial port",
            ControllerError::NotConnecting => "No connection attempt in progress",
            ControllerError::VersionUnavailable => "No response to version query",
        }
    }
}

/// What the driver of the transport is to do next while connecting.
#[derive(Debug, Clone, Copy, PartialEq, Eq, Structural)]
pub enum ConnectStep {
    /// Open the port now and report the outcome.
    Open,
    /// Wait the given number of milliseconds, open the port again and report
    /// the outcome.
    RetryAfter(u64),
    /// The connection stands.
    Connected,
    /// Connecting has ended without a connection.
    Failed(ControllerError),
}

/// What a read on the transport brought.
#[derive(Debug)]
pub enum ReadOutcome {
    Data(String),
    TimedOut,
    Failed,
}

/// Capacity of the response log.
pub const RESPONSE_LOG_CAPACITY: usize = 1000;

/// Baud rate of the link unless configured otherwise.
pub const DEFAULT_BAUD_RATE: u32 = 115200;

/// Milliseconds to wait for a reply to a command.
pub const COMMAND_REPLY_TIMEOUT_MS: u64 = 1000;

/// Milliseconds to wait for the reply to the version query.
pub const VERSION_REPLY_TIMEOUT_MS: u64 = 2000;

/// The realtime byte that stops motion at once.
pub const EMERGENCY_STOP_BYTE: u8 = 0x85;

/// The realtime byte that asks for a status report (`?`).
pub const STATUS_QUERY_BYTE: u8 = 0x3F;

/// The realtime byte that resumes from a hold (`~`).
pub const CYCLE_START_BYTE: u8 = 0x7E;

/// The realtime byte that resets the firmware.
pub const SOFT_RESET_BYTE: u8 = 0x18;

/// Everything the controller knows, as one value.
pub ghost struct ControllerModel {
    /// The port the connection stands on.
    pub port: Option<String>,
    /// The port that is being opened.
    pub pending: Option<String>,
    /// Open attempts made in the connect under way; 0 when none is.
    pub attempt: nat,
    pub version: String,
    pub status: GrblStatus,
    pub recovery: RecoveryConfig,
    pub commands: Seq<String>,
    pub responses: Seq<String>,
}

/// The log after one more response: the newest goes to the end, and once the
/// log is full the oldest leaves.
pub open spec fn logged<T>(log: Seq<T>, response: T) -> Seq<T> {
    if log.len() < RESPONSE_LOG_CAPACITY {
        log.push(response)
    } else {
        log.subrange(1, log.len() as int).push(response)
    }
}

/// The log after several more responses, oldest first.
pub open spec fn logged_all<T>(log: Seq<T>, responses: Seq<T>) -> Seq<T>
    decreases responses.len(),
{
    if responses.len() == 0 {
        log
    } else {
        logged(logged_all(log, responses.drop_last()), responses.last())
    }
}

/// A log within its capacity stays within it.
pub proof fn lemma_logged_bounded<T>(log: Seq<T>, response: T)
    requires
        log.len() <= RESPONSE_LOG_CAPACITY,
    ensures
        logged(log, response).len() <= RESPONSE_LOG_CAPACITY,
        logged(log, response).last() == response,
{
}

/// Logging any number of responses keeps exactly the newest entries: the old
/// log followed by the new responses, cut at the front to the capacity.
pub proof fn lemma_logged_all_keeps_newest<T>(log: Seq<T>, responses: Seq<T>)
    requires
        log.len() <= RESPONSE_LOG_CAPACITY,
    ensures
        logged_all(log, responses).len() == if log.len() + responses.len()
            <= RESPONSE_LOG_CAPACITY {
            log.len() + responses.len()
        } else {
            RESPONSE_LOG_CAPACITY as nat
        },
        logged_all(log, responses) == (log + responses).subrange(
            (log + responses).len() - logged_all(log, responses).len(),
            (log + responses).len() as int,
        ),
    decreases responses.len(),
{
    if responses.len() > 0 {
        let head = responses.drop_last();
        lemma_logged_all_keeps_newest(log, head);
        assert(log + responses == (log + head).push(responses.last()));
    } else {
        assert(log + responses == log);
    }
}

/// The controller after an open attempt of the connect under way has ended.
pub open spec fn after_attempt(m: ControllerModel, opened: bool) -> ControllerModel {
    if m.attempt == 0 {
        m
    } else if opened {
        ControllerModel {
            port: m.pending,
            pending: None,
            attempt: 0,
            status: GrblStatus { connected: true, state: MachineState::Idle, ..m.status },
            ..m
        }
    } else if m.attempt < m.recovery.max_retries {
        ControllerModel { attempt: m.attempt + 1, ..m }
    } else {
        ControllerModel { pending: None, attempt: 0, ..m }
    }
}

/// What the driver is told after an open attempt has ended.
pub open spec fn step_after_attempt(m: ControllerModel, opened: bool) -> ConnectStep {
    if m.attempt == 0 {
        ConnectStep::Failed(ControllerError::NotConnecting)
    } else if opened {
        ConnectStep::Connected
    } else if m.attempt < m.recovery.max_retries {
        ConnectStep::RetryAfter(m.recovery.retry_delay_ms)
    } else {
        ConnectStep::Failed(ControllerError::Connection)
    }
}

/// The controller after the connection was given up: no port, no connect
/// under way, and not connected. The state of the machine stays as last
/// reported.
pub open spec fn disconnected(m: ControllerModel) -> ControllerModel {
    ControllerModel {
        port: None,
        pending: None,
        attempt: 0,
        status: GrblStatus { connected: false, ..m.status },
        ..m
    }
}

/// Giving up the connection twice is giving it up once.
pub proof fn lemma_disconnect_is_idempotent(m: ControllerModel)
    ensures
        disconnected(disconnected(m)) == disconnected(m),
{
}

/// What the driver is told, step by step, when every open attempt of the
/// connect under way fails.
pub open spec fn failing_steps(m: ControllerModel) -> Seq<ConnectStep>
    decreases m.recovery.max_retries - m.attempt,
{
    if m.attempt == 0 {
        Seq::empty()
    } else if m.attempt < m.recovery.max_retries {
        seq![step_after_attempt(m, false)] + failing_steps(after_attempt(m, false))
    } else {
        seq![step_after_attempt(m, false)]
    }
}

/// A port that never opens is tried exactly as often as the attempts that are
/// left allow: every failure but the last asks for a retry after the
/// configured delay, and the last ends the connect with
/// `ControllerError::Connection`.
pub proof fn lemma_failing_connect(m: ControllerModel)
    requires
        1 <= m.attempt <= m.recovery.max_retries,
    ensures
        failing_steps(m).len() == m.recovery.max_retries - m.attempt + 1,
        failing_steps(m).last() == ConnectStep::Failed(ControllerError::Connection),
        forall|i: int|
            0 <= i < failing_steps(m).len() - 1 ==> #[trigger] failing_steps(m)[i]
                == ConnectStep::RetryAfter(m.recovery.retry_delay_ms),
    decreases m.recovery.max_retries - m.attempt,
{
    if m.attempt < m.recovery.max_retries {
        let next = after_attempt(m, false);
        lemma_failing_connect(next);
        let rest = failing_steps(next);
        assert forall|i: int| 0 <= i < failing_steps(m).len() - 1 implies #[trigger] failing_steps(
            m,
        )[i] == ConnectStep::RetryAfter(m.recovery.retry_delay_ms) by {
            if i > 0 {
                assert(failing_steps(m)[i] == rest[i - 1]);
            }
        }
    }
}

/// A connect that begins with `max_retries` attempts allowed and never gets
/// the port open makes exactly `max_retries` attempts before it fails.
pub proof fn lemma_connect_attempts_exactly_max_retries(m: ControllerModel)
    requires
        m.attempt == 1,
        m.recovery.max_retries >= 1,
    ensures
        failing_steps(m).len() == m.recovery.max_retries,
        failing_steps(m).last() == ConnectStep::Failed(ControllerError::Connection),
{
    lemma_failing_connect(m);
}

/// The case of letters never matters to the state that a text stands for:
/// two texts that are the same once trimmed and put in upper case stand for
/// the same state.
pub proof fn lemma_state_ignores_case(a: Seq<char>, b: Seq<char>)
    ensures
        uppercase_of(trim(a)) == uppercase_of(trim(b)) ==> state_of(a) == state_of(b),
{
}

/// A text in upper case stands for the state that it names, and so does
/// every text that comes to it in upper case: `up` is left as it is by
/// upper-casing, and `low` is any text whose upper-case form is `up`.
pub proof fn lemma_state_of_upper_and_lower(up: Seq<char>, low: Seq<char>)
    ensures
        uppercase_of(trim(up)) == trim(up) ==> state_of(up) == state_named(trim(up)),
        uppercase_of(trim(up)) == trim(up) && uppercase_of(trim(low)) == trim(up) ==> state_of(low)
            == state_of(up),
{
}

/// Every text stands for a state: for the one that its trimmed, upper-case
/// form names, and for `Unknown` exactly when that form is none of the nine
/// names.
pub proof fn lemma_state_is_total(s: Seq<char>)
    ensures
        state_of(s) == state_named(uppercase_of(trim(s))),
        state_of(s) == MachineState::Unknown <==> !is_state_name(uppercase_of(trim(s))),
{
}

/// Controller of one GRBL device.
pub struct GrblController {
    port: Option<String>,
    pending: Option<String>,
    attempt: u32,
    version: String,
    status: GrblStatus,
    recovery_config: RecoveryConfig,
    command_queue: VecDeque<String>,
    response_log: VecDeque<String>,
}

impl View for GrblController {
    type V = ControllerModel;

    closed spec fn view(&self) -> ControllerModel {
        ControllerModel {
            port: self.port,
            pending: self.pending,
            attempt: self.attempt as nat,
            version: self.version,
            status: self.status,
            recovery: self.recovery_config,
            commands: self.command_queue@,
            responses: self.response_log@,
        }
    }
}

impl GrblController {
    /// A controller that is not connected and has seen nothing yet.
    pub fn new() -> (r: GrblController)
        ensures
            r@.port is None,
            r@.pending is None,
            r@.attempt == 0,
            r@.version@ == Seq::<char>::empty(),
            r@.status.state == MachineState::Unknown,
            r@.status.mpos == (Position { x: 0, y: 0, z: 0 }),
            r@.status.wpos == (Position { x: 0, y: 0, z: 0 }),
            r@.status.feed_rate == 0,
            r@.status.spindle_speed == 0,
            r@.status.version@ == Seq::<char>::empty(),
            !r@.status.connected,
            r@.recovery == (RecoveryConfig {
                max_retries: 3,
                retry_delay_ms: 500,
                auto_reconnect: true,
                reconnect_delay_ms: 2000,
            }),
            r@.commands == Seq::<String>::empty(),
            r@.responses == Seq::<String>::empty(),
    {
        GrblController {
            port: None,
            pending: None,
            attempt: 0,
            version: String::new(),
            status: GrblStatus::default(),
            recovery_config: RecoveryConfig::default(),
            command_queue: VecDeque::new(),
            response_log: VecDeque::new(),
        }
    }

    /// Begins connecting to the device on `port_name`. With at least one
    /// attempt allowed the driver is told to open the port; otherwise
    /// connecting fails at once and nothing changes.
    pub fn connect(&mut self, port_name: &str) -> (r: ConnectStep)
        ensures
            old(self)@.recovery.max_retries == 0 ==> r == ConnectStep::Failed(
                ControllerError::Connection,
            ) && final(self)@ == old(self)@,
            old(self)@.recovery.max_retries > 0 ==> r == ConnectStep::Open && final(self)@.attempt
                == 1 && final(self)@.pending is Some && final(self)@.pending->0@ == port_name@
                && final(self)@ == (ControllerModel {
                pending: final(self)@.pending,
                attempt: 1,
                ..old(self)@
            }),
    {
        if self.recovery_config.max_retries == 0 {
            return ConnectStep::Failed(ControllerError::Connection);
        }
        self.pending = Some(port_name.to_owned());
        self.attempt = 1;
        ConnectStep::Open
    }

    /// Takes the outcome of an open attempt. Success connects the controller
    /// and sets the state to `Idle`. Failure asks for another attempt after
    /// the retry delay while fewer than `max_retries` attempts were made, and
    /// ends the connect with `ControllerError::Connection` after the last.
    pub fn connect_result(&mut self, opened: bool) -> (r: ConnectStep)
        ensures
            r == step_after_attempt(old(self)@, opened),
            final(self)@ == after_attempt(old(self)@, opened),
    {
        if self.attempt == 0 {
            ConnectStep::Failed(ControllerError::NotConnecting)
        } else if opened {
            self.port = self.pending.take();
            self.attempt = 0;
            self.status.connected = true;
            self.status.state = MachineState::Idle;
            ConnectStep::Connected
        } else if self.attempt < self.recovery_config.max_retries {
            self.attempt = self.attempt + 1;
            ConnectStep::RetryAfter(self.recovery_config.retry_delay_ms)
        } else {
            self.pending = None;
            self.attempt = 0;
            ConnectStep::Failed(ControllerError::Connection)
        }
    }

    /// Gives up the connection. The driver releases the transport.
    pub fn disconnect(&mut self)
        ensures
            final(self)@ == disconnected(old(self)@),
    {
        self.port = None;
        self.pending = None;
        self.attempt = 0;
        self.status.connected = false;
    }

    /// The query that asks the device for its version.
    pub fn version_query() -> (r: &'static str)
        ensures
            r@ == "$I"@,
    {
        "$I"
    }

    /// Takes the reply to the version query. Data is stored as the version,
    /// as it came, and handed back; anything else is reported and leaves the
    /// controller as it was.
    pub fn detect_version(&mut self, reply: ReadOutcome) -> (r: Result<String, ControllerError>)
        ensures
            match reply {
                ReadOutcome::Data(raw) => r == Ok::<String, ControllerError>(raw) && final(self)@
                    == (ControllerModel {
                    version: raw,
                    status: GrblStatus { version: raw, ..old(self)@.status },
                    ..old(self)@
                }),
                _ => r == Err::<String, ControllerError>(ControllerError::VersionUnavailable)
                    && final(self)@ == old(self)@,
            },
    {
        match reply {
            ReadOutcome::Data(raw) => {
                self.version = raw.clone();
                self.status.version = raw.clone();
                Ok(raw)
            },
            _ => Err(ControllerError::VersionUnavailable),
        }
    }

    /// Queues a command and hands back the line to write: the command and a
    /// line feed. The state of the machine does not matter.
    pub fn send_command(&mut self, command: &str) -> (line: String)
        ensures
            line@ == command@.push('\n'),
            final(self)@.commands.len() == old(self)@.commands.len() + 1,
            final(self)@.commands.last()@ == command@,
            final(self)@ == (ControllerModel {
                commands: old(self)@.commands.push(final(self)@.commands.last()),
                ..old(self)@
            }),
    {
        self.command_queue.push_back(command.to_owned());
        let mut v = chars_of(command);
        v.push('\n');
        string_of(&v)
    }

    /// Takes what the read after a command brought: data goes to the response
    /// log, and a read that timed out or failed changes nothing.
    pub fn command_reply(&mut self, reply: ReadOutcome)
        ensures
            match reply {
                ReadOutcome::Data(text) => final(self)@ == (ControllerModel {
                    responses: logged(old(self)@.responses, text),
                    ..old(self)@
                }),
                _ => final(self)@ == old(self)@,
            },
    {
        match reply {
            ReadOutcome::Data(text) => self.log_response(text),
            _ => {},
        }
    }

    /// Takes the oldest queued command off the queue.
    pub fn get_next_command(&mut self) -> (r: Option<String>)
        ensures
            old(self)@.commands.len() == 0 ==> r is None && final(self)@ == old(self)@,
            old(self)@.commands.len() > 0 ==> r == Some(old(self)@.commands[0]) && final(self)@
                == (ControllerModel {
                commands: old(self)@.commands.subrange(1, old(self)@.commands.len() as int),
                ..old(self)@
            }),
    {
        self.command_queue.pop_front()
    }

    /// The status as last reported.
    pub fn get_status(&self) -> (r: GrblStatus)
        ensures
            r == self@.status,
    {
        self.status.clone()
    }

    /// Replaces the reported part of the status; version and connection stay.
    pub fn update_status(
        &mut self,
        state: MachineState,
        mpos: Position,
        wpos: Position,
        feed_rate: u32,
        spindle_speed: u32,
    )
        ensures
            final(self)@ == (ControllerModel {
                status: GrblStatus {
                    state,
                    mpos,
                    wpos,
                    feed_rate,
                    spindle_speed,
                    ..old(self)@.status
                },
                ..old(self)@
            }),
    {
        self.status.state = state;
        self.status.mpos = mpos;
        self.status.wpos = wpos;
        self.status.feed_rate = feed_rate;
        self.status.spindle_speed = spindle_speed;
    }

    /// Takes over what a status report says: the state, and each other value
    /// that the report holds. Values that it lacks stay as they were.
    pub fn apply_report(&mut self, report: &StatusReport)
        ensures
            final(self)@ == (ControllerModel {
                status: GrblStatus {
                    state: report.state,
                    mpos: match report.mpos {
                        Some(p) => p,
                        None => old(self)@.status.mpos,
                    },
                    wpos: match report.wpos {
                        Some(p) => p,
                        None => old(self)@.status.wpos,
                    },
                    feed_rate: match report.feed_rate {
                        Some(f) => f,
                        None => old(self)@.status.feed_rate,
                    },
                    spindle_speed: match report.spindle_speed {
                        Some(s) => s,
                        None => old(self)@.status.spindle_speed,
                    },
                    ..old(self)@.status
                },
                ..old(self)@
            }),
    {
        self.status.state = report.state;
        if report.mpos.is_some() {
            self.status.mpos = report.mpos.unwrap();
        }
        if report.wpos.is_some() {
            self.status.wpos = report.wpos.unwrap();
        }
        if report.feed_rate.is_some() {
            self.status.feed_rate = report.feed_rate.unwrap();
        }
        if report.spindle_speed.is_some() {
            self.status.spindle_speed = report.spindle_speed.unwrap();
        }
    }

    /// Adds a response to the log; a full log drops its oldest entry.
    pub fn log_response(&mut self, response: String)
        ensures
            final(self)@ == (ControllerModel {
                responses: logged(old(self)@.responses, response),
                ..old(self)@
            }),
    {
        if self.response_log.len() >= RESPONSE_LOG_CAPACITY {
            self.response_log.pop_front();
        }
        self.response_log.push_back(response);
    }

    /// The responses in the log, oldest first.
    pub fn get_response_log(&self) -> (r: Vec<String>)
        ensures
            r@ == self@.responses,
    {
        let mut r: Vec<String> = Vec::new();
        let mut i: usize = 0;
        while i < self.response_log.len()
            invariant
                i <= self.response_log@.len(),
                r@ == self.response_log@.take(i as int),
            decreases self.response_log@.len() - i,
        {
            r.push(self.response_log[i].clone());
            i += 1;
        }
        assert(self.response_log@.take(self.response_log@.len() as int) == self.response_log@);
        r
    }

    /// Empties the response log.
    pub fn clear_response_log(&mut self)
        ensures
            final(self)@ == (ControllerModel { responses: Seq::empty(), ..old(self)@ }),
    {
        self.response_log.clear();
    }

    /// Whether the connection stands.
    pub fn is_connected(&self) -> (r: bool)
        ensures
            r == self@.status.connected,
    {
        self.status.connected
    }

    /// Replaces the recovery configuration.
    pub fn set_recovery_config(&mut self, config: RecoveryConfig)
        ensures
            final(self)@ == (ControllerModel { recovery: config, ..old(self)@ }),
    {
        self.recovery_config = config;
    }

    /// The recovery configuration.
    pub fn get_recovery_config(&self) -> (r: RecoveryConfig)
        ensures
            r == self@.recovery,
    {
        self.recovery_config
    }

    /// Stops the machine: the state is `Alarm` at once, whatever it was, and
    /// the byte to write to the transport is handed back.
    pub fn emergency_stop(&mut self) -> (byte: u8)
        ensures
            byte == EMERGENCY_STOP_BYTE,
            final(self)@ == (ControllerModel {
                status: GrblStatus { state: MachineState::Alarm, ..old(self)@.status },
                ..old(self)@
            }),
    {
        self.status.state = MachineState::Alarm;
        EMERGENCY_STOP_BYTE
    }

    /// Queues the command that clears an alarm.
    pub fn reset_alarm(&mut self) -> (line: String)
        ensures
            line@ == "$X"@.push('\n'),
            final(self)@.commands.len() == old(self)@.commands.len() + 1,
            final(self)@.commands.last()@ == "$X"@,
            final(self)@ == (ControllerModel {
                commands: old(self)@.commands.push(final(self)@.commands.last()),
                ..old(self)@
            }),
    {
        self.send_command("$X")
    }

    /// Queues the command that unlocks the machine.
    pub fn unlock(&mut self) -> (line: String)
        ensures
            line@ == "$X"@.push('\n'),
            final(self)@.commands.len() == old(self)@.commands.len() + 1,
            final(self)@.commands.last()@ == "$X"@,
            final(self)@ == (ControllerModel {
                commands: old(self)@.commands.push(final(self)@.commands.last()),
                ..old(self)@
            }),
    {
        self.send_command("$X")
    }
}

impl Default for GrblController {
    fn default() -> (r: GrblController)
        ensures
            r@.port is None,
            r@.pending is None,
            r@.attempt == 0,
            r@.version@ == Seq::<char>::empty(),
            r@.status.state == MachineState::Unknown,
            r@.status.mpos == (Position { x: 0, y: 0, z: 0 }),
            r@.status.wpos == (Position { x: 0, y: 0, z: 0 }),
            r@.status.feed_rate == 0,
            r@.status.spindle_speed == 0,
            r@.status.version@ == Seq::<char>::empty(),
            !r@.status.connected,
            r@.recovery == (RecoveryConfig {
                max_retries: 3,
                retry_delay_ms: 500,
                auto_reconnect: true,
                reconnect_delay_ms: 2000,
            }),
            r@.commands == Seq::<String>::empty(),
            r@.responses == Seq::<String>::empty(),
    {
        GrblController::new()
    }
}

} // verus!
