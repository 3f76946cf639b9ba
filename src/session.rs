//! The session bootstrapper: a linear chain of steps, each a hard sequence
//! point. The caller performs each [`Action`] and hands its outcome back to
//! [`PairingSession::advance`]; the session logs every step and answers with
//! the next action, or with the final result.
use crate::credential::{choose_credential, chosen_credential, load_credential, pairing_file_parses};
use crate::text::{decimal, decimal_string, join2, join3};
use idevice::remote_pairing::RpPairingFile;
use vstd::prelude::*;

verus! {

/// How a progress event reads to the caller.
#[derive(Clone, Copy, Debug, PartialEq, Eq, Structural)]
pub enum Severity {
    Info,
    Error,
}

/// One line of the progress stream.
pub struct ProgressEvent {
    pub severity: Severity,
    pub text: String,
}

pub type EventView = (Severity, Seq<char>);

impl View for ProgressEvent {
    type V = EventView;

    open spec fn view(&self) -> EventView {
        (self.severity, self.text@)
    }
}

/// The line handed to listeners: error lines carry a prefix.
pub open spec fn event_line(e: EventView) -> Seq<char> {
    match e.0 {
        Severity::Info => e.1,
        Severity::Error => "Error: "@ + e.1,
    }
}

impl ProgressEvent {
    /// Renders the event as the line a listener receives.
    pub fn line(&self) -> (r: String)
        ensures
            r@ == event_line(self@),
    {
        match self.severity {
            Severity::Info => self.text.clone(),
            Severity::Error => join2("Error: ", self.text.as_str()),
        }
    }
}

/// Where a bootstrap attempt stands: the step whose outcome it awaits, or the end.
#[derive(Clone, Copy, Debug, PartialEq, Eq, Structural)]
pub enum Stage {
    Connecting,
    ResolvingPath,
    CreatingFile,
    WritingFile,
    ReadingFile,
    Handshaking,
    Done,
    Failed,
}

/// The outside work the caller is to perform next.
pub enum Action {
    /// Open a TCP connection to `addr`.
    Connect { addr: String },
    /// Wrap the connection as a pairing transport, then resolve the transient
    /// credential path in the scoped temporary directory.
    ResolveTempPath,
    /// Create the transient credential file.
    CreateCredentialFile,
    /// Write `bytes` to the transient credential file.
    WriteCredential { bytes: Vec<u8> },
    /// Read the transient credential file back; its content is the outcome.
    ReadCredential,
    /// Build a pairing client over the transport as `host`, then run the
    /// handshake with `pairing_file`, answering the code prompt with `code`.
    Handshake { host: String, code: String, pairing_file: RpPairingFile },
    /// The attempt is over, with this result.
    Finish { result: Result<(), String> },
    /// The attempt was already over: nothing is left to do.
    Idle,
}

/// The fixed identity this host presents to the device.
pub open spec fn host_identity() -> Seq<char> {
    "idevice-rs-jkcoxson"@
}

/// The fixed code given to the handshake when it asks for one.
pub open spec fn pairing_code() -> Seq<char> {
    "000000"@
}

pub open spec fn info(t: Seq<char>) -> EventView {
    (Severity::Info, t)
}

pub open spec fn msg_start() -> Seq<char> {
    "Starting connection process..."@
}

pub open spec fn msg_connecting(addr: Seq<char>) -> Seq<char> {
    "Connecting to "@ + addr + "..."@
}

pub open spec fn msg_connected() -> Seq<char> {
    "Socket connected."@
}

pub open spec fn msg_using(custom: bool, len: nat) -> Seq<char> {
    if custom {
        "Using custom pairing file ("@ + decimal(len) + " bytes)"@
    } else {
        "Using default baked-in plist ("@ + decimal(len) + " bytes)"@
    }
}

pub open spec fn msg_preparing() -> Seq<char> {
    "Preparing pairing file in sandbox..."@
}

pub open spec fn msg_loaded() -> Seq<char> {
    "Pairing file loaded. Initializing client..."@
}

pub open spec fn msg_pairing() -> Seq<char> {
    "Pairing with code 000000..."@
}

pub open spec fn msg_paired() -> Seq<char> {
    "oh yeah we're connected"@
}

/// Every event of an attempt that succeeds, in order.
pub open spec fn success_log(addr: Seq<char>, custom: bool, len: nat) -> Seq<EventView> {
    seq![
        info(msg_start()),
        info(msg_connecting(addr)),
        info(msg_connected()),
        info(msg_using(custom, len)),
        info(msg_preparing()),
        info(msg_loaded()),
        info(msg_pairing()),
        info(msg_paired()),
    ]
}

/// How many events of the successful log have been emitted on reaching `s`.
pub open spec fn logged(s: Stage) -> nat {
    match s {
        Stage::Connecting => 2,
        Stage::ResolvingPath => 3,
        Stage::CreatingFile => 4,
        Stage::WritingFile => 4,
        Stage::ReadingFile => 5,
        Stage::Handshaking => 7,
        Stage::Done => 8,
        Stage::Failed => 0,
    }
}

pub open spec fn source_word(custom: bool) -> Seq<char> {
    if custom {
        "custom"@
    } else {
        "default"@
    }
}

/// The message of a failure at stage `s`, from the cause that the step reported.
pub open spec fn failure_text(s: Stage, addr: Seq<char>, custom: bool, cause: Seq<char>) -> Seq<
    char,
> {
    match s {
        Stage::Connecting => "Failed to connect to "@ + addr + ": "@ + cause,
        Stage::ResolvingPath => "Failed to resolve temp directory: "@ + cause,
        Stage::CreatingFile => "Failed to create "@ + source_word(custom) + " temp file: "@ + cause,
        Stage::WritingFile => "Failed to write "@ + source_word(custom) + " temp file: "@ + cause,
        Stage::ReadingFile => "Failed to read pairing file from sandbox: "@ + cause,
        Stage::Handshaking => "no connect :(: "@ + cause,
        _ => cause,
    }
}

pub open spec fn is_terminal(s: Stage) -> bool {
    s == Stage::Done || s == Stage::Failed
}

/// What a session is: its target, its credential and where it came from,
/// its stage, and every event emitted so far.
pub struct SessionView {
    pub addr: Seq<char>,
    pub credential: Seq<u8>,
    pub custom: bool,
    pub stage: Stage,
    pub log: Seq<EventView>,
}

pub open spec fn success_log_of(v: SessionView) -> Seq<EventView> {
    success_log(v.addr, v.custom, v.credential.len())
}

/// A session's log is the successful log up to its stage; after a failure it
/// is a part of that log followed by one error event.
pub open spec fn session_wf(v: SessionView) -> bool {
    &&& v.stage != Stage::Failed ==> v.log == success_log_of(v).take(logged(v.stage) as int)
    &&& v.stage == Stage::Failed ==> {
        &&& 1 <= v.log.len() <= 8
        &&& v.log.last().0 == Severity::Error
        &&& v.log.drop_last() == success_log_of(v).take(v.log.len() - 1)
    }
}

pub open spec fn outcome_view(o: Result<Vec<u8>, String>) -> Result<Seq<u8>, Seq<char>> {
    match o {
        Ok(b) => Ok(b@),
        Err(c) => Err(c@),
    }
}

/// The stage that follows `s` on the outcome `o` of its step.
pub open spec fn next_stage(s: Stage, o: Result<Seq<u8>, Seq<char>>) -> Stage {
    if is_terminal(s) {
        s
    } else {
        match o {
            Err(_) => Stage::Failed,
            Ok(bytes) => match s {
                Stage::Connecting => Stage::ResolvingPath,
                Stage::ResolvingPath => Stage::CreatingFile,
                Stage::CreatingFile => Stage::WritingFile,
                Stage::WritingFile => Stage::ReadingFile,
                Stage::ReadingFile => if pairing_file_parses(bytes) {
                    Stage::Handshaking
                } else {
                    Stage::Failed
                },
                _ => Stage::Done,
            },
        }
    }
}

/// The action that goes with a step from `pre` to `post`.
pub open spec fn action_fits(pre: SessionView, post: SessionView, a: Action) -> bool {
    if is_terminal(pre.stage) {
        a is Idle
    } else {
        match post.stage {
            Stage::ResolvingPath => a is ResolveTempPath,
            Stage::CreatingFile => a is CreateCredentialFile,
            Stage::WritingFile => match a {
                Action::WriteCredential { bytes } => bytes@ == post.credential,
                _ => false,
            },
            Stage::ReadingFile => a is ReadCredential,
            Stage::Handshaking => match a {
                Action::Handshake { host, code, .. } => host@ == host_identity() && code@
                    == pairing_code(),
                _ => false,
            },
            Stage::Done => match a {
                Action::Finish { result } => result is Ok,
                _ => false,
            },
            Stage::Failed => match a {
                Action::Finish { result } => match result {
                    Err(m) => post.log.last() == (Severity::Error, m@),
                    Ok(_) => false,
                },
                _ => false,
            },
            Stage::Connecting => false,
        }
    }
}

/// Whether `needle` occurs in `hay`.
pub open spec fn contains(hay: Seq<char>, needle: Seq<char>) -> bool {
    exists|i: int|
        0 <= i && i + needle.len() <= hay.len() && #[trigger] hay.subrange(i, i + needle.len())
            == needle
}

/// A refused connection ends the attempt at once, with a message that names
/// the target; the attempt then stays failed, so no step that touches the
/// filesystem ever follows.
pub proof fn lemma_refused_connection_ends_attempt(
    addr: Seq<char>,
    custom: bool,
    cause: Seq<char>,
    later: Result<Seq<u8>, Seq<char>>,
)
    ensures
        next_stage(Stage::Connecting, Err(cause)) == Stage::Failed,
        contains(failure_text(Stage::Connecting, addr, custom, cause), addr),
        next_stage(Stage::Failed, later) == Stage::Failed,
{
    reveal_strlit("Failed to connect to ");
    let t = failure_text(Stage::Connecting, addr, custom, cause);
    assert(t.subrange(21, 21 + addr.len() as int) =~= addr);
}

/// An attempt that succeeded logged, in this order, the start, the connection,
/// the credential's source, its preparation, its loading, the pairing and the
/// success, and no error event.
pub proof fn lemma_success_log_in_order(v: SessionView)
    requires
        session_wf(v),
        v.stage == Stage::Done,
    ensures
        v.log == success_log(v.addr, v.custom, v.credential.len()),
        forall|i: int| 0 <= i < v.log.len() ==> (#[trigger] v.log[i]).0 == Severity::Info,
{
    assert(success_log_of(v).take(8) =~= success_log_of(v));
}

/// An error event is always the last event of an attempt, and only a failed
/// attempt has one.
pub proof fn lemma_error_event_is_last(v: SessionView, i: int)
    requires
        session_wf(v),
        0 <= i < v.log.len(),
        v.log[i].0 == Severity::Error,
    ensures
        v.stage == Stage::Failed,
        i == v.log.len() - 1,
{
    let full = success_log_of(v);
    if v.stage != Stage::Failed {
        assert(v.log[i] == full[i]);
    } else if i < v.log.len() - 1 {
        assert(v.log[i] == v.log.drop_last()[i]);
        assert(v.log.drop_last()[i] == full[i]);
    }
}

/// One bootstrap attempt.
pub struct PairingSession {
    addr: String,
    credential: Vec<u8>,
    custom: bool,
    stage: Stage,
    log: Vec<ProgressEvent>,
}

pub open spec fn events_view(log: Seq<ProgressEvent>) -> Seq<EventView> {
    log.map_values(|e: ProgressEvent| e@)
}

impl View for PairingSession {
    type V = SessionView;

    closed spec fn view(&self) -> SessionView {
        SessionView {
            addr: self.addr@,
            credential: self.credential@,
            custom: self.custom,
            stage: self.stage,
            log: events_view(self.log@),
        }
    }
}

fn copy_bytes(b: &Vec<u8>) -> (r: Vec<u8>)
    ensures
        r@ == b@,
{
    let mut r: Vec<u8> = Vec::new();
    let mut i: usize = 0;
    while i < b.len()
        invariant
            i <= b@.len(),
            r@ == b@.take(i as int),
        decreases b@.len() - i,
    {
        r.push(b[i]);
        i = i + 1;
        proof {
            assert(r@ =~= b@.take(i as int));
        }
    }
    proof {
        assert(b@.take(i as int) =~= b@);
    }
    r
}

fn push_event(log: &mut Vec<ProgressEvent>, severity: Severity, text: String)
    ensures
        events_view(final(log)@) == events_view(old(log)@).push((severity, text@)),
{
    log.push(ProgressEvent { severity, text });
    proof {
        assert(events_view(final(log)@) =~= events_view(old(log)@).push((severity, text@)));
    }
}

fn fail_with(log: &mut Vec<ProgressEvent>, msg: String) -> (a: Action)
    ensures
        events_view(final(log)@) == events_view(old(log)@).push((Severity::Error, msg@)),
        match a {
            Action::Finish { result } => match result {
                Err(m) => m@ == msg@,
                Ok(_) => false,
            },
            _ => false,
        },
{
    let m = msg.clone();
    push_event(log, Severity::Error, msg);
    Action::Finish { result: Err(m) }
}

fn source_word_str(custom: bool) -> (r: &'static str)
    ensures
        r@ == source_word(custom),
{
    if custom {
        "custom"
    } else {
        "default"
    }
}

impl PairingSession {
    #[verifier::type_invariant]
    spec fn well_formed(self) -> bool {
        session_wf(self@)
    }

    /// Starts an attempt on `addr` with the caller's credential bytes, or the
    /// built-in `default` when none are supplied. Emits the opening events and
    /// asks for the connection.
    pub fn start(addr: String, custom: Option<Vec<u8>>, default: Vec<u8>) -> (r: (
        PairingSession,
        Action,
    ))
        ensures
            r.0@.addr == addr@,
            r.0@.custom == custom is Some,
            r.0@.credential == chosen_credential(
                match custom {
                    Some(b) => Some(b@),
                    None => None,
                },
                default@,
            ),
            r.0@.stage == Stage::Connecting,
            r.0@.log == success_log_of(r.0@).take(2),
            session_wf(r.0@),
            match r.1 {
                Action::Connect { addr: a } => a@ == addr@,
                _ => false,
            },
    {
        let is_custom = custom.is_some();
        let credential = choose_credential(custom, default);
        let mut log: Vec<ProgressEvent> = Vec::new();
        push_event(&mut log, Severity::Info, String::from_str("Starting connection process..."));
        push_event(&mut log, Severity::Info, join3("Connecting to ", addr.as_str(), "..."));
        let target = addr.clone();
        proof {
            assert(events_view(log@) =~= success_log(addr@, is_custom, credential@.len()).take(2));
        }
        (
            PairingSession { addr, credential, custom: is_custom, stage: Stage::Connecting, log },
            Action::Connect { addr: target },
        )
    }

    /// Takes the outcome of the last action: `Ok` with what the step produced
    /// (the file's content for [`Action::ReadCredential`], else nothing of
    /// interest), or `Err` with the step's cause. Logs the step and answers
    /// with the session that follows and the next action. The first failure
    /// ends the attempt; after the end, nothing changes.
    pub fn advance(self, outcome: Result<Vec<u8>, String>) -> (r: (PairingSession, Action))
        ensures
            session_wf(r.0@),
            r.0@.addr == self@.addr,
            r.0@.credential == self@.credential,
            r.0@.custom == self@.custom,
            r.0@.stage == next_stage(self@.stage, outcome_view(outcome)),
            action_fits(self@, r.0@, r.1),
            is_terminal(self@.stage) ==> r.0@ == self@,
            match outcome {
                Ok(b) => self@.stage == Stage::ReadingFile && b@.len() < 8 ==> r.0@.stage
                    == Stage::Failed,
                Err(_) => true,
            },
            !is_terminal(self@.stage) && r.0@.stage == Stage::Failed ==> {
                &&& r.0@.log == self@.log.push(r.0@.log.last())
                &&& match outcome {
                    Err(c) => r.0@.log.last().1 == failure_text(
                        self@.stage,
                        self@.addr,
                        self@.custom,
                        c@,
                    ),
                    Ok(_) => exists|d: Seq<char>|
                        r.0@.log.last().1 == failure_text(
                            Stage::ReadingFile,
                            self@.addr,
                            self@.custom,
                            d,
                        ),
                }
            },
    {
        proof {
            use_type_invariant(&self);
        }
        let ghost pre = self@;
        let PairingSession { addr, credential, custom, stage, mut log } = self;
        let ghost full = success_log(addr@, custom, credential@.len());
        let (next, action) = match stage {
            Stage::Connecting => match outcome {
                Ok(_) => {
                    push_event(&mut log, Severity::Info, String::from_str("Socket connected."));
                    proof {
                        assert(events_view(log@) =~= full.take(3));
                    }
                    (Stage::ResolvingPath, Action::ResolveTempPath)
                },
                Err(c) => {
                    let head = join3("Failed to connect to ", addr.as_str(), ": ");
                    (Stage::Failed, fail_with(&mut log, join2(head.as_str(), c.as_str())))
                },
            },
            Stage::ResolvingPath => match outcome {
                Ok(_) => {
                    let n = decimal_string(credential.len());
                    let text = if custom {
                        join3("Using custom pairing file (", n.as_str(), " bytes)")
                    } else {
                        join3("Using default baked-in plist (", n.as_str(), " bytes)")
                    };
                    push_event(&mut log, Severity::Info, text);
                    proof {
                        assert(events_view(log@) =~= full.take(4));
                    }
                    (Stage::CreatingFile, Action::CreateCredentialFile)
                },
                Err(c) => (
                    Stage::Failed,
                    fail_with(&mut log, join2("Failed to resolve temp directory: ", c.as_str())),
                ),
            },
            Stage::CreatingFile => match outcome {
                Ok(_) => {
                    let bytes = copy_bytes(&credential);
                    (Stage::WritingFile, Action::WriteCredential { bytes })
                },
                Err(c) => {
                    let head = join3("Failed to create ", source_word_str(custom), " temp file: ");
                    (Stage::Failed, fail_with(&mut log, join2(head.as_str(), c.as_str())))
                },
            },
            Stage::WritingFile => match outcome {
                Ok(_) => {
                    push_event(
                        &mut log,
                        Severity::Info,
                        String::from_str("Preparing pairing file in sandbox..."),
                    );
                    proof {
                        assert(events_view(log@) =~= full.take(5));
                    }
                    (Stage::ReadingFile, Action::ReadCredential)
                },
                Err(c) => {
                    let head = join3("Failed to write ", source_word_str(custom), " temp file: ");
                    (Stage::Failed, fail_with(&mut log, join2(head.as_str(), c.as_str())))
                },
            },
            Stage::ReadingFile => match outcome {
                Ok(bytes) => match load_credential(bytes.as_slice()) {
                    Ok(pairing_file) => {
                        push_event(
                            &mut log,
                            Severity::Info,
                            String::from_str("Pairing file loaded. Initializing client..."),
                        );
                        push_event(
                            &mut log,
                            Severity::Info,
                            String::from_str("Pairing with code 000000..."),
                        );
                        proof {
                            assert(events_view(log@) =~= full.take(7));
                        }
                        let action = Action::Handshake {
                            host: String::from_str("idevice-rs-jkcoxson"),
                            code: String::from_str("000000"),
                            pairing_file,
                        };
                        (Stage::Handshaking, action)
                    },
                    Err(d) => {
                        let msg = join2("Failed to read pairing file from sandbox: ", d.as_str());
                        proof {
                            assert(msg@ == failure_text(Stage::ReadingFile, addr@, custom, d@));
                        }
                        (Stage::Failed, fail_with(&mut log, msg))
                    },
                },
                Err(c) => (
                    Stage::Failed,
                    fail_with(
                        &mut log,
                        join2("Failed to read pairing file from sandbox: ", c.as_str()),
                    ),
                ),
            },
            Stage::Handshaking => match outcome {
                Ok(_) => {
                    push_event(&mut log, Severity::Info, String::from_str("oh yeah we're connected"));
                    proof {
                        assert(events_view(log@) =~= full.take(8));
                    }
                    (Stage::Done, Action::Finish { result: Ok(()) })
                },
                Err(c) => (Stage::Failed, fail_with(&mut log, join2("no connect :(: ", c.as_str()))),
            },
            Stage::Done => (Stage::Done, Action::Idle),
            Stage::Failed => (Stage::Failed, Action::Idle),
        };
        proof {
            if next == Stage::Failed && !is_terminal(pre.stage) {
                assert(events_view(log@).drop_last() =~= pre.log);
            }
        }
        (PairingSession { addr, credential, custom, stage: next, log }, action)
    }

    /// The stage the attempt stands at.
    pub fn stage(&self) -> (r: Stage)
        ensures
            r == self@.stage,
    {
        self.stage
    }

    /// Every event emitted so far, in order.
    pub fn events(&self) -> (r: &Vec<ProgressEvent>)
        ensures
            events_view(r@) == self@.log,
    {
        &self.log
    }
}

} // verus!
