//! The key dispatcher: it turns a key press into calls to the remote editor,
//! asks for the editor's mode before it forwards a character, retries a call
//! that failed in passing, and says when the relay is to stop.
//!
//! The listener is a state machine. [`KeyListener::listen`] takes a key and
//! [`KeyListener::resume`] takes what the host received for the bytes of the
//! last [`Step::Exchange`]; each returns the next [`Step`].

use vstd::prelude::*;
use crate::codec::request_model;
use crate::dispatch::answered;
use crate::dispatch::attempts_ahead;
use crate::dispatch::dispatched;
use crate::dispatch::lemma_exit_only_on_sentinel;
use crate::dispatch::lemma_settled_stays;
use crate::dispatch::requests_at_most;
use crate::dispatch::settled;
use crate::error::Failure;
use crate::error::RpcError;
use crate::query::feed_reply;
use crate::query::mode_reply;
use crate::query::read_fed;
use crate::query::read_mode;
use crate::msgpack::encoded;
use crate::retry::limit;
use crate::retry::retry;
use crate::retry::verdict;
use crate::retry::Fatal;
use crate::retry::Verdict;
use crate::session::feedkeys_method;
use crate::session::feedkeys_params;
use crate::session::get_mode_method;
use crate::session::Received;
use crate::session::Session;
use crate::session::SessionModel;
use crate::text::single;

verus! {

/// Whether the relay is to stop.
pub type ShouldExit = bool;

/// A key press, as the terminal reports it.
#[derive(Debug, Clone, Copy, PartialEq, Eq, Structural)]
pub enum Key {
    Char(char),
    Enter,
    Esc,
    Backspace,
    Tab,
    Left,
    Right,
    Up,
    Down,
    /// Any other key; it is ignored.
    Other,
}

/// What the behaviour of a listener is set by.
#[derive(Debug, Clone, Copy, PartialEq, Eq, Structural)]
pub struct Settings {
    /// The character that stops the relay instead of being forwarded.
    pub exit_sentinel: char,
    /// Whether the arrow keys are forwarded, as `h`, `l`, `k` and `j`.
    pub arrows: bool,
    /// How many attempts a call gets before its failure is fatal.
    pub retries: u64,
}

/// The remote operation that a call performs.
#[derive(Debug, Clone, Copy, PartialEq, Eq, Structural)]
pub enum Operation {
    GetMode,
    FeedKeys,
}

/// The single character that a key other than a character key is forwarded
/// as, whatever the mode: a line feed for Enter, the escape character for
/// Esc, the backspace character for Backspace, a tab for Tab and, where
/// `arrows` is set, `h`, `l`, `k` and `j` for Left, Right, Up and Down.
pub open spec fn literal(key: Key, arrows: bool) -> Option<char> {
    match key {
        Key::Enter => Some('\n'),
        Key::Esc => Some('\x1b'),
        Key::Backspace => Some('\x08'),
        Key::Tab => Some('\t'),
        Key::Left => if arrows { Some('h') } else { None },
        Key::Right => if arrows { Some('l') } else { None },
        Key::Up => if arrows { Some('k') } else { None },
        Key::Down => if arrows { Some('j') } else { None },
        Key::Char(_) => None,
        Key::Other => None,
    }
}

/// The literal of a key: see [`literal`].
pub fn translate(key: Key, arrows: bool) -> (r: Option<char>)
    ensures
        r == literal(key, arrows),
{
    match key {
        Key::Enter => Some('\n'),
        Key::Esc => Some('\x1b'),
        Key::Backspace => Some('\x08'),
        Key::Tab => Some('\t'),
        Key::Left => if arrows { Some('h') } else { None },
        Key::Right => if arrows { Some('l') } else { None },
        Key::Up => if arrows { Some('k') } else { None },
        Key::Down => if arrows { Some('j') } else { None },
        Key::Char(_) => None,
        Key::Other => None,
    }
}

/// The mathematical value of a [`Task`].
pub enum TaskModel {
    /// The mode query that a listener starts with.
    Startup,
    /// The mode query that precedes the feeding of these keys.
    Query(Seq<char>),
    /// The feeding of these keys.
    Feed(Seq<char>),
}

/// What a listener is busy with.
#[derive(Debug, PartialEq, Eq)]
enum Task {
    /// The mode query that a listener starts with.
    Startup,
    /// The mode query that precedes the feeding of these keys.
    Query(String),
    /// The feeding of these keys.
    Feed(String),
}

impl View for Task {
    type V = TaskModel;

    closed spec fn view(&self) -> TaskModel {
        match self {
            Task::Startup => TaskModel::Startup,
            Task::Query(keys) => TaskModel::Query(keys@),
            Task::Feed(keys) => TaskModel::Feed(keys@),
        }
    }
}

impl TaskModel {
    /// The remote operation that the task calls.
    pub open spec fn operation(self) -> Operation {
        match self {
            TaskModel::Feed(_) => Operation::FeedKeys,
            _ => Operation::GetMode,
        }
    }
}

/// The mathematical value of a listener's phase.
pub enum PhaseModel {
    /// No call is under way: a key may be taken.
    Idle,
    /// Attempt number `attempt` of `task` is under way, as the request
    /// numbered `id`.
    Waiting { task: TaskModel, attempt: u64, id: u32 },
}

/// The mathematical value of a [`KeyListener`].
pub struct ListenerModel {
    pub session: SessionModel,
    /// The mode that the editor last reported.
    pub mode: Seq<char>,
    pub settings: Settings,
    pub phase: PhaseModel,
}

impl ListenerModel {
    /// What holds of every listener: an attempt that is under way is one
    /// that the bound allows.
    pub open spec fn wf(self) -> bool {
        self.phase matches PhaseModel::Waiting { attempt, .. } ==> 1 <= attempt <= limit(self.settings.retries)
    }
}

/// The mathematical value of a [`Step`].
pub enum StepModel {
    Exchange(Seq<u8>),
    Finished(bool),
    Rejected(Failure),
    /// The operation, the number of attempts, and the failure of the last.
    Fatal(Operation, u64, Failure),
}

/// What the host is to do next.
#[derive(Debug, PartialEq)]
pub enum Step {
    /// Write these bytes to the connection, read once, and hand what was
    /// received to [`KeyListener::resume`].
    Exchange(Vec<u8>),
    /// The key is dealt with. The flag says whether the relay is to stop.
    Finished(ShouldExit),
    /// A call failed in a way that another attempt would not mend. The key
    /// was not forwarded; the relay may go on.
    Rejected(RpcError),
    /// An operation failed on every attempt that it had. The relay cannot go
    /// on.
    Fatal(Fatal<Operation, RpcError>),
}

impl View for Step {
    type V = StepModel;

    open spec fn view(&self) -> StepModel {
        match self {
            Step::Exchange(bytes) => StepModel::Exchange(bytes@),
            Step::Finished(exit) => StepModel::Finished(*exit),
            Step::Rejected(error) => StepModel::Rejected(error@),
            Step::Fatal(fatal) => StepModel::Fatal(fatal.operation, fatal.attempts, fatal.cause@),
        }
    }
}

/// The task that a key calls for, if any: the exit sentinel and the keys
/// without a literal call for none.
pub open spec fn task_for(key: Key, settings: Settings) -> Option<TaskModel> {
    match key {
        Key::Char(c) => if c == settings.exit_sentinel {
            None
        } else {
            Some(TaskModel::Query(seq![c]))
        },
        _ => match literal(key, settings.arrows) {
            Some(c) => Some(TaskModel::Feed(seq![c])),
            None => None,
        },
    }
}

/// The bytes of the request numbered `id` that a task makes while the mode
/// is `mode`: a mode query has no parameters, and keys are fed as typed in
/// the mode.
pub open spec fn request_for(task: TaskModel, id: u32, mode: Seq<char>) -> Seq<u8> {
    match task {
        TaskModel::Feed(keys) => encoded(
            request_model(id, feedkeys_method(), feedkeys_params(keys, mode)),
        ),
        _ => encoded(request_model(id, get_mode_method(), Seq::empty())),
    }
}

/// The listener and the step after it has made attempt number `attempt` of
/// `task`: the request takes the session's next id.
pub open spec fn attempted(pre: ListenerModel, task: TaskModel, attempt: u64) -> (ListenerModel, StepModel) {
    let id = pre.session.next_id;
    (
        ListenerModel {
            session: SessionModel { next_id: (id + 1) as u32, ..pre.session },
            phase: PhaseModel::Waiting { task, attempt, id },
            ..pre
        },
        StepModel::Exchange(request_for(task, id, pre.mode)),
    )
}

/// The listener and the step after `key` was pressed. The exit sentinel
/// finishes at once with the flag set and leaves the listener as it was, and
/// so does a key that is ignored, with the flag clear. Any other character
/// starts a mode query, and a key with a literal starts the feeding of it.
pub open spec fn listened(pre: ListenerModel, key: Key) -> (ListenerModel, StepModel) {
    match task_for(key, pre.settings) {
        Some(task) => attempted(pre, task, 1),
        None => (pre, StepModel::Finished(key == Key::Char(pre.settings.exit_sentinel))),
    }
}

/// What the host received means to the attempt of `task` numbered `id`: the
/// mode that a query learned, nothing for keys that were fed, or the failure.
pub open spec fn outcome_of(task: TaskModel, id: u32, received: Received) -> Result<
    Option<Seq<char>>,
    Failure,
> {
    match task {
        TaskModel::Feed(_) => match feed_reply(id, received) {
            Ok(_) => Ok(None),
            Err(failure) => Err(failure),
        },
        _ => match mode_reply(id, received) {
            Ok(mode) => Ok(Some(mode)),
            Err(failure) => Err(failure),
        },
    }
}

/// The listener and the step after the host handed over what it received.
///
/// A mode that was learned becomes the listener's mode. A query made for
/// keys is followed by the feeding of those keys, in the mode just learned;
/// any other success finishes the key. A failure that is not
/// transient is handed on at once. A transient one is followed by another
/// attempt, under a new id, while attempts are left, and is fatal otherwise.
/// A listener that waits for no reply stays as it is.
pub open spec fn resumed(pre: ListenerModel, received: Received) -> (ListenerModel, StepModel) {
    match pre.phase {
        PhaseModel::Idle => (pre, StepModel::Finished(false)),
        PhaseModel::Waiting { task, attempt, id } => {
            let idle = ListenerModel { phase: PhaseModel::Idle, ..pre };
            match outcome_of(task, id, received) {
                Ok(learned) => {
                    let informed = ListenerModel {
                        mode: match learned {
                            Some(mode) => mode,
                            None => pre.mode,
                        },
                        ..idle
                    };
                    match task {
                        TaskModel::Query(keys) => attempted(informed, TaskModel::Feed(keys), 1),
                        _ => (informed, StepModel::Finished(false)),
                    }
                },
                Err(failure) => if !failure.is_transient() {
                    (idle, StepModel::Rejected(failure))
                } else {
                    match verdict::<(), Failure>(attempt, pre.settings.retries, Err(failure)) {
                        Verdict::Again => attempted(pre, task, (attempt + 1) as u64),
                        _ => (idle, StepModel::Fatal(task.operation(), attempt, failure)),
                    }
                },
            }
        },
    }
}

/// A listener's phase.
#[derive(Debug, PartialEq, Eq)]
enum Phase {
    Idle,
    Waiting { task: Task, attempt: u64, id: u32 },
}

/// The key dispatcher of one session.
#[derive(Debug)]
pub struct KeyListener {
    nvim: Session,
    mode: String,
    settings: Settings,
    phase: Phase,
}

impl View for KeyListener {
    type V = ListenerModel;

    closed spec fn view(&self) -> ListenerModel {
        ListenerModel {
            session: self.nvim@,
            mode: self.mode@,
            settings: self.settings,
            phase: match self.phase {
                Phase::Idle => PhaseModel::Idle,
                Phase::Waiting { task, attempt, id } => PhaseModel::Waiting { task: task@, attempt, id },
            },
        }
    }
}

impl KeyListener {
    /// A listener on `nvim` that is idle and knows no mode yet.
    pub fn new(nvim: Session, settings: Settings) -> (listener: KeyListener)
        ensures
            listener@ == (ListenerModel {
                session: nvim@,
                mode: Seq::empty(),
                settings,
                phase: PhaseModel::Idle,
            }),
            listener@.wf(),
    {
        KeyListener { nvim, mode: String::new(), settings, phase: Phase::Idle }
    }

    /// Whether the listener waits for a key, and not for a reply.
    pub fn is_idle(&self) -> (r: bool)
        ensures
            r == (self@.phase is Idle),
    {
        match self.phase {
            Phase::Idle => true,
            _ => false,
        }
    }

    /// Whether the session has an id left for another request.
    pub fn has_id_left(&self) -> (r: bool)
        ensures
            r == (self@.session.next_id < u32::MAX),
    {
        self.nvim.has_id_left()
    }

    /// The mode that the editor last reported.
    pub fn mode(&self) -> (r: &str)
        ensures
            r@ == self@.mode,
    {
        self.mode.as_str()
    }

    /// Whether `key` calls for a request: the exit sentinel and the keys that
    /// are ignored call for none.
    pub fn calls_for_request(&self, key: Key) -> (r: bool)
        ensures
            r == (task_for(key, self@.settings) is Some),
    {
        match key {
            Key::Char(c) => c != self.settings.exit_sentinel,
            _ => translate(key, self.settings.arrows).is_some(),
        }
    }

    /// How many attempts a call gets.
    pub fn retries(&self) -> (r: u64)
        ensures
            r == self@.settings.retries,
    {
        self.settings.retries
    }

    /// The session that the listener works on.
    pub fn session(&self) -> (r: &Session)
        ensures
            r@ == self@.session,
    {
        &self.nvim
    }

    /// Makes attempt number `attempt` of `task`.
    fn attempt(&mut self, task: Task, attempt: u64) -> (step: Step)
        requires
            old(self)@.session.next_id < u32::MAX,
            1 <= attempt <= limit(old(self)@.settings.retries),
        ensures
            (final(self)@, step@) == attempted(old(self)@, task@, attempt),
            final(self)@.wf(),
    {
        let pending = match &task {
            Task::Feed(keys) => self.nvim.feedkeys(keys.as_str(), self.mode.as_str()),
            _ => self.nvim.get_current_mode(),
        };
        self.phase = Phase::Waiting { task, attempt, id: pending.id };
        Step::Exchange(pending.bytes)
    }

    /// Starts the listener's first mode query.
    pub fn start(&mut self) -> (step: Step)
        requires
            old(self)@.phase is Idle,
            old(self)@.session.next_id < u32::MAX,
        ensures
            (final(self)@, step@) == attempted(old(self)@, TaskModel::Startup, 1),
            final(self)@.wf(),
    {
        self.attempt(Task::Startup, 1)
    }

    /// Takes a key press: see [`listened`]. The listener must be idle, and
    /// the session must have an id left if the key calls for a request.
    pub fn listen(&mut self, key: Key) -> (step: Step)
        requires
            old(self)@.phase is Idle,
            task_for(key, old(self)@.settings) is Some ==> old(self)@.session.next_id < u32::MAX,
        ensures
            (final(self)@, step@) == listened(old(self)@, key),
            final(self)@.wf(),
    {
        match key {
            Key::Char(c) => {
                if c == self.settings.exit_sentinel {
                    Step::Finished(true)
                } else {
                    self.attempt(Task::Query(single(c)), 1)
                }
            },
            _ => match translate(key, self.settings.arrows) {
                Some(c) => self.attempt(Task::Feed(single(c)), 1),
                None => Step::Finished(false),
            },
        }
    }

    /// Asks for the mode and then feeds `keys` in it, as one call.
    pub fn forward(&mut self, keys: &str) -> (step: Step)
        requires
            old(self)@.phase is Idle,
            old(self)@.session.next_id < u32::MAX,
        ensures
            (final(self)@, step@) == attempted(old(self)@, TaskModel::Query(keys@), 1),
            final(self)@.wf(),
    {
        self.attempt(Task::Query(keys.to_owned()), 1)
    }

    /// Feeds `keys` in the mode last reported, as one call and without
    /// asking for the mode first.
    pub fn send_keys(&mut self, keys: &str) -> (step: Step)
        requires
            old(self)@.phase is Idle,
            old(self)@.session.next_id < u32::MAX,
        ensures
            (final(self)@, step@) == attempted(old(self)@, TaskModel::Feed(keys@), 1),
            final(self)@.wf(),
    {
        self.attempt(Task::Feed(keys.to_owned()), 1)
    }

    /// How the listener is set.
    pub fn settings(&self) -> (r: Settings)
        ensures
            r == self@.settings,
    {
        self.settings
    }

    /// Feeds one character in the mode last reported, without asking for the
    /// mode first.
    pub fn send_key(&mut self, key: char) -> (step: Step)
        requires
            old(self)@.phase is Idle,
            old(self)@.session.next_id < u32::MAX,
        ensures
            (final(self)@, step@) == attempted(old(self)@, TaskModel::Feed(seq![key]), 1),
            final(self)@.wf(),
    {
        self.attempt(Task::Feed(single(key)), 1)
    }

    /// Takes what the host received for the last exchange: see [`resumed`].
    /// The listener must be waiting for it, and the session must have an id
    /// left if another request follows.
    pub fn resume(&mut self, received: Received) -> (step: Step)
        requires
            old(self)@.wf(),
            old(self)@.phase is Waiting,
            resumed(old(self)@, received).1 is Exchange ==> old(self)@.session.next_id < u32::MAX,
        ensures
            (final(self)@, step@) == resumed(old(self)@, received),
            final(self)@.wf(),
    {
        let mut phase = Phase::Idle;
        core::mem::swap(&mut self.phase, &mut phase);
        match phase {
            Phase::Idle => Step::Finished(false),
            Phase::Waiting { task, attempt, id } => {
                let outcome = match &task {
                    Task::Feed(_) => match read_fed(id, received) {
                        Ok(_) => Ok(None),
                        Err(error) => Err(error),
                    },
                    _ => match read_mode(id, received) {
                        Ok(mode) => Ok(Some(mode)),
                        Err(error) => Err(error),
                    },
                };
                match outcome {
                    Ok(learned) => {
                        match learned {
                            Some(mode) => {
                                self.mode = mode;
                            },
                            None => {},
                        }
                        match task {
                            Task::Query(keys) => self.attempt(Task::Feed(keys), 1),
                            _ => Step::Finished(false),
                        }
                    },
                    Err(error) => {
                        if !error.is_retryable() {
                            Step::Rejected(error)
                        } else {
                            let operation = match &task {
                                Task::Feed(_) => Operation::FeedKeys,
                                _ => Operation::GetMode,
                            };
                            match retry::<(), RpcError>(attempt, self.settings.retries, Err(error)) {
                                Verdict::GiveUp(cause) => Step::Fatal(
                                    Fatal { operation, attempts: attempt, cause },
                                ),
                                _ => self.attempt(task, attempt + 1),
                            }
                        }
                    },
                }
            },
        }
    }

    /// Whether the session has ids left for all the requests that a key can
    /// lead to.
    pub fn can_dispatch(&self) -> (r: bool)
        ensures
            r == (self@.session.next_id + requests_at_most(self@.settings.retries) < u32::MAX),
    {
        let retries = self.retries();
        let most: u128 = if retries == 0 {
            2
        } else {
            2 * (retries as u128)
        };
        (self.session().message_id() as u128) + most < (u32::MAX as u128)
    }

    /// Answers the exchanges that follow `step` by calls of `exchange`, until
    /// a step comes that asks for none. That step is returned.
    pub fn settle<F: Fn(Vec<u8>) -> Received>(&mut self, step: Step, exchange: &F) -> (last: Step)
        requires
            forall|bytes: Vec<u8>| call_requires(*exchange, (bytes,)),
            old(self)@.wf(),
            step@ is Exchange <==> old(self)@.phase is Waiting,
            old(self)@.phase is Waiting ==> old(self)@.session.next_id + attempts_ahead(old(self)@)
                < u32::MAX,
        ensures
            !(last@ is Exchange),
            final(self)@.phase is Idle,
            final(self)@.settings == old(self)@.settings,
            final(self)@.session.address == old(self)@.session.address,
            old(self)@.session.next_id <= final(self)@.session.next_id <= old(self)@.session.next_id
                + attempts_ahead(old(self)@),
            exists|script: Seq<Received>|
                (answered(*exchange, (old(self)@, step@), script) && (final(self)@, last@) == settled(
                    (old(self)@, step@),
                    script,
                )),
    {
        let ghost start = (self@, step@);
        let ghost mut script: Seq<Received> = Seq::empty();
        let mut current = step;
        loop
            invariant
                forall|bytes: Vec<u8>| call_requires(*exchange, (bytes,)),
                start == (old(self)@, step@),
                self@.wf(),
                self@.settings == old(self)@.settings,
                self@.session.address == old(self)@.session.address,
                old(self)@.session.next_id <= self@.session.next_id,
                self@.session.next_id + attempts_ahead(self@) <= old(self)@.session.next_id + attempts_ahead(
                    old(self)@,
                ),
                current@ is Exchange <==> self@.phase is Waiting,
                self@.phase is Waiting ==> self@.session.next_id + attempts_ahead(self@) < u32::MAX,
                answered(*exchange, start, script),
                (self@, current@) == settled(start, script),
            decreases attempts_ahead(self@) + if current@ is Exchange { 1int } else { 0int },
        {
            match current {
                Step::Exchange(bytes) => {
                    let received = exchange(bytes);
                    proof {
                        let longer = script.push(received);
                        assert(longer.drop_last() == script);
                        script = longer;
                    }
                    current = self.resume(received);
                },
                last => {
                    assert(answered(*exchange, start, script) && (self@, last@) == settled(start, script));
                    return last;
                },
            }
        }
    }

    /// Deals with a key press from beginning to end: the key is taken as
    /// [`KeyListener::listen`] takes it, and the exchanges that follow are
    /// made by `exchange`, which gets the bytes to write and returns what was
    /// read. The step returned is the one that [`dispatched`] names for some
    /// script of replies that `exchange` may have given.
    pub fn dispatch<F: Fn(Vec<u8>) -> Received>(&mut self, key: Key, exchange: &F) -> (last: Step)
        requires
            forall|bytes: Vec<u8>| call_requires(*exchange, (bytes,)),
            old(self)@.phase is Idle,
            task_for(key, old(self)@.settings) is Some ==> old(self)@.session.next_id + requests_at_most(
                old(self)@.settings.retries,
            ) < u32::MAX,
        ensures
            !(last@ is Exchange),
            final(self)@.phase is Idle,
            final(self)@.settings == old(self)@.settings,
            final(self)@.session.address == old(self)@.session.address,
            old(self)@.session.next_id <= final(self)@.session.next_id <= old(self)@.session.next_id
                + requests_at_most(old(self)@.settings.retries),
            last@ == StepModel::Finished(true) <==> key == Key::Char(old(self)@.settings.exit_sentinel),
            task_for(key, old(self)@.settings) is None ==> final(self)@ == old(self)@ && last@
                == StepModel::Finished(key == Key::Char(old(self)@.settings.exit_sentinel)),
            exists|script: Seq<Received>|
                (answered(*exchange, listened(old(self)@, key), script) && (final(self)@, last@) == dispatched(
                    old(self)@,
                    key,
                    script,
                )),
    {
        let step = self.listen(key);
        let last = self.settle(step, exchange);
        proof {
            let script = choose|script: Seq<Received>|
                answered(*exchange, listened(old(self)@, key), script) && (self@, last@) == settled(
                    listened(old(self)@, key),
                    script,
                );
            lemma_exit_only_on_sentinel(old(self)@, key, script);
            if task_for(key, old(self)@.settings) is None {
                lemma_settled_stays(listened(old(self)@, key), script);
            }
        }
        last
    }
}

} // verus!
