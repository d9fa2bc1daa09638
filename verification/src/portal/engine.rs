//! Engines and the handle that callers hold.
//!
//! An engine owns the sessions of one language and knows how its interpreter
//! is launched. The handle owns the engines that started, finds the engine
//! of a request by its language, and shuts all of them down.
//!
//! The engine decides; the host acts. A call asks the handle for the
//! interpreter of its session and is told to run, to spawn a fresh
//! interpreter first, or to wait. The host reports how spawning went and how
//! the execution ended, and is told when an interpreter is to be terminated.

use crate::portal::error::{
    EngineStartupError, EngineStartupErrorView, ExecutionError, ExecutionErrorView,
};
use crate::portal::execution::RunStatus;
use crate::portal::language::Language;
use crate::portal::registry::{
    abandoned, acquired, admission, all_terminated, arrived, can_abandon, finished, kill_after,
    live_ids, spawned, ticket_for, well_formed, SessionRegistry,
};
use crate::portal::session::{Admission, SessionView};
use vstd::prelude::*;
use vstd::string::*;

verus! {

/// How the interpreter of a language is launched.
#[derive(Debug, Clone, PartialEq, Eq)]
pub struct SpawnPolicy {
    /// The interpreter's executable.
    pub program: String,
    /// The arguments that it is started with.
    pub args: Vec<String>,
    /// How long the readiness probe may take, in milliseconds.
    pub startup_timeout_ms: u64,
}

/// How long a fresh interpreter may take to answer the readiness probe.
pub const STARTUP_TIMEOUT_MS: u64 = 10000;

/// The executable of the interpreter of a language.
pub open spec fn program_of(language: Language) -> Seq<char> {
    match language {
        Language::Python => "python3"@,
        Language::Node => "node"@,
    }
}

/// What Python runs at its start: it switches off the prompts, which would
/// otherwise stand among the output.
pub const PYTHON_STARTUP: &'static str = "import sys; sys.ps1 = ''; sys.ps2 = ''";

/// What Node.js runs at its start: a read-eval-print loop without prompt.
pub const NODE_STARTUP: &'static str =
    "require('repl').start({ prompt: '', ignoreUndefined: true })";

/// The arguments of the interpreter of a language. Both read code from their
/// input and keep their state between two pieces of code, and neither writes
/// a prompt; Python runs unbuffered and without banner.
pub open spec fn args_of(language: Language) -> Seq<Seq<char>> {
    match language {
        Language::Python => seq!["-u"@, "-q"@, "-i"@, "-c"@, PYTHON_STARTUP@],
        Language::Node => seq!["-e"@, NODE_STARTUP@],
    }
}

impl SpawnPolicy {
    /// Whether this is how the interpreter of `language` is launched.
    pub open spec fn launches(&self, language: Language) -> bool {
        &&& self.program@ == program_of(language)
        &&& self.args.deep_view() == args_of(language)
        &&& self.startup_timeout_ms == STARTUP_TIMEOUT_MS
    }

    /// Returns how the interpreter of `language` is launched.
    pub fn for_language(language: Language) -> (p: SpawnPolicy)
        ensures
            p.launches(language),
    {
        let mut args: Vec<String> = Vec::new();
        let program = match language {
            Language::Python => {
                args.push(String::from_str("-u"));
                args.push(String::from_str("-q"));
                args.push(String::from_str("-i"));
                args.push(String::from_str("-c"));
                args.push(String::from_str(PYTHON_STARTUP));
                String::from_str("python3")
            },
            Language::Node => {
                args.push(String::from_str("-e"));
                args.push(String::from_str(NODE_STARTUP));
                String::from_str("node")
            },
        };
        assert(args.deep_view() =~= args_of(language));
        SpawnPolicy { program, args, startup_timeout_ms: STARTUP_TIMEOUT_MS }
    }
}

/// Mathematical value of an [`Engine`].
pub struct EngineView {
    /// The language of the engine.
    pub language: Language,
    /// The sessions of the engine.
    pub sessions: Seq<SessionView>,
}

/// The engine of one language.
#[derive(Debug, Clone, PartialEq, Eq)]
pub struct Engine {
    language: Language,
    policy: SpawnPolicy,
    registry: SessionRegistry,
}

impl View for Engine {
    type V = EngineView;

    closed spec fn view(&self) -> EngineView {
        EngineView { language: self.language, sessions: self.registry@ }
    }
}

impl Engine {
    /// The engine holds one session for each id, each serving its tickets in
    /// order, and launches the interpreter of its language.
    pub closed spec fn wf(&self) -> bool {
        &&& well_formed(self@.sessions)
        &&& self.policy.launches(self.language)
    }

    /// Makes the engine of `language`, without sessions.
    pub fn new(language: Language) -> (e: Engine)
        ensures
            e@ == (EngineView { language, sessions: Seq::empty() }),
            e.wf(),
    {
        Engine {
            language,
            policy: SpawnPolicy::for_language(language),
            registry: SessionRegistry::new(),
        }
    }

    /// Returns the language of the engine.
    pub fn language(&self) -> (l: Language)
        ensures
            l == self@.language,
    {
        self.language
    }

    /// Returns how the interpreter of the engine is launched.
    pub fn policy(&self) -> (p: &SpawnPolicy)
        requires
            self.wf(),
        ensures
            p.launches(self@.language),
    {
        &self.policy
    }

    /// Returns the number of sessions.
    pub fn session_count(&self) -> (n: usize)
        ensures
            n == self@.sessions.len(),
    {
        self.registry.len()
    }

    /// Takes notice of a call for `session_id` that arrives, and returns its
    /// ticket, as the registry does.
    pub fn enqueue(&mut self, session_id: &str) -> (ticket: Option<u64>)
        requires
            old(self).wf(),
        ensures
            final(self).wf(),
            final(self)@ == (EngineView {
                sessions: arrived(old(self)@.sessions, session_id@),
                ..old(self)@
            }),
            ticket == ticket_for(old(self)@.sessions, session_id@),
    {
        self.registry.enqueue(session_id)
    }

    /// Answers the call for `session_id` with the given ticket, as the
    /// registry does.
    pub fn acquire(&mut self, session_id: &str, ticket: u64) -> (a: Admission)
        requires
            old(self).wf(),
        ensures
            final(self).wf(),
            final(self)@ == (EngineView {
                sessions: acquired(old(self)@.sessions, session_id@, ticket),
                ..old(self)@
            }),
            a == admission(old(self)@.sessions, session_id@, ticket),
    {
        self.registry.acquire(session_id, ticket)
    }

    /// Gives up the turn of the call for `session_id` with the given ticket,
    /// and returns whether the turn passed on.
    pub fn abandon(&mut self, session_id: &str, ticket: u64) -> (passed: bool)
        requires
            old(self).wf(),
        ensures
            final(self).wf(),
            final(self)@ == (EngineView {
                sessions: abandoned(old(self)@.sessions, session_id@, ticket),
                ..old(self)@
            }),
            passed == can_abandon(old(self)@.sessions, session_id@, ticket),
    {
        self.registry.abandon(session_id, ticket)
    }

    /// Takes notice of how spawning went for `session_id`.
    pub fn spawn_finished(&mut self, session_id: &str, ready: bool)
        requires
            old(self).wf(),
        ensures
            final(self).wf(),
            final(self)@ == (EngineView {
                sessions: spawned(old(self)@.sessions, session_id@, ready),
                ..old(self)@
            }),
    {
        self.registry.spawn_finished(session_id, ready)
    }

    /// Takes notice of the end of the execution of `session_id`, and returns
    /// whether the host is to terminate the interpreter.
    pub fn finish(&mut self, session_id: &str, status: RunStatus) -> (kill: bool)
        requires
            old(self).wf(),
        ensures
            final(self).wf(),
            final(self)@ == (EngineView {
                sessions: finished(old(self)@.sessions, session_id@, status),
                ..old(self)@
            }),
            kill == kill_after(old(self)@.sessions, session_id@, status),
    {
        self.registry.finish(session_id, status)
    }

    /// Shuts every session down, and returns the ids of those that had an
    /// interpreter for the host to terminate.
    pub fn shutdown(&mut self) -> (ids: Vec<String>)
        requires
            old(self).wf(),
        ensures
            final(self).wf(),
            final(self)@ == (EngineView {
                sessions: all_terminated(old(self)@.sessions),
                ..old(self)@
            }),
            ids.deep_view() == live_ids(old(self)@.sessions),
    {
        self.registry.terminate_all()
    }
}

/// What the host saw when it launched and probed the interpreter of one
/// language at startup.
#[derive(Debug, Clone, PartialEq, Eq)]
pub struct ProbeReport {
    /// Whether the host cannot do without the language.
    pub required: bool,
    /// Why the interpreter is not ready, or nothing if it answered the probe.
    pub failure: Option<String>,
}

/// Whether a report fails startup as a whole: a required engine is not ready.
pub open spec fn is_fatal(report: Option<ProbeReport>) -> bool {
    report matches Some(r) && r.required && r.failure is Some
}

/// Whether a report starts an engine: the language was probed and is ready.
pub open spec fn is_ready(report: Option<ProbeReport>) -> bool {
    report matches Some(r) && r.failure is None
}

/// The sessions of an engine that has just started, if the report starts one.
pub open spec fn started(report: Option<ProbeReport>) -> Option<Seq<SessionView>> {
    if is_ready(report) {
        Some(Seq::empty())
    } else {
        None
    }
}

/// What startup gives: the error of the first language whose required engine
/// is not ready, Python before Node.js, or else the handle of the engines that
/// are ready.
pub open spec fn startup(python: Option<ProbeReport>, node: Option<ProbeReport>) -> Result<
    HandleView,
    EngineStartupErrorView,
> {
    if is_fatal(python) {
        Err(
            EngineStartupErrorView {
                language: Language::Python,
                reason: python->0.failure->0@,
            },
        )
    } else if is_fatal(node) {
        Err(EngineStartupErrorView { language: Language::Node, reason: node->0.failure->0@ })
    } else {
        Ok(HandleView { python: started(python), node: started(node), closed: false })
    }
}

/// The place of a call in the order of its session.
#[derive(Debug, Clone, Copy, PartialEq, Eq, Structural)]
pub struct Ticket {
    /// The language of the request.
    pub language: Language,
    /// The number of the ticket in its session.
    pub number: u64,
}

/// One session among all engines.
#[derive(Debug, Clone, PartialEq, Eq)]
pub struct SessionKey {
    /// The language of the session's engine.
    pub language: Language,
    /// The session id.
    pub session_id: String,
}

/// Mathematical value of a [`SessionKey`].
pub struct SessionKeyView {
    pub language: Language,
    pub session_id: Seq<char>,
}

impl View for SessionKey {
    type V = SessionKeyView;

    open spec fn view(&self) -> SessionKeyView {
        SessionKeyView { language: self.language, session_id: self.session_id@ }
    }
}

impl DeepView for SessionKey {
    type V = SessionKeyView;

    open spec fn deep_view(&self) -> SessionKeyView {
        self@
    }
}

/// The keys of the given ids in the given language.
pub open spec fn keys_of(language: Language, ids: Seq<Seq<char>>) -> Seq<SessionKeyView> {
    ids.map_values(|id: Seq<char>| SessionKeyView { language, session_id: id })
}

/// Mathematical value of an [`EngineHandle`].
pub struct HandleView {
    /// The sessions of the Python engine, if it started.
    pub python: Option<Seq<SessionView>>,
    /// The sessions of the Node.js engine, if it started.
    pub node: Option<Seq<SessionView>>,
    /// Whether the handle was shut down.
    pub closed: bool,
}

impl HandleView {
    /// The sessions of the engine of `language`, if that engine started.
    pub open spec fn sessions(self, language: Language) -> Option<Seq<SessionView>> {
        match language {
            Language::Python => self.python,
            Language::Node => self.node,
        }
    }

    /// The handle with the sessions of `language` replaced.
    pub open spec fn with_sessions(
        self,
        language: Language,
        sessions: Seq<SessionView>,
    ) -> HandleView {
        match language {
            Language::Python => HandleView { python: Some(sessions), ..self },
            Language::Node => HandleView { node: Some(sessions), ..self },
        }
    }

    /// The language that a request names, if it names one whose engine
    /// started.
    pub open spec fn supported(self, tag: Seq<char>) -> Option<Language> {
        match Language::of_tag(tag) {
            Some(l) => if self.sessions(l) is Some {
                Some(l)
            } else {
                None
            },
            None => None,
        }
    }

    /// The answer to a call that arrives: its ticket in the session, with the
    /// language of the request. A language without engine is unsupported; a
    /// handle that was shut down takes no calls; a session without a ticket
    /// left takes none either.
    pub open spec fn arrival(self, tag: Seq<char>, session_id: Seq<char>) -> Result<
        Ticket,
        ExecutionErrorView,
    > {
        match self.supported(tag) {
            None => Err(ExecutionErrorView::UnsupportedLanguage(tag)),
            Some(l) => if self.closed {
                Err(ExecutionErrorView::InternalError("engine handle is shut down"@))
            } else {
                match ticket_for(self.sessions(l)->0, session_id) {
                    Some(number) => Ok(Ticket { language: l, number }),
                    None => Err(
                        ExecutionErrorView::InternalError("session takes no more calls"@),
                    ),
                }
            },
        }
    }

    /// The handle after a call arrived. A call that is refused for its
    /// language, or because the handle was shut down, changes nothing.
    pub open spec fn after_arrival(self, tag: Seq<char>, session_id: Seq<char>) -> HandleView {
        match self.supported(tag) {
            Some(l) if !self.closed => self.with_sessions(
                l,
                arrived(self.sessions(l)->0, session_id),
            ),
            _ => self,
        }
    }

    /// The answer to the call with the given ticket that asks for the
    /// interpreter of its session. A call for a language without engine is
    /// turned away.
    pub open spec fn answer(
        self,
        language: Language,
        session_id: Seq<char>,
        ticket: u64,
    ) -> Admission {
        match self.sessions(language) {
            Some(s) => admission(s, session_id, ticket),
            None => Admission::Closed,
        }
    }

    /// The handle after the call with the given ticket asked for the
    /// interpreter of its session.
    pub open spec fn after_call(
        self,
        language: Language,
        session_id: Seq<char>,
        ticket: u64,
    ) -> HandleView {
        match self.sessions(language) {
            Some(s) => self.with_sessions(language, acquired(s, session_id, ticket)),
            None => self,
        }
    }

    /// The handle after the call with the given ticket gave up its turn.
    pub open spec fn after_abandon(
        self,
        language: Language,
        session_id: Seq<char>,
        ticket: u64,
    ) -> HandleView {
        match self.sessions(language) {
            Some(s) => self.with_sessions(language, abandoned(s, session_id, ticket)),
            None => self,
        }
    }

    /// Whether the call with the given ticket can give up its turn.
    pub open spec fn can_abandon(
        self,
        language: Language,
        session_id: Seq<char>,
        ticket: u64,
    ) -> bool {
        match self.sessions(language) {
            Some(s) => can_abandon(s, session_id, ticket),
            None => false,
        }
    }

    /// The handle after the host reported how spawning went.
    pub open spec fn after_spawn(
        self,
        language: Language,
        session_id: Seq<char>,
        ready: bool,
    ) -> HandleView {
        match self.sessions(language) {
            Some(s) => self.with_sessions(language, spawned(s, session_id, ready)),
            None => self,
        }
    }

    /// The handle after an execution ended.
    pub open spec fn after_run(
        self,
        language: Language,
        session_id: Seq<char>,
        status: RunStatus,
    ) -> HandleView {
        match self.sessions(language) {
            Some(s) => self.with_sessions(language, finished(s, session_id, status)),
            None => self,
        }
    }

    /// Whether the interpreter of a session is to be terminated when its
    /// execution ends with `status`.
    pub open spec fn kill_after(
        self,
        language: Language,
        session_id: Seq<char>,
        status: RunStatus,
    ) -> bool {
        match self.sessions(language) {
            Some(s) => kill_after(s, session_id, status),
            None => false,
        }
    }

    /// The handle after shutdown: every session terminated, no call taken.
    pub open spec fn shut_down(self) -> HandleView {
        HandleView {
            python: match self.python {
                Some(s) => Some(all_terminated(s)),
                None => None,
            },
            node: match self.node {
                Some(s) => Some(all_terminated(s)),
                None => None,
            },
            closed: true,
        }
    }

    /// The sessions that have an interpreter: those of Python, then those of
    /// Node.js.
    pub open spec fn live_keys(self) -> Seq<SessionKeyView> {
        (match self.python {
            Some(s) => keys_of(Language::Python, live_ids(s)),
            None => Seq::empty(),
        }) + (match self.node {
            Some(s) => keys_of(Language::Node, live_ids(s)),
            None => Seq::empty(),
        })
    }
}

/// After shutdown no session has an interpreter.
pub proof fn lemma_none_live_after_shutdown(sessions: Seq<SessionView>)
    ensures
        live_ids(all_terminated(sessions)) == Seq::<Seq<char>>::empty(),
        all_terminated(all_terminated(sessions)) == all_terminated(sessions),
    decreases sessions.len(),
{
    let t = all_terminated(sessions);
    assert(all_terminated(t) =~= t);
    if sessions.len() > 0 {
        lemma_none_live_after_shutdown(sessions.drop_last());
        assert(t.drop_last() =~= all_terminated(sessions.drop_last()));
        assert(!t.last().has_process());
    }
}

/// Shutdown is idempotent. A second shutdown leaves the handle as the first
/// left it, and finds no interpreter to terminate.
pub proof fn lemma_shutdown_is_idempotent(h: HandleView)
    ensures
        h.shut_down().shut_down() == h.shut_down(),
        h.shut_down().live_keys() == Seq::<SessionKeyView>::empty(),
{
    if h.python is Some {
        lemma_none_live_after_shutdown(h.python->0);
    }
    if h.node is Some {
        lemma_none_live_after_shutdown(h.node->0);
    }
    assert(h.shut_down().live_keys() =~= Seq::<SessionKeyView>::empty());
}

/// A refused call touches nothing. A request for a language that has no
/// engine is answered as unsupported, and the handle stays as it was.
pub proof fn lemma_unsupported_touches_nothing(h: HandleView, tag: Seq<char>, session_id: Seq<char>)
    requires
        h.supported(tag) is None,
    ensures
        h.arrival(tag, session_id) == Err::<Ticket, ExecutionErrorView>(
            ExecutionErrorView::UnsupportedLanguage(tag),
        ),
        h.after_arrival(tag, session_id) == h,
{
}

/// Engines are isolated from one another: whatever happens for a session of
/// one language leaves the sessions of the other language as they were.
pub proof fn lemma_other_engine_untouched(
    h: HandleView,
    language: Language,
    session_id: Seq<char>,
    ticket: u64,
    ready: bool,
    status: RunStatus,
    other: Language,
)
    requires
        language != other,
    ensures
        h.after_arrival(language.tag(), session_id).sessions(other) == h.sessions(other),
        h.after_call(language, session_id, ticket).sessions(other) == h.sessions(other),
        h.after_spawn(language, session_id, ready).sessions(other) == h.sessions(other),
        h.after_run(language, session_id, status).sessions(other) == h.sessions(other),
        h.after_abandon(language, session_id, ticket).sessions(other) == h.sessions(other),
{
    language.lemma_tag_round_trip();
}

/// The single entry point of the engine: the engines that started.
#[derive(Debug, Clone, PartialEq, Eq)]
pub struct EngineHandle {
    python: Option<Engine>,
    node: Option<Engine>,
    closed: bool,
}

impl View for EngineHandle {
    type V = HandleView;

    closed spec fn view(&self) -> HandleView {
        HandleView {
            python: match self.python {
                Some(e) => Some(e@.sessions),
                None => None,
            },
            node: match self.node {
                Some(e) => Some(e@.sessions),
                None => None,
            },
            closed: self.closed,
        }
    }
}

/// Starts the engines. The host has launched and probed the interpreter of
/// each language that is switched on, at once or one after the other, and
/// hands in what it saw; a language that is switched off has no report.
///
/// Startup fails only where a required engine is not ready, with the error
/// of the first such language, Python before Node.js. Otherwise the handle
/// holds an engine for each language that is ready, and none for a language
/// that is switched off or that failed without being required.
pub fn start_engines(python: Option<ProbeReport>, node: Option<ProbeReport>) -> (r: Result<
    EngineHandle,
    EngineStartupError,
>)
    ensures
        match r {
            Ok(h) => h.wf() && startup(python, node) == Ok::<HandleView, EngineStartupErrorView>(
                h@,
            ),
            Err(e) => startup(python, node) == Err::<HandleView, EngineStartupErrorView>(e@),
        },
{
    let python_engine = match python {
        Some(report) => match report.failure {
            Some(reason) => {
                if report.required {
                    return Err(EngineStartupError { language: Language::Python, reason });
                }
                None
            },
            None => Some(Engine::new(Language::Python)),
        },
        None => None,
    };
    let node_engine = match node {
        Some(report) => match report.failure {
            Some(reason) => {
                if report.required {
                    return Err(EngineStartupError { language: Language::Node, reason });
                }
                None
            },
            None => Some(Engine::new(Language::Node)),
        },
        None => None,
    };
    Ok(EngineHandle { python: python_engine, node: node_engine, closed: false })
}

impl EngineHandle {
    /// Each engine is the engine of its language and holds at most one
    /// session for each id.
    pub closed spec fn wf(&self) -> bool {
        &&& self.python matches Some(e) ==> e@.language == Language::Python && e.wf()
        &&& self.node matches Some(e) ==> e@.language == Language::Node && e.wf()
    }

    /// Returns whether the handle was shut down.
    pub fn is_closed(&self) -> (c: bool)
        ensures
            c == self@.closed,
    {
        self.closed
    }

    /// Returns the language that a request names, if it names one whose
    /// engine started.
    pub fn language_of(&self, tag: &str) -> (r: Option<Language>)
        ensures
            r == self@.supported(tag@),
    {
        match Language::from_tag(tag) {
            Some(Language::Python) => {
                if self.python.is_some() {
                    Some(Language::Python)
                } else {
                    None
                }
            },
            Some(Language::Node) => {
                if self.node.is_some() {
                    Some(Language::Node)
                } else {
                    None
                }
            },
            None => None,
        }
    }

    /// Returns how the interpreter of `language` is launched, if the engine
    /// of that language started.
    pub fn policy(&self, language: Language) -> (p: Option<&SpawnPolicy>)
        requires
            self.wf(),
        ensures
            p is Some <==> self@.sessions(language) is Some,
            p matches Some(policy) ==> policy.launches(language),
    {
        match language {
            Language::Python => match &self.python {
                Some(e) => Some(e.policy()),
                None => None,
            },
            Language::Node => match &self.node {
                Some(e) => Some(e.policy()),
                None => None,
            },
        }
    }

    /// Takes notice of a call that arrives, and returns its ticket.
    ///
    /// A language that names no started engine is unsupported, and a handle
    /// that was shut down takes no calls: both leave everything as it was.
    /// Otherwise the session of the call is looked up, or made if the id is
    /// not known, and the call draws the next ticket of that session. Only
    /// the session of the call changes.
    pub fn enqueue(&mut self, language: &str, session_id: &str) -> (r: Result<
        Ticket,
        ExecutionError,
    >)
        requires
            old(self).wf(),
        ensures
            final(self).wf(),
            final(self)@ == old(self)@.after_arrival(language@, session_id@),
            match r {
                Ok(t) => old(self)@.arrival(language@, session_id@) == Ok::<
                    Ticket,
                    ExecutionErrorView,
                >(t),
                Err(e) => old(self)@.arrival(language@, session_id@) == Err::<
                    Ticket,
                    ExecutionErrorView,
                >(e@),
            },
    {
        let found = match self.language_of(language) {
            Some(l) => l,
            None => {
                return Err(ExecutionError::UnsupportedLanguage(language.to_owned()));
            },
        };
        if self.closed {
            return Err(
                ExecutionError::InternalError(String::from_str("engine handle is shut down")),
            );
        }
        let ticket = match found {
            Language::Python => match &mut self.python {
                Some(e) => e.enqueue(session_id),
                None => None,
            },
            Language::Node => match &mut self.node {
                Some(e) => e.enqueue(session_id),
                None => None,
            },
        };
        match ticket {
            Some(number) => Ok(Ticket { language: found, number }),
            None => Err(
                ExecutionError::InternalError(String::from_str("session takes no more calls")),
            ),
        }
    }

    /// Answers the call with the given ticket that asks for the interpreter
    /// of its session: the call runs, or the host spawns a fresh interpreter
    /// first, or the call waits for its turn. Only the session of the call
    /// changes.
    pub fn acquire(&mut self, language: Language, session_id: &str, ticket: u64) -> (a: Admission)
        requires
            old(self).wf(),
        ensures
            final(self).wf(),
            final(self)@ == old(self)@.after_call(language, session_id@, ticket),
            a == old(self)@.answer(language, session_id@, ticket),
    {
        match language {
            Language::Python => match &mut self.python {
                Some(e) => e.acquire(session_id, ticket),
                None => Admission::Closed,
            },
            Language::Node => match &mut self.node {
                Some(e) => e.acquire(session_id, ticket),
                None => Admission::Closed,
            },
        }
    }

    /// Gives up the turn of the call with the given ticket, and returns
    /// whether the turn passed on. Only the session of the call changes.
    pub fn abandon(&mut self, language: Language, session_id: &str, ticket: u64) -> (passed: bool)
        requires
            old(self).wf(),
        ensures
            final(self).wf(),
            final(self)@ == old(self)@.after_abandon(language, session_id@, ticket),
            passed == old(self)@.can_abandon(language, session_id@, ticket),
    {
        match language {
            Language::Python => match &mut self.python {
                Some(e) => e.abandon(session_id, ticket),
                None => false,
            },
            Language::Node => match &mut self.node {
                Some(e) => e.abandon(session_id, ticket),
                None => false,
            },
        }
    }

    /// Takes notice of how spawning went for a session. Only that session
    /// changes.
    pub fn spawn_finished(&mut self, language: Language, session_id: &str, ready: bool)
        requires
            old(self).wf(),
        ensures
            final(self).wf(),
            final(self)@ == old(self)@.after_spawn(language, session_id@, ready),
    {
        match language {
            Language::Python => match &mut self.python {
                Some(e) => e.spawn_finished(session_id, ready),
                None => {},
            },
            Language::Node => match &mut self.node {
                Some(e) => e.spawn_finished(session_id, ready),
                None => {},
            },
        }
    }

    /// Takes notice of the end of an execution, and returns whether the host
    /// is to terminate the interpreter of the session. Only that session
    /// changes.
    pub fn finish(&mut self, language: Language, session_id: &str, status: RunStatus) -> (kill:
        bool)
        requires
            old(self).wf(),
        ensures
            final(self).wf(),
            final(self)@ == old(self)@.after_run(language, session_id@, status),
            kill == old(self)@.kill_after(language, session_id@, status),
    {
        match language {
            Language::Python => match &mut self.python {
                Some(e) => e.finish(session_id, status),
                None => false,
            },
            Language::Node => match &mut self.node {
                Some(e) => e.finish(session_id, status),
                None => false,
            },
        }
    }

    /// Shuts the engines down: every session is terminated, and no call is
    /// taken from now on. Returns the sessions whose interpreters the host is
    /// to terminate; the host ends their executions as timed out. A second
    /// shutdown changes nothing and returns no session.
    pub fn shutdown(&mut self) -> (keys: Vec<SessionKey>)
        requires
            old(self).wf(),
        ensures
            final(self).wf(),
            final(self)@ == old(self)@.shut_down(),
            keys.deep_view() == old(self)@.live_keys(),
    {
        let mut keys: Vec<SessionKey> = Vec::new();
        let python_ids = match &mut self.python {
            Some(e) => e.shutdown(),
            None => Vec::new(),
        };
        let node_ids = match &mut self.node {
            Some(e) => e.shutdown(),
            None => Vec::new(),
        };
        self.closed = true;
        append_keys(&mut keys, Language::Python, &python_ids);
        append_keys(&mut keys, Language::Node, &node_ids);
        assert(keys.deep_view() =~= old(self)@.live_keys());
        keys
    }
}

/// Adds the keys of `ids` in `language` to `keys`.
fn append_keys(keys: &mut Vec<SessionKey>, language: Language, ids: &Vec<String>)
    ensures
        final(keys).deep_view() == old(keys).deep_view() + keys_of(language, ids.deep_view()),
{
    let ghost before = keys.deep_view();
    let mut i: usize = 0;
    assert(keys.deep_view() =~= before + keys_of(language, ids.deep_view().take(0)));
    while i < ids.len()
        invariant
            i <= ids.len(),
            keys.deep_view() == before + keys_of(language, ids.deep_view().take(i as int)),
        decreases ids.len() - i,
    {
        let ghost collected = keys.deep_view();
        let key = SessionKey { language, session_id: ids[i].clone() };
        keys.push(key);
        assert(keys.deep_view() =~= collected.push(key@));
        assert(keys.deep_view() =~= before + keys_of(language, ids.deep_view().take(i + 1)));
        i += 1;
    }
    assert(ids.deep_view().take(i as int) =~= ids.deep_view());
}

} // verus!
