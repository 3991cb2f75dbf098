//! Restarting the Windows Audio service, so that endpoints read their settings
//! anew. The restart is a script: it says what to do next, the caller does it
//! and says what came of it.
use vstd::prelude::*;

verus! {

/// System error: access is denied.
pub const ERROR_ACCESS_DENIED: u32 = 5;

/// System error: the service runs already.
pub const ERROR_SERVICE_ALREADY_RUNNING: u32 = 1056;

/// System error: the service has not been started.
pub const ERROR_SERVICE_NOT_ACTIVE: u32 = 1062;

/// State of a service that is stopped.
pub const SERVICE_STOPPED: u32 = 1;

/// State of a service that runs.
pub const SERVICE_RUNNING: u32 = 4;

/// How long a change of state is waited for, in nanoseconds.
pub const WAIT_LIMIT_NANOS: u64 = 20_000_000_000;

/// The pause between two looks at the state, in milliseconds.
pub const WAIT_PAUSE_MILLIS: u64 = 200;

/// The result code that stands for a system error: the error's lower half, in
/// the facility for system errors, marked as a failure.
pub open spec fn result_code(error: u32) -> int {
    error as int % 0x1_0000 - 0x7ff9_0000
}

/// The result code of a system error, as
/// `windows::Win32::Foundation::WIN32_ERROR::to_hresult` makes it. Zero, which
/// is no error, and numbers with the highest bit set, which are result codes
/// themselves, are left out: they are kept as they are.
#[verifier::external_body]
fn hresult_of(error: u32) -> (code: i32)
    requires
        0 < error < 0x8000_0000,
    ensures
        code == result_code(error),
{
    windows::Win32::Foundation::WIN32_ERROR(error).to_hresult().0
}

/// Why a restart failed.
#[derive(Debug)]
pub enum RestartError {
    /// The user may not stop the service.
    AccessDenied,
    /// Something else, in words.
    Other(String),
}

/// A failure as contracts see it.
pub enum RestartErrorView {
    AccessDenied,
    Other(Seq<char>),
}

impl View for RestartError {
    type V = RestartErrorView;

    open spec fn view(&self) -> RestartErrorView {
        match self {
            RestartError::AccessDenied => RestartErrorView::AccessDenied,
            RestartError::Other(message) => RestartErrorView::Other(message@),
        }
    }
}

/// How far a restart has come.
#[derive(Clone, Copy, Debug, PartialEq, Eq, Structural)]
pub enum RestartStage {
    OpenManager,
    OpenService,
    Stop,
    AwaitStopped,
    PauseStopped,
    Start,
    AwaitRunning,
    PauseRunning,
    Ended,
}

/// What the caller of a restart does next.
#[derive(Clone, Copy, Debug, PartialEq, Eq, Structural)]
pub enum RestartCommand {
    /// Connect to the service manager.
    OpenManager,
    /// Open the audio service, to stop, start and query it.
    OpenService,
    /// Ask the service to stop.
    Stop,
    /// Ask for the state of the service. Where `begin` is set a new wait begins
    /// with this.
    Query { begin: bool },
    /// Sleep for so many milliseconds.
    Sleep(u64),
    /// Ask the service to start.
    Start,
    /// Close what is open; the restart has ended.
    Release { service: bool, manager: bool },
}

/// What came of a command.
#[derive(Debug)]
pub enum RestartEvent {
    /// It succeeded.
    Succeeded,
    /// It failed, with this result code and in these words.
    Failed { code: i32, message: String },
    /// The service is in this state, so long after the wait began.
    State { state: u32, waited_nanos: u64 },
}

/// An event as contracts see it.
pub enum RestartEventView {
    Succeeded,
    Failed { code: i32, message: Seq<char> },
    State { state: u32, waited_nanos: u64 },
}

impl View for RestartEvent {
    type V = RestartEventView;

    open spec fn view(&self) -> RestartEventView {
        match self {
            RestartEvent::Succeeded => RestartEventView::Succeeded,
            RestartEvent::Failed { code, message } => RestartEventView::Failed {
                code: *code,
                message: message@,
            },
            RestartEvent::State { state, waited_nanos } => RestartEventView::State {
                state: *state,
                waited_nanos: *waited_nanos,
            },
        }
    }
}

/// What a look at the service's state means for a wait.
#[derive(Clone, Copy, Debug, PartialEq, Eq, Structural)]
pub enum Wait {
    /// The state that is waited for has come.
    Reached,
    /// It has not come in time.
    TimedOut,
    /// It has not come yet.
    Again,
}

/// What a look at the service's state means: the state that is wanted ends the
/// wait however late it comes.
pub open spec fn wait_verdict(state: u32, wanted: u32, waited_nanos: u64) -> Wait {
    if state == wanted {
        Wait::Reached
    } else if waited_nanos > WAIT_LIMIT_NANOS {
        Wait::TimedOut
    } else {
        Wait::Again
    }
}

/// Decides whether to go on waiting for a state.
pub fn wait_for_state(state: u32, wanted: u32, waited_nanos: u64) -> (r: Wait)
    ensures
        r == wait_verdict(state, wanted, waited_nanos),
{
    if state == wanted {
        Wait::Reached
    } else if waited_nanos > WAIT_LIMIT_NANOS {
        Wait::TimedOut
    } else {
        Wait::Again
    }
}

/// A restart as contracts see it.
pub struct RestartView {
    pub stage: RestartStage,
    /// A wait begins with the next query.
    pub begin: bool,
    pub manager: bool,
    pub service: bool,
    pub error: Option<RestartErrorView>,
}

impl RestartView {
    /// A restart that has not begun.
    pub open spec fn fresh() -> RestartView {
        RestartView {
            stage: RestartStage::OpenManager,
            begin: false,
            manager: false,
            service: false,
            error: None,
        }
    }

    /// What holds of every restart: past the opening of the manager and of the
    /// service these are open, the service only below the manager, and there is
    /// an error only at the end.
    pub open spec fn wf(self) -> bool {
        &&& self.service ==> self.manager
        &&& match self.stage {
            RestartStage::OpenManager => !self.manager && !self.service,
            RestartStage::OpenService => self.manager && !self.service,
            RestartStage::Ended => true,
            _ => self.manager && self.service,
        }
        &&& self.stage != RestartStage::Ended ==> self.error is None
        &&& self.stage == RestartStage::Ended && self.error is None ==> self.service
    }

    /// The event is one that the command of this stage can bring.
    pub open spec fn accepts(self, event: RestartEventView) -> bool {
        match self.stage {
            RestartStage::AwaitStopped | RestartStage::AwaitRunning => !(event is Succeeded),
            _ => !(event is State),
        }
    }

    /// The restart moved to a stage.
    pub open spec fn moved(self, stage: RestartStage, begin: bool) -> RestartView {
        RestartView { stage, begin, ..self }
    }

    /// The restart ended by an error.
    pub open spec fn failed(self, error: RestartErrorView) -> RestartView {
        RestartView { stage: RestartStage::Ended, begin: false, error: Some(error), ..self }
    }

    /// The restart after a look at the state that it waits for.
    pub open spec fn looked(
        self,
        wanted: u32,
        event: RestartEventView,
        reached: RestartStage,
        pause: RestartStage,
    ) -> RestartView {
        match event {
            RestartEventView::State { state, waited_nanos } => match wait_verdict(
                state,
                wanted,
                waited_nanos,
            ) {
                Wait::Reached => self.moved(reached, false),
                Wait::TimedOut => self.failed(
                    RestartErrorView::Other(
                        "timed out waiting for the audio service to change state"@,
                    ),
                ),
                Wait::Again => self.moved(pause, false),
            },
            RestartEventView::Failed { message, .. } => self.failed(
                RestartErrorView::Other("cannot query Audiosrv: "@ + message),
            ),
            RestartEventView::Succeeded => self,
        }
    }

    /// The restart after what came of its command.
    pub open spec fn next(self, event: RestartEventView) -> RestartView {
        let denied = result_code(ERROR_ACCESS_DENIED);
        match self.stage {
            RestartStage::OpenManager => match event {
                RestartEventView::Failed { message, .. } => self.failed(
                    RestartErrorView::Other("cannot connect to SCM: "@ + message),
                ),
                _ => RestartView { stage: RestartStage::OpenService, manager: true, ..self },
            },
            RestartStage::OpenService => match event {
                RestartEventView::Failed { code, message } => if code == denied {
                    self.failed(RestartErrorView::AccessDenied)
                } else {
                    self.failed(RestartErrorView::Other("cannot open Audiosrv: "@ + message))
                },
                _ => RestartView { stage: RestartStage::Stop, service: true, ..self },
            },
            RestartStage::Stop => match event {
                RestartEventView::Failed { code, message } => if code == result_code(
                    ERROR_SERVICE_NOT_ACTIVE,
                ) {
                    self.moved(RestartStage::AwaitStopped, true)
                } else if code == denied {
                    self.failed(RestartErrorView::AccessDenied)
                } else {
                    self.failed(RestartErrorView::Other("cannot stop Audiosrv: "@ + message))
                },
                _ => self.moved(RestartStage::AwaitStopped, true),
            },
            RestartStage::AwaitStopped => self.looked(
                SERVICE_STOPPED,
                event,
                RestartStage::Start,
                RestartStage::PauseStopped,
            ),
            RestartStage::PauseStopped => self.moved(RestartStage::AwaitStopped, false),
            RestartStage::Start => match event {
                RestartEventView::Failed { code, message } => if code == result_code(
                    ERROR_SERVICE_ALREADY_RUNNING,
                ) {
                    self.moved(RestartStage::AwaitRunning, true)
                } else {
                    self.failed(RestartErrorView::Other("cannot start Audiosrv: "@ + message))
                },
                _ => self.moved(RestartStage::AwaitRunning, true),
            },
            RestartStage::AwaitRunning => self.looked(
                SERVICE_RUNNING,
                event,
                RestartStage::Ended,
                RestartStage::PauseRunning,
            ),
            RestartStage::PauseRunning => self.moved(RestartStage::AwaitRunning, false),
            RestartStage::Ended => self,
        }
    }

    /// What the restart asks for.
    pub open spec fn asks(self) -> RestartCommand {
        match self.stage {
            RestartStage::OpenManager => RestartCommand::OpenManager,
            RestartStage::OpenService => RestartCommand::OpenService,
            RestartStage::Stop => RestartCommand::Stop,
            RestartStage::Start => RestartCommand::Start,
            RestartStage::AwaitStopped | RestartStage::AwaitRunning => RestartCommand::Query {
                begin: self.begin,
            },
            RestartStage::PauseStopped | RestartStage::PauseRunning => RestartCommand::Sleep(
                WAIT_PAUSE_MILLIS,
            ),
            RestartStage::Ended => RestartCommand::Release {
                service: self.service,
                manager: self.manager,
            },
        }
    }
}

/// A restart of the audio service.
#[derive(Debug)]
pub struct Restart {
    stage: RestartStage,
    begin: bool,
    manager: bool,
    service: bool,
    error: Option<RestartError>,
}

impl View for Restart {
    type V = RestartView;

    closed spec fn view(&self) -> RestartView {
        RestartView {
            stage: self.stage,
            begin: self.begin,
            manager: self.manager,
            service: self.service,
            error: match self.error {
                Some(e) => Some(e@),
                None => None,
            },
        }
    }
}

/// `prefix` with the words of an error behind it.
fn failure(prefix: &str, message: String) -> (r: RestartError)
    ensures
        r@ == RestartErrorView::Other(prefix@ + message@),
{
    let mut text: String = prefix.to_owned();
    text.append(message.as_str());
    RestartError::Other(text)
}

/// Begins a restart of the audio service: stop it, wait until it has stopped,
/// start it, and wait until it runs. A service that is not active counts as
/// stopped, and one that runs already as started.
pub fn restart_audio_service() -> (r: Restart)
    ensures
        r@ == RestartView::fresh(),
        r@.wf(),
{
    Restart {
        stage: RestartStage::OpenManager,
        begin: false,
        manager: false,
        service: false,
        error: None,
    }
}

impl Restart {
    /// What the caller does next.
    pub fn command(&self) -> (r: RestartCommand)
        ensures
            r == self@.asks(),
    {
        match self.stage {
            RestartStage::OpenManager => RestartCommand::OpenManager,
            RestartStage::OpenService => RestartCommand::OpenService,
            RestartStage::Stop => RestartCommand::Stop,
            RestartStage::Start => RestartCommand::Start,
            RestartStage::AwaitStopped | RestartStage::AwaitRunning => RestartCommand::Query {
                begin: self.begin,
            },
            RestartStage::PauseStopped | RestartStage::PauseRunning => RestartCommand::Sleep(
                WAIT_PAUSE_MILLIS,
            ),
            RestartStage::Ended => RestartCommand::Release {
                service: self.service,
                manager: self.manager,
            },
        }
    }

    /// Goes on after what came of the command.
    pub fn advance(&mut self, event: RestartEvent)
        requires
            old(self)@.wf(),
            old(self)@.accepts(event@),
        ensures
            final(self)@ == old(self)@.next(event@),
            final(self)@.wf(),
    {
        match self.stage {
            RestartStage::OpenManager => {
                match event {
                    RestartEvent::Failed { message, .. } => {
                        self.fail(failure("cannot connect to SCM: ", message));
                    },
                    _ => {
                        self.manager = true;
                        self.stage = RestartStage::OpenService;
                    },
                }
            },
            RestartStage::OpenService => {
                match event {
                    RestartEvent::Failed { code, message } => {
                        if code == hresult_of(ERROR_ACCESS_DENIED) {
                            self.fail(RestartError::AccessDenied);
                        } else {
                            self.fail(failure("cannot open Audiosrv: ", message));
                        }
                    },
                    _ => {
                        self.service = true;
                        self.stage = RestartStage::Stop;
                    },
                }
            },
            RestartStage::Stop => {
                match event {
                    RestartEvent::Failed { code, message } => {
                        if code == hresult_of(ERROR_SERVICE_NOT_ACTIVE) {
                            self.go(RestartStage::AwaitStopped, true);
                        } else if code == hresult_of(ERROR_ACCESS_DENIED) {
                            self.fail(RestartError::AccessDenied);
                        } else {
                            self.fail(failure("cannot stop Audiosrv: ", message));
                        }
                    },
                    _ => {
                        self.go(RestartStage::AwaitStopped, true);
                    },
                }
            },
            RestartStage::AwaitStopped => {
                self.look(SERVICE_STOPPED, event, RestartStage::Start, RestartStage::PauseStopped);
            },
            RestartStage::PauseStopped => {
                self.go(RestartStage::AwaitStopped, false);
            },
            RestartStage::Start => {
                match event {
                    RestartEvent::Failed { code, message } => {
                        if code == hresult_of(ERROR_SERVICE_ALREADY_RUNNING) {
                            self.go(RestartStage::AwaitRunning, true);
                        } else {
                            self.fail(failure("cannot start Audiosrv: ", message));
                        }
                    },
                    _ => {
                        self.go(RestartStage::AwaitRunning, true);
                    },
                }
            },
            RestartStage::AwaitRunning => {
                self.look(SERVICE_RUNNING, event, RestartStage::Ended, RestartStage::PauseRunning);
            },
            RestartStage::PauseRunning => {
                self.go(RestartStage::AwaitRunning, false);
            },
            RestartStage::Ended => {},
        }
    }

    /// The result of a restart that has ended. One that has not counts as
    /// succeeded so far.
    pub fn result(self) -> (r: Result<(), RestartError>)
        ensures
            match (self@.error, r) {
                (None, Ok(_)) => true,
                (Some(error), Err(e)) => e@ == error,
                _ => false,
            },
    {
        match self.error {
            Some(e) => Err(e),
            None => Ok(()),
        }
    }

    /// Moves to a stage.
    fn go(&mut self, stage: RestartStage, begin: bool)
        ensures
            final(self)@ == old(self)@.moved(stage, begin),
    {
        self.stage = stage;
        self.begin = begin;
    }

    /// Ends with an error.
    fn fail(&mut self, error: RestartError)
        ensures
            final(self)@ == old(self)@.failed(error@),
    {
        self.stage = RestartStage::Ended;
        self.begin = false;
        self.error = Some(error);
    }

    /// Goes on after a look at the state that is waited for.
    fn look(&mut self, wanted: u32, event: RestartEvent, reached: RestartStage, pause: RestartStage)
        requires
            !(event@ is Succeeded),
        ensures
            final(self)@ == old(self)@.looked(wanted, event@, reached, pause),
    {
        match event {
            RestartEvent::State { state, waited_nanos } => {
                match wait_for_state(state, wanted, waited_nanos) {
                    Wait::Reached => {
                        self.go(reached, false);
                    },
                    Wait::TimedOut => {
                        self.fail(
                            RestartError::Other(
                                "timed out waiting for the audio service to change state".to_owned(),
                            ),
                        );
                    },
                    Wait::Again => {
                        self.go(pause, false);
                    },
                }
            },
            RestartEvent::Failed { message, .. } => {
                self.fail(failure("cannot query Audiosrv: ", message));
            },
            RestartEvent::Succeeded => {},
        }
    }
}

/// A restart succeeds only when the service was seen to run.
pub proof fn success_means_running(r: RestartView, event: RestartEventView)
    requires
        r.wf(),
        r.accepts(event),
        r.stage != RestartStage::Ended,
        r.next(event).stage == RestartStage::Ended,
        r.next(event).error is None,
    ensures
        r.stage == RestartStage::AwaitRunning,
        event is State,
        event->state == SERVICE_RUNNING,
{
}

/// The service is started only when it was seen to be stopped.
pub proof fn start_follows_stop(r: RestartView, event: RestartEventView)
    requires
        r.wf(),
        r.accepts(event),
        r.next(event).stage == RestartStage::Start,
        r.stage != RestartStage::Start,
    ensures
        r.stage == RestartStage::AwaitStopped,
        event is State,
        event->state == SERVICE_STOPPED,
{
}

/// Only the opening and the stopping of the service can end in a lack of
/// rights, and they do so exactly when the system says that access is denied.
pub proof fn denied_means_denied(r: RestartView, event: RestartEventView)
    requires
        r.wf(),
        r.accepts(event),
        r.stage != RestartStage::Ended,
    ensures
        r.next(event).error == Some(RestartErrorView::AccessDenied) <==> (r.stage
            == RestartStage::OpenService || r.stage == RestartStage::Stop) && event is Failed
            && event->code == result_code(ERROR_ACCESS_DENIED),
{
}

/// No wait goes on for longer than the limit: a look after it ends the wait.
pub proof fn wait_is_limited(r: RestartView, state: u32, waited_nanos: u64)
    requires
        r.wf(),
        r.stage == RestartStage::AwaitStopped || r.stage == RestartStage::AwaitRunning,
        waited_nanos > WAIT_LIMIT_NANOS,
    ensures
        ({
            let next = r.next(RestartEventView::State { state, waited_nanos });
            next.stage == RestartStage::Start || next.stage == RestartStage::Ended
        }),
{
}

/// What was opened is released at the end, and nothing else.
pub proof fn everything_open_is_released(r: RestartView, event: RestartEventView)
    requires
        r.wf(),
        r.accepts(event),
        r.next(event).stage == RestartStage::Ended,
    ensures
        r.next(event).asks() == (RestartCommand::Release { service: r.service, manager: r.manager }),
{
}

/// An undisturbed restart connects to the manager, opens the service, stops it,
/// looks at it until it has stopped, starts it, looks at it until it runs, and
/// releases what it opened. Each wait begins with its first look.
pub proof fn restart_goes_step_by_step(early: u64, late: u64)
    ensures
        ({
            let done = RestartEventView::Succeeded;
            let stopped = RestartEventView::State { state: 1, waited_nanos: early };
            let running = RestartEventView::State { state: 4, waited_nanos: late };
            let r0 = RestartView::fresh();
            let r1 = r0.next(done);
            let r2 = r1.next(done);
            let r3 = r2.next(done);
            let r4 = r3.next(stopped);
            let r5 = r4.next(done);
            let r6 = r5.next(running);
            &&& r0.asks() == RestartCommand::OpenManager
            &&& r1.asks() == RestartCommand::OpenService
            &&& r2.asks() == RestartCommand::Stop
            &&& r3.asks() == (RestartCommand::Query { begin: true })
            &&& r4.asks() == RestartCommand::Start
            &&& r5.asks() == (RestartCommand::Query { begin: true })
            &&& r6.asks() == (RestartCommand::Release { service: true, manager: true })
            &&& r6.error is None
        }),
{
}

/// A look that does not show the state that is waited for is repeated after 200
/// milliseconds, as long as no more than 20 seconds have passed; after that the
/// restart has failed. The state that is waited for ends the wait at any time:
/// stopped is 1, and running is 4.
pub proof fn wait_goes_on_until_the_state(r: RestartView, state: u32, waited_nanos: u64)
    requires
        r.wf(),
        r.stage == RestartStage::AwaitStopped || r.stage == RestartStage::AwaitRunning,
    ensures
        ({
            let wanted: u32 = if r.stage == RestartStage::AwaitStopped {
                1
            } else {
                4
            };
            let next = r.next(RestartEventView::State { state, waited_nanos });
            &&& state == wanted && wanted == 1 ==> next.asks() == RestartCommand::Start
            &&& state == wanted && wanted == 4 ==> next.error is None && next.asks() == (
            RestartCommand::Release { service: true, manager: true })
            &&& state != wanted && waited_nanos <= 20_000_000_000 ==> {
                &&& next.asks() == RestartCommand::Sleep(200)
                &&& next.next(RestartEventView::Succeeded).asks() == (RestartCommand::Query {
                    begin: false,
                })
                &&& next.next(RestartEventView::Succeeded).stage == r.stage
            }
            &&& state != wanted && waited_nanos > 20_000_000_000 ==> next.error == Some(
                RestartErrorView::Other(
                    "timed out waiting for the audio service to change state"@,
                ),
            )
        }),
{
}

/// A step that fails ends the restart, and the error says which step it was and
/// why. There are three exceptions, by the result code: a lack of rights to open
/// or to stop the service is told apart, a service that is not active counts as
/// asked to stop, and one that runs already as asked to start.
pub proof fn failed_step_is_told(
    code: i32,
    message: Seq<char>,
    early: u64,
)
    ensures
        ({
            let done = RestartEventView::Succeeded;
            let failed = RestartEventView::Failed { code, message };
            let stopped = RestartEventView::State { state: 1, waited_nanos: early };
            let denied = -0x7ff8_fffb;
            let not_active = -0x7ff8_fbda;
            let already_running = -0x7ff8_fbe0;
            let r0 = RestartView::fresh();
            let r1 = r0.next(done);
            let r2 = r1.next(done);
            let r3 = r2.next(done);
            let r4 = r3.next(stopped);
            let r5 = r4.next(done);
            &&& r0.next(failed).error == Some(
                RestartErrorView::Other("cannot connect to SCM: "@ + message),
            )
            &&& r1.next(failed).error == Some(
                if code == denied {
                    RestartErrorView::AccessDenied
                } else {
                    RestartErrorView::Other("cannot open Audiosrv: "@ + message)
                },
            )
            &&& code == not_active ==> r2.next(failed) == r2.next(done)
            &&& code == denied ==> r2.next(failed).error == Some(RestartErrorView::AccessDenied)
            &&& code != not_active && code != denied ==> r2.next(failed).error == Some(
                RestartErrorView::Other("cannot stop Audiosrv: "@ + message),
            )
            &&& r3.next(failed).error == Some(
                RestartErrorView::Other("cannot query Audiosrv: "@ + message),
            )
            &&& code == already_running ==> r4.next(failed) == r4.next(done)
            &&& code != already_running ==> r4.next(failed).error == Some(
                RestartErrorView::Other("cannot start Audiosrv: "@ + message),
            )
            &&& r5.next(failed).error == Some(
                RestartErrorView::Other("cannot query Audiosrv: "@ + message),
            )
            &&& r0.next(failed).asks() == (RestartCommand::Release {
                service: false,
                manager: false,
            })
            &&& r1.next(failed).asks() == (RestartCommand::Release {
                service: false,
                manager: true,
            })
            &&& r3.next(failed).asks() == (RestartCommand::Release { service: true, manager: true })
        }),
{
}

/// Events and errors are seen whole.
pub proof fn events_are_seen_whole(code: i32, message: String, state: u32, waited_nanos: u64)
    ensures
        RestartEvent::Succeeded@ == RestartEventView::Succeeded,
        (RestartEvent::Failed { code, message })@ == (RestartEventView::Failed {
            code,
            message: message@,
        }),
        (RestartEvent::State { state, waited_nanos })@ == (RestartEventView::State {
            state,
            waited_nanos,
        }),
        RestartError::AccessDenied@ == RestartErrorView::AccessDenied,
        RestartError::Other(message)@ == RestartErrorView::Other(message@),
{
}

} // verus!
