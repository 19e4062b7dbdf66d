//! The settings of a run, and the run itself.

use vstd::prelude::*;
use vstd::string::StringExecFns;

use crate::args::{Action, Parameters};
use crate::client::session::{spec_outcome, SessionView};
use crate::client::{Client, ClientView, Login, LoginStep, LoginStepView, LoginView, Session};
use crate::client::{TIMEOUT, USER_AGENT};
use crate::config_file::{Account, ConfigFile};
use crate::error::{Error, ErrorView, Failure, Kind};
use crate::functions::Timeout;
use crate::pipeline::{plan, Pipeline, PipelineView};
use crate::transport::{Request, RequestView, Response, TransportError};

verus! {

/// Source-agnostic settings
///
/// The settings can be either parsed from the
/// command line arguments or from a configuration file.
#[derive(Clone, Debug, Eq, PartialEq)]
pub struct Settings {
    user_name: String,
    password: String,
    user_agent: String,
    timeout: Timeout,
    activate: Vec<u32>,
    bump: Vec<u32>,
    deactivate: Vec<u32>,
}

/// What a [`Settings`] holds, as mathematical values.
pub ghost struct SettingsView {
    pub user_name: Seq<char>,
    pub password: Seq<char>,
    pub user_agent: Seq<char>,
    pub timeout: Timeout,
    pub activate: Seq<u32>,
    pub bump: Seq<u32>,
    pub deactivate: Seq<u32>,
}

impl View for Settings {
    type V = SettingsView;

    closed spec fn view(&self) -> SettingsView {
        SettingsView {
            user_name: self.user_name@,
            password: self.password@,
            user_agent: self.user_agent@,
            timeout: self.timeout,
            activate: self.activate@,
            bump: self.bump@,
            deactivate: self.deactivate@,
        }
    }
}

/// The settings that an account of a configuration file asks for: where it names no user
/// agent or timeout, the usual ones are taken.
pub open spec fn settings_of_account(account: Account) -> SettingsView {
    SettingsView {
        user_name: account.user_name@,
        password: account.password@,
        user_agent: match account.user_agent {
            Some(user_agent) => user_agent@,
            None => USER_AGENT@,
        },
        timeout: match account.timeout_sec {
            Some(secs) => Timeout { secs },
            None => Timeout { secs: TIMEOUT },
        },
        activate: account.activate@,
        bump: account.bump@,
        deactivate: account.deactivate@,
    }
}

/// The settings that the command line asks for: the offers go into the list of the action
/// that was chosen, and the other two lists are empty.
pub open spec fn settings_of_parameters(parameters: Parameters) -> SettingsView {
    SettingsView {
        user_name: parameters.user_name@,
        password: parameters.password@,
        user_agent: parameters.user_agent@,
        timeout: Timeout { secs: parameters.timeout },
        activate: match parameters.action {
            Action::Activate { offers } => offers@,
            _ => Seq::empty(),
        },
        bump: match parameters.action {
            Action::Bump { offers } => offers@,
            _ => Seq::empty(),
        },
        deactivate: match parameters.action {
            Action::Deactivate { offers } => offers@,
            _ => Seq::empty(),
        },
    }
}

impl From<Account> for Settings {
    fn from(account: Account) -> (settings: Self)
        ensures
            settings@ == settings_of_account(account),
    {
        Self {
            user_name: account.user_name,
            password: account.password,
            user_agent: match account.user_agent {
                Some(user_agent) => user_agent,
                None => String::from_str(USER_AGENT),
            },
            timeout: match account.timeout_sec {
                Some(secs) => Timeout::from_secs(secs),
                None => Timeout::from_secs(TIMEOUT),
            },
            activate: account.activate,
            bump: account.bump,
            deactivate: account.deactivate,
        }
    }
}

/// No value is named here for the settings of an account: a text that is made anew, as the
/// usual user agent is, has no name in contracts. What `from` gives is stated by `from` itself.
impl vstd::std_specs::convert::FromSpecImpl<Account> for Settings {
    open spec fn obeys_from_spec() -> bool {
        false
    }

    open spec fn from_spec(account: Account) -> Self {
        arbitrary()
    }
}

impl From<Parameters> for Settings {
    fn from(parameters: Parameters) -> (settings: Self)
        ensures
            settings@ == settings_of_parameters(parameters),
    {
        let timeout = Timeout::from_secs(parameters.timeout);
        match parameters.action {
            Action::Activate { offers } => Self {
                user_name: parameters.user_name,
                password: parameters.password,
                user_agent: parameters.user_agent,
                timeout,
                activate: offers,
                bump: Vec::new(),
                deactivate: Vec::new(),
            },
            Action::Bump { offers } => Self {
                user_name: parameters.user_name,
                password: parameters.password,
                user_agent: parameters.user_agent,
                timeout,
                activate: Vec::new(),
                bump: offers,
                deactivate: Vec::new(),
            },
            Action::Deactivate { offers } => Self {
                user_name: parameters.user_name,
                password: parameters.password,
                user_agent: parameters.user_agent,
                timeout,
                activate: Vec::new(),
                bump: Vec::new(),
                deactivate: offers,
            },
        }
    }
}

/// No value is named here either: what `from` gives is stated by `from` itself.
impl vstd::std_specs::convert::FromSpecImpl<Parameters> for Settings {
    open spec fn obeys_from_spec() -> bool {
        false
    }

    open spec fn from_spec(parameters: Parameters) -> Self {
        arbitrary()
    }
}

/// A run under way: a request is out, and its answer is waited for.
#[derive(Debug)]
pub struct Run {
    stage: Stage,
}

#[derive(Debug)]
enum Stage {
    LoggingIn(Login, Pipeline),
    Updating(Session, Pipeline),
}

/// What a [`Run`] holds, as mathematical values.
pub ghost enum RunView {
    /// The handshake is under way; no offer has been touched.
    LoggingIn(LoginView, PipelineView),
    /// The session stands, and the request that is due in the pipeline is out.
    Updating(SessionView, PipelineView),
}

/// How a run goes on.
#[derive(Debug)]
pub enum Step {
    /// This request is to be sent, and its answer handed to the run that comes with it.
    Send(Request, Run),
    /// The run is over.
    Finish(Result<(), Error>),
}

/// What a [`Step`] holds, as mathematical values.
pub ghost enum StepView {
    Send(RequestView, RunView),
    Finish(Result<(), ErrorView>),
}

impl View for Run {
    type V = RunView;

    closed spec fn view(&self) -> RunView {
        match self.stage {
            Stage::LoggingIn(login, pipeline) => RunView::LoggingIn(login@, pipeline@),
            Stage::Updating(session, pipeline) => RunView::Updating(session@, pipeline@),
        }
    }
}

impl View for Step {
    type V = StepView;

    open spec fn view(&self) -> StepView {
        match *self {
            Step::Send(request, run) => StepView::Send(request@, run@),
            Step::Finish(Ok(_)) => StepView::Finish(Ok(())),
            Step::Finish(Err(error)) => StepView::Finish(Err(error@)),
        }
    }
}

/// Where a run with a session comes to stand: at the first update that is left whose request
/// can be built, or at the end. The updates in between have failed for want of a request, each
/// with what kept its request from being built, and nothing was sent for them.
pub open spec fn spec_settle(session: SessionView, pipeline: PipelineView) -> PipelineView
    decreases pipeline.remaining(),
{
    match pipeline.pending() {
        None => pipeline,
        Some(task) => match session.patch_request(task.id, task.deactivated) {
            Ok(_) => pipeline,
            Err(failure) => spec_settle(session, pipeline.record(Err(failure))),
        },
    }
}

/// How a run with a session goes on: the request that is due is sent. Once no update is left
/// the run is over, with success if none has failed, else with the failures.
pub open spec fn spec_drive(session: SessionView, pipeline: PipelineView) -> StepView {
    let at = spec_settle(session, pipeline);
    match at.pending() {
        None => StepView::Finish(
            match at.result() {
                Ok(_) => Ok(()),
                Err(failed) => Err(ErrorView::Updates(failed)),
            },
        ),
        Some(task) => StepView::Send(
            session.patch_request(task.id, task.deactivated)->Ok_0,
            RunView::Updating(session, at),
        ),
    }
}

/// How a run goes on after a step of the handshake: a failed login ends it, and no offer is
/// touched; a session starts the updates.
pub open spec fn spec_after_login(step: LoginStepView, pipeline: PipelineView) -> StepView {
    match step {
        LoginStepView::Send(request, login) => StepView::Send(
            request,
            RunView::LoggingIn(login, pipeline),
        ),
        LoginStepView::Finish(Err(failure)) => StepView::Finish(Err(ErrorView::Login(failure))),
        LoginStepView::Finish(Ok(session)) => spec_drive(session, pipeline),
    }
}

/// A login that fails ends the run at once: no offer is touched, and the failure of the
/// login is what the run comes to.
pub proof fn lemma_failed_login_ends_the_run(
    login: LoginView,
    pipeline: PipelineView,
    reply: Result<Response, TransportError>,
)
    requires
        login.receive(reply) is Finish,
        login.receive(reply)->Finish_0 is Err,
    ensures
        RunView::LoggingIn(login, pipeline).receive(reply) == StepView::Finish(
            Err(ErrorView::Login(login.receive(reply)->Finish_0->Err_0)),
        ),
{
}

/// No offer is touched before the login is through: as long as the handshake is under way,
/// the only request that is sent is the one for the page that lists the offers.
pub proof fn lemma_no_update_before_login(
    login: LoginView,
    pipeline: PipelineView,
    reply: Result<Response, TransportError>,
)
    requires
        login.receive(reply) is Send,
    ensures
        RunView::LoggingIn(login, pipeline).receive(reply) == StepView::Send(
            login.receive(reply)->Send_0,
            RunView::LoggingIn(login.receive(reply)->Send_1, pipeline),
        ),
        login.client.offer_list_request() == Ok::<RequestView, Failure>(
            login.receive(reply)->Send_0,
        ),
{
}

/// Where a run comes to stand, the request of the update that is due can be built, unless
/// the run is over; and on the way there nothing is lost: what is to be done stays the same,
/// no update is gone back to, and every failure that was recorded stays recorded.
pub proof fn lemma_settle(session: SessionView, pipeline: PipelineView)
    requires
        pipeline.wf(),
    ensures
        ({
            let at = spec_settle(session, pipeline);
            &&& at.wf()
            &&& at.plan == pipeline.plan
            &&& at.position >= pipeline.position
            &&& at.pending() is Some ==> session.patch_request(
                at.pending()->Some_0.id,
                at.pending()->Some_0.deactivated,
            ) is Ok
            &&& forall|kind: Kind, id: u32|
                pipeline.failed.of(kind).contains_key(id) ==> #[trigger] at.failed.of(
                    kind,
                ).contains_key(id)
        }),
    decreases pipeline.remaining(),
{
    match pipeline.pending() {
        None => {},
        Some(task) => match session.patch_request(task.id, task.deactivated) {
            Ok(_) => {},
            Err(failure) => {
                lemma_settle(session, pipeline.record(Err(failure)));
            },
        },
    }
}

impl SettingsView {
    /// The client that these settings ask for.
    pub open spec fn client(self) -> ClientView {
        ClientView { timeout: self.timeout, user_agent: self.user_agent }
    }

    /// The updates that these settings ask for, with nothing done yet.
    pub open spec fn pipeline(self) -> PipelineView {
        PipelineView::start(plan(self.deactivate, self.activate, self.bump))
    }

    /// The first step of a run: the login is submitted.
    pub open spec fn apply(self) -> StepView {
        spec_after_login(self.client().login(self.user_name, self.password), self.pipeline())
    }
}

impl RunView {
    /// The step that the answer to the request that is out leads to.
    pub open spec fn receive(self, reply: Result<Response, TransportError>) -> StepView {
        match self {
            RunView::LoggingIn(login, pipeline) => spec_after_login(login.receive(reply), pipeline),
            RunView::Updating(session, pipeline) => spec_drive(
                session,
                pipeline.record(spec_outcome(reply)),
            ),
        }
    }
}

/// Goes on with the updates until a request is to be sent or none is left.
fn drive(session: Session, pipeline: Pipeline) -> (step: Step)
    ensures
        step@ == spec_drive(session@, pipeline@),
{
    let mut left = pipeline;
    loop
        invariant
            spec_settle(session@, left@) == spec_settle(session@, pipeline@),
        decreases left@.remaining(),
    {
        let task = match left.pending() {
            Some(task) => task,
            None => {
                return Step::Finish(
                    match left.into_result() {
                        Ok(_) => Ok(()),
                        Err(failed) => Err(Error::from(failed)),
                    },
                );
            },
        };
        match session.build_patch_request(task.id, task.deactivated) {
            Ok(request) => {
                return Step::Send(request, Run { stage: Stage::Updating(session, left) });
            },
            Err(failure) => {
                left.record(Err(failure));
            },
        }
    }
}

/// Goes on with a run after a step of the handshake.
fn after_login(step: LoginStep, pipeline: Pipeline) -> (next: Step)
    ensures
        next@ == spec_after_login(step@, pipeline@),
{
    match step {
        LoginStep::Send(request, login) => Step::Send(
            request,
            Run { stage: Stage::LoggingIn(login, pipeline) },
        ),
        LoginStep::Finish(Err(failure)) => Step::Finish(Err(Error::from(failure))),
        LoginStep::Finish(Ok(session)) => drive(session, pipeline),
    }
}

impl Settings {
    /// Puts settings together.
    pub fn new(
        user_name: String,
        password: String,
        user_agent: String,
        timeout: Timeout,
        activate: Vec<u32>,
        bump: Vec<u32>,
        deactivate: Vec<u32>,
    ) -> (settings: Self)
        ensures
            settings@ == (SettingsView {
                user_name: user_name@,
                password: password@,
                user_agent: user_agent@,
                timeout,
                activate: activate@,
                bump: bump@,
                deactivate: deactivate@,
            }),
    {
        Self { user_name, password, user_agent, timeout, activate, bump, deactivate }
    }

    /// The settings of each account of a configuration file, in the order of the file.
    pub fn all_from(config_file: ConfigFile) -> (all: Vec<Settings>)
        ensures
            all.len() == config_file.accounts.len(),
            forall|i: int|
                0 <= i < all.len() ==> (#[trigger] all[i])@ == settings_of_account(
                    config_file.accounts[i],
                ),
    {
        let ghost accounts = config_file.accounts@;
        let mut all: Vec<Settings> = Vec::new();
        for account in it: config_file.accounts
            invariant
                it.seq() == accounts,
                all.len() == it.index(),
                forall|i: int|
                    0 <= i < all.len() ==> (#[trigger] all[i])@ == settings_of_account(accounts[i]),
        {
            all.push(Settings::from(account));
        }
        all
    }

    /// Apply the settings: the first step of the run that logs in and then deactivates,
    /// activates and bumps the offers, in this order. [`Run::receive`] gives the other steps.
    pub fn apply(self) -> (step: Step)
        ensures
            step@ == self@.apply(),
    {
        let pipeline = Pipeline::new(&self.deactivate, &self.activate, &self.bump);
        let client = Client::new(self.timeout, self.user_agent);
        after_login(client.login(self.user_name.as_str(), self.password.as_str()), pipeline)
    }
}

impl Run {
    /// Takes the answer to the request that is out, and says how the run goes on.
    pub fn receive(self, reply: Result<Response, TransportError>) -> (step: Step)
        ensures
            step@ == self@.receive(reply),
    {
        match self.stage {
            Stage::LoggingIn(login, pipeline) => after_login(login.receive(reply), pipeline),
            Stage::Updating(session, pipeline) => {
                let mut pipeline = pipeline;
                pipeline.record(Session::outcome(reply));
                drive(session, pipeline)
            },
        }
    }
}

} // verus!
