//! The run of a command as a sequence of actions.
//!
//! A session owns a plan and says, at each moment, which single action is
//! due: to acquire the next stream, to carry out the job, to release the
//! stream that was acquired last, or to leave.  Whoever performs the action
//! reports what came of it as an event.  Streams are released in the reverse
//! of the order in which they were acquired, and the session leaves only
//! when none is held.

use vstd::prelude::*;
use crate::command::{Exit, ExitView, Plan, PlanView, Request, RequestView, Verdict, VerdictView};

verus! {

/// Where a session stands.
#[derive(Debug, Clone, PartialEq, Eq)]
pub enum Stage {
    /// Streams are being acquired.
    Opening,
    /// Every stream is open and the job is being carried out.
    Working,
    /// The streams are being released; then the command leaves as the exit
    /// says.
    Closing(Exit),
}

pub enum StageView {
    Opening,
    Working,
    Closing(ExitView),
}

impl View for Stage {
    type V = StageView;

    open spec fn view(&self) -> StageView {
        match self {
            Stage::Opening => StageView::Opening,
            Stage::Working => StageView::Working,
            Stage::Closing(exit) => StageView::Closing(exit@),
        }
    }
}

/// What is to be done next.
#[derive(Debug, Clone, PartialEq, Eq)]
pub enum Action<J> {
    /// Open the stream and hold it.
    Acquire(Request),
    /// Carry out the job on the streams that are held.
    Run(J),
    /// Release the stream that was acquired last among those held.
    Release,
    /// Print the text and end the process with the status.
    Exit(Exit),
}

pub enum ActionView<J> {
    Acquire(RequestView),
    Run(J),
    Release,
    Exit(ExitView),
}

impl<J> View for Action<J> {
    type V = ActionView<J>;

    open spec fn view(&self) -> ActionView<J> {
        match self {
            Action::Acquire(request) => ActionView::Acquire(request@),
            Action::Run(job) => ActionView::Run(*job),
            Action::Release => ActionView::Release,
            Action::Exit(exit) => ActionView::Exit(exit@),
        }
    }
}

/// What came of an action.
#[derive(Debug, Clone, PartialEq, Eq)]
pub enum Event {
    /// The stream is open.
    Granted,
    /// The stream could not be opened; the command leaves as the exit says.
    Refused(Exit),
    /// The job is over; the command leaves as the exit says.
    Finished(Exit),
    /// The stream is released.
    Released,
}

pub enum EventView {
    Granted,
    Refused(ExitView),
    Finished(ExitView),
    Released,
}

impl View for Event {
    type V = EventView;

    open spec fn view(&self) -> EventView {
        match self {
            Event::Granted => EventView::Granted,
            Event::Refused(exit) => EventView::Refused(exit@),
            Event::Finished(exit) => EventView::Finished(exit@),
            Event::Released => EventView::Released,
        }
    }
}

/// The run of one command.
pub struct Session<J> {
    plan: Plan<J>,
    held: usize,
    stage: Stage,
}

pub struct SessionView<J> {
    pub plan: PlanView<J>,
    /// How many streams are held: the first `held` requests of the plan.
    pub held: nat,
    pub stage: StageView,
}

impl<J> SessionView<J> {
    /// The stage of a session in which the first `held` requests of `plan`
    /// were granted and nothing else has happened.
    pub open spec fn settled(plan: PlanView<J>, held: nat) -> StageView {
        if held < plan.requests.len() {
            StageView::Opening
        } else {
            match plan.verdict {
                VerdictView::Run(_) => StageView::Working,
                VerdictView::Quit(exit) => StageView::Closing(exit),
            }
        }
    }

    /// The session of `plan` before anything has happened.
    pub open spec fn opened(plan: PlanView<J>) -> SessionView<J> {
        SessionView { plan, held: 0, stage: Self::settled(plan, 0) }
    }

    /// No more streams are held than the plan asks for; while streams are
    /// acquired one is still missing, and while the job is carried out
    /// none is.
    pub open spec fn wf(self) -> bool {
        match self.stage {
            StageView::Opening => self.held < self.plan.requests.len(),
            StageView::Working => self.held == self.plan.requests.len()
                && self.plan.verdict is Run,
            StageView::Closing(_) => self.held <= self.plan.requests.len(),
        }
    }

    /// The action that is due.
    pub open spec fn action(self) -> ActionView<J> {
        match self.stage {
            StageView::Opening => ActionView::Acquire(self.plan.requests[self.held as int]),
            StageView::Working => ActionView::Run(self.plan.verdict->Run_0),
            StageView::Closing(exit) => if self.held > 0 {
                ActionView::Release
            } else {
                ActionView::Exit(exit)
            },
        }
    }

    /// Whether `event` tells what came of the action that is due.
    pub open spec fn answers(self, event: EventView) -> bool {
        match self.action() {
            ActionView::Acquire(_) => event is Granted || event is Refused,
            ActionView::Run(_) => event is Finished,
            ActionView::Release => event is Released,
            ActionView::Exit(_) => false,
        }
    }

    /// The session after `event`.  An event that does not answer the action
    /// that is due changes nothing.
    pub open spec fn next(self, event: EventView) -> SessionView<J> {
        if !self.answers(event) {
            self
        } else {
            match event {
                EventView::Granted => SessionView {
                    held: self.held + 1,
                    stage: Self::settled(self.plan, self.held + 1),
                    ..self
                },
                EventView::Refused(exit) => SessionView {
                    stage: StageView::Closing(exit),
                    ..self
                },
                EventView::Finished(exit) => SessionView {
                    stage: StageView::Closing(exit),
                    ..self
                },
                EventView::Released => SessionView { held: (self.held - 1) as nat, ..self },
            }
        }
    }

    /// The session after each of `events`, in order.
    pub open spec fn run(self, events: Seq<EventView>) -> SessionView<J>
        decreases events.len(),
    {
        if events.len() == 0 {
            self
        } else {
            self.run(events.drop_last()).next(events.last())
        }
    }
}

/// How many of `events` come to `session`, in order, as the answer `Granted`
/// to an action that was due.
pub open spec fn grants<J>(session: SessionView<J>, events: Seq<EventView>) -> nat
    decreases events.len(),
{
    if events.len() == 0 {
        0
    } else {
        let before = session.run(events.drop_last());
        let one: nat = if before.answers(events.last()) && events.last() is Granted {
            1
        } else {
            0
        };
        grants(session, events.drop_last()) + one
    }
}

/// How many of `events` come to `session`, in order, as the answer
/// `Released` to an action that was due.
pub open spec fn releases<J>(session: SessionView<J>, events: Seq<EventView>) -> nat
    decreases events.len(),
{
    if events.len() == 0 {
        0
    } else {
        let before = session.run(events.drop_last());
        let one: nat = if before.answers(events.last()) && events.last() is Released {
            1
        } else {
            0
        };
        releases(session, events.drop_last()) + one
    }
}

/// How many of `events` come to `session`, in order, as the answer to the
/// action `Run`.
pub open spec fn jobs<J>(session: SessionView<J>, events: Seq<EventView>) -> nat
    decreases events.len(),
{
    if events.len() == 0 {
        0
    } else {
        let before = session.run(events.drop_last());
        let one: nat = if before.action() is Run && before.answers(events.last()) {
            1
        } else {
            0
        };
        jobs(session, events.drop_last()) + one
    }
}

/// A fresh session is well formed.
pub proof fn lemma_opened<J>(plan: PlanView<J>)
    ensures
        SessionView::opened(plan).wf(),
        SessionView::opened(plan).held == 0,
{
}

/// At every moment the streams that are held are those that were granted
/// and not released since.  The job runs while every stream of the plan is
/// held, and the session leaves when none is.
pub proof fn lemma_balance<J>(session: SessionView<J>, events: Seq<EventView>)
    requires
        session.wf(),
    ensures
        session.run(events).wf(),
        session.run(events).plan == session.plan,
        session.run(events).held + releases(session, events) == session.held + grants(
            session,
            events,
        ),
        session.run(events).action() is Run ==> session.run(events).held
            == session.plan.requests.len(),
        session.run(events).action() is Release ==> session.run(events).held > 0,
        session.run(events).action() is Exit ==> session.run(events).held == 0,
    decreases events.len(),
{
    if events.len() > 0 {
        lemma_balance(session, events.drop_last());
    }
}

/// A session that leaves has released every stream that it acquired, once.
pub proof fn lemma_released_once<J>(plan: PlanView<J>, events: Seq<EventView>)
    requires
        SessionView::opened(plan).run(events).action() is Exit,
    ensures
        releases(SessionView::opened(plan), events) == grants(SessionView::opened(plan), events),
{
    lemma_balance(SessionView::opened(plan), events);
}

/// A session that is closing goes on closing, and leaves as it was about
/// to: it acquires nothing more and does not carry out the job.
pub proof fn lemma_closing<J>(session: SessionView<J>, events: Seq<EventView>)
    requires
        session.stage is Closing,
    ensures
        session.run(events).stage == session.stage,
        session.run(events).held <= session.held,
        grants(session, events) == 0,
        jobs(session, events) == 0,
    decreases events.len(),
{
    if events.len() > 0 {
        lemma_closing(session, events.drop_last());
    }
}

/// A session that is about to leave stays as it is, whatever it is told.
pub proof fn lemma_exit_is_final<J>(session: SessionView<J>, events: Seq<EventView>)
    requires
        session.action() is Exit,
    ensures
        session.run(events) == session,
    decreases events.len(),
{
    if events.len() > 0 {
        lemma_exit_is_final(session, events.drop_last());
    }
}

/// A session whose plan is to leave never carries out a job: it leaves at
/// once, as the plan says.
pub proof fn lemma_quit<J>(exit: ExitView, events: Seq<EventView>)
    ensures
        SessionView::<J>::opened(PlanView::quit(exit)).action() == ActionView::<J>::Exit(exit),
        SessionView::<J>::opened(PlanView::quit(exit)).run(events) == SessionView::<J>::opened(
            PlanView::quit(exit),
        ),
        jobs(SessionView::<J>::opened(PlanView::quit(exit)), events) == 0,
{
    let session = SessionView::<J>::opened(PlanView::quit(exit));
    lemma_exit_is_final(session, events);
    lemma_closing(session, events);
}

/// The job is carried out once at most.
pub proof fn lemma_one_job<J>(session: SessionView<J>, events: Seq<EventView>)
    requires
        session.wf(),
    ensures
        jobs(session, events) <= 1,
        jobs(session, events) == 1 ==> session.run(events).stage is Closing,
    decreases events.len(),
{
    if events.len() > 0 {
        let before = events.drop_last();
        lemma_one_job(session, before);
        lemma_balance(session, before);
        if jobs(session, before) == 1 {
            lemma_closing(session.run(before), seq![events.last()]);
            assert(seq![events.last()].drop_last() =~= Seq::<EventView>::empty());
        }
    }
}

/// How many answers a session can take at most before it leaves.
pub open spec fn remaining<J>(session: SessionView<J>) -> nat {
    match session.stage {
        StageView::Opening | StageView::Working => (2 * session.plan.requests.len()
            - session.held + 1) as nat,
        StageView::Closing(_) => session.held,
    }
}

/// Every answer brings a session nearer to leaving, and a session that can
/// take no more answers leaves: a command whose actions are performed and
/// answered leaves after twice as many answers as its plan has requests,
/// and one more, at most.
pub proof fn lemma_progress<J>(session: SessionView<J>, event: EventView)
    requires
        session.wf(),
    ensures
        remaining(session) <= 2 * session.plan.requests.len() + 1,
        remaining(session) == 0 <==> session.action() is Exit,
        session.answers(event) ==> remaining(session.next(event)) < remaining(session),
{
}

impl<J> Session<J> {
    #[verifier::type_invariant]
    spec fn inv(self) -> bool {
        self@.wf()
    }
}

impl<J: Copy> Session<J> {
    /// The session of `plan` before anything has happened.
    pub fn open(plan: Plan<J>) -> (s: Session<J>)
        ensures
            s@ == SessionView::opened(plan@),
    {
        let stage = Self::settle(&plan, 0);
        Session { plan, held: 0, stage }
    }

    fn settle(plan: &Plan<J>, held: usize) -> (stage: Stage)
        requires
            held <= plan.requests.len(),
        ensures
            stage@ == SessionView::settled(plan@, held as nat),
    {
        if held < plan.requests.len() {
            Stage::Opening
        } else {
            match &plan.verdict {
                Verdict::Run(_) => Stage::Working,
                Verdict::Quit(exit) => Stage::Closing(exit.copy()),
            }
        }
    }

    /// The action that is due.
    pub fn action(&self) -> (action: Action<J>)
        ensures
            action@ == self@.action(),
    {
        proof {
            use_type_invariant(self);
        }
        match &self.stage {
            Stage::Opening => Action::Acquire(self.plan.requests[self.held].copy()),
            Stage::Working => match &self.plan.verdict {
                Verdict::Run(job) => Action::Run(*job),
                Verdict::Quit(exit) => Action::Exit(exit.copy()),
            },
            Stage::Closing(exit) => if self.held > 0 {
                Action::Release
            } else {
                Action::Exit(exit.copy())
            },
        }
    }

    /// The session after `event`, which tells what came of the action that
    /// was due.
    pub fn step(self, event: Event) -> (next: Session<J>)
        ensures
            next@ == self@.next(event@),
    {
        proof {
            use_type_invariant(&self);
        }
        match (&self.stage, event) {
            (Stage::Opening, Event::Granted) => {
                assert(self.held < self.plan.requests.len());
                let held = self.held + 1;
                let stage = Self::settle(&self.plan, held);
                Session { plan: self.plan, held, stage }
            },
            (Stage::Opening, Event::Refused(exit)) => {
                Session { plan: self.plan, held: self.held, stage: Stage::Closing(exit) }
            },
            (Stage::Working, Event::Finished(exit)) => {
                Session { plan: self.plan, held: self.held, stage: Stage::Closing(exit) }
            },
            (Stage::Closing(_), Event::Released) => {
                if self.held > 0 {
                    Session { plan: self.plan, held: self.held - 1, stage: self.stage }
                } else {
                    self
                }
            },
            _ => self,
        }
    }
}

impl<J> View for Session<J> {
    type V = SessionView<J>;

    closed spec fn view(&self) -> SessionView<J> {
        SessionView { plan: self.plan@, held: self.held as nat, stage: self.stage@ }
    }
}

} // verus!
