//! The poll loop's decisions: from the current phase and what just happened
//! to the next phase and what to do next. The caller performs each action
//! (read the settings, build the client, wait for the timer or an interrupt,
//! fetch, show the notification) and reports its outcome as the next event.
use vstd::prelude::*;
use crate::config::{Config, Failure};
use crate::repo::{ref_views_of, repo_refs, repo_refs_of, views_of, RepoRef};
use crate::review::{blocked_of, body_of, collect_blocked, notification_body, page_view, RepoPulls};

verus! {

/// Where the poller stands.
#[derive(Clone, Copy, Debug, PartialEq, Eq, Structural)]
pub enum Phase {
    LoadingConfig,
    BuildingClient,
    StartingNotifier,
    /// Waiting for the next tick or for an interrupt.
    Idle,
    Fetching,
    Notifying,
    /// Finished, with the process exit status.
    Exited { status: i32 },
}

/// What happened since the last step.
pub enum Event {
    ConfigLoaded(Result<Config, Failure>),
    ClientBuilt(Result<(), Failure>),
    NotifierStarted(Result<(), Failure>),
    /// The interval elapsed.
    Tick,
    /// An interrupt was received.
    Cancel,
    Fetched(Result<Vec<RepoPulls>, Failure>),
    Shown(Result<(), Failure>),
}

/// What the caller is to do next.
pub enum Action {
    BuildClient { token: String },
    StartNotifier,
    /// Wait for the next tick or an interrupt.
    Wait,
    /// List the open pull requests of each of `Poller::repos`, in order,
    /// stopping at the first failure.
    Fetch,
    Notify { title: String, body: String },
    /// Tear down and end the process with `status`.
    Exit { status: i32, failure: Option<Failure> },
    /// The event does not apply in this phase.
    Nothing,
}

/// Whether a result is a failure.
pub open spec fn failed<T>(r: Result<T, Failure>) -> bool {
    r is Err
}

/// The phase after `e` in phase `p`.
pub open spec fn next_phase(p: Phase, e: Event) -> Phase {
    match (p, e) {
        (Phase::LoadingConfig, Event::ConfigLoaded(r)) =>
            if failed(r) { Phase::Exited { status: 1 } } else { Phase::BuildingClient },
        (Phase::BuildingClient, Event::ClientBuilt(r)) =>
            if failed(r) { Phase::Exited { status: 1 } } else { Phase::StartingNotifier },
        (Phase::StartingNotifier, Event::NotifierStarted(r)) =>
            if failed(r) { Phase::Exited { status: 1 } } else { Phase::Idle },
        (Phase::Idle, Event::Tick) => Phase::Fetching,
        (Phase::Idle, Event::Cancel) => Phase::Exited { status: 0 },
        (Phase::Fetching, Event::Fetched(r)) =>
            if failed(r) { Phase::Exited { status: 1 } } else { Phase::Notifying },
        (Phase::Notifying, Event::Shown(r)) =>
            if failed(r) { Phase::Exited { status: 1 } } else { Phase::Idle },
        _ => p,
    }
}

/// Whether `e` in phase `p` starts a fetch.
pub open spec fn starts_fetch(p: Phase, e: Event) -> bool {
    p == Phase::Idle && e is Tick
}

/// The phase after a run of events from `p`.
pub open spec fn run_phase(p: Phase, events: Seq<Event>) -> Phase
    decreases events.len(),
{
    if events.len() == 0 {
        p
    } else {
        next_phase(run_phase(p, events.drop_last()), events.last())
    }
}

/// The poller: its phase, and what it keeps of the settings.
pub struct Poller {
    pub phase: Phase,
    pub username: String,
    pub repos: Vec<RepoRef>,
}

impl Poller {
    /// Every repository it keeps has an owner and a name.
    pub open spec fn wf(&self) -> bool {
        forall|i: int| 0 <= i < self.repos@.len() ==> (#[trigger] self.repos@[i]).wf()
    }

    /// A poller waiting for its settings.
    pub fn new() -> (r: Poller)
        ensures
            r.wf(),
            r.phase == Phase::LoadingConfig,
            r.repos@.len() == 0,
    {
        Poller { phase: Phase::LoadingConfig, username: String::new(), repos: Vec::new() }
    }

    /// The repositories to fetch, in the configured order.
    pub fn repos(&self) -> (r: &Vec<RepoRef>)
        ensures
            r == &self.repos,
    {
        &self.repos
    }

    /// Takes one step: moves to the next phase and says what to do.
    pub fn handle(&mut self, e: Event) -> (a: Action)
        requires
            old(self).wf(),
        ensures
            final(self).wf(),
            final(self).phase == next_phase(old(self).phase, e),
            (a is Fetch) == starts_fetch(old(self).phase, e),
            final(self).phase == old(self).phase ==> a is Nothing,
            old(self).phase != Phase::LoadingConfig ==> final(self).username == old(self).username
                && final(self).repos == old(self).repos,
            match (old(self).phase, e) {
                (Phase::LoadingConfig, Event::ConfigLoaded(Ok(c))) => a == (Action::BuildClient {
                    token: c.token,
                }) && final(self).username@ == c.username@ && ref_views_of(final(self).repos@)
                    == repo_refs_of(views_of(c.repos@)) && forall|i: int|
                    0 <= i < final(self).repos@.len() ==> (#[trigger] final(self).repos@[i]).wf(),
                (Phase::BuildingClient, Event::ClientBuilt(Ok(_))) => a is StartNotifier,
                (Phase::StartingNotifier, Event::NotifierStarted(Ok(_))) => a is Wait,
                (Phase::Idle, Event::Tick) => a is Fetch,
                (Phase::Idle, Event::Cancel) => a == (Action::Exit { status: 0, failure: None }),
                (Phase::Fetching, Event::Fetched(Ok(pages))) => match a {
                    Action::Notify { title, body } => title@ == "Pending PR reviews"@ && body@
                        == body_of(
                        blocked_of(pages@.map_values(|p: RepoPulls| page_view(p)), old(self).username@),
                    ),
                    _ => false,
                },
                (Phase::Notifying, Event::Shown(Ok(_))) => a is Wait,
                (Phase::LoadingConfig, Event::ConfigLoaded(Err(f)))
                | (Phase::BuildingClient, Event::ClientBuilt(Err(f)))
                | (Phase::StartingNotifier, Event::NotifierStarted(Err(f)))
                | (Phase::Fetching, Event::Fetched(Err(f)))
                | (Phase::Notifying, Event::Shown(Err(f))) => a == (Action::Exit {
                    status: 1,
                    failure: Some(f),
                }),
                _ => a is Nothing,
            },
    {
        match (self.phase, e) {
            (Phase::LoadingConfig, Event::ConfigLoaded(Ok(c))) => {
                let repos = repo_refs(&c.repos);
                self.username = c.username;
                self.repos = repos;
                self.phase = Phase::BuildingClient;
                Action::BuildClient { token: c.token }
            },
            (Phase::BuildingClient, Event::ClientBuilt(Ok(_))) => {
                self.phase = Phase::StartingNotifier;
                Action::StartNotifier
            },
            (Phase::StartingNotifier, Event::NotifierStarted(Ok(_))) => {
                self.phase = Phase::Idle;
                Action::Wait
            },
            (Phase::Idle, Event::Tick) => {
                self.phase = Phase::Fetching;
                Action::Fetch
            },
            (Phase::Idle, Event::Cancel) => {
                self.phase = Phase::Exited { status: 0 };
                Action::Exit { status: 0, failure: None }
            },
            (Phase::Fetching, Event::Fetched(Ok(pages))) => {
                let blocked = collect_blocked(&pages, &self.username);
                let body = notification_body(&blocked);
                self.phase = Phase::Notifying;
                Action::Notify { title: "Pending PR reviews".to_owned(), body }
            },
            (Phase::Notifying, Event::Shown(Ok(_))) => {
                self.phase = Phase::Idle;
                Action::Wait
            },
            (Phase::LoadingConfig, Event::ConfigLoaded(Err(f)))
            | (Phase::BuildingClient, Event::ClientBuilt(Err(f)))
            | (Phase::StartingNotifier, Event::NotifierStarted(Err(f)))
            | (Phase::Fetching, Event::Fetched(Err(f)))
            | (Phase::Notifying, Event::Shown(Err(f))) => {
                self.phase = Phase::Exited { status: 1 };
                Action::Exit { status: 1, failure: Some(f) }
            },
            _ => Action::Nothing,
        }
    }
}

/// Once the poller has exited, no event moves it again or starts a fetch.
pub proof fn lemma_exited_is_final(status: i32, events: Seq<Event>)
    ensures
        run_phase(Phase::Exited { status }, events) == (Phase::Exited { status }),
        forall|i: int|
            0 <= i < events.len() ==> !starts_fetch(
                #[trigger] run_phase(Phase::Exited { status }, events.take(i)),
                events[i],
            ),
    decreases events.len(),
{
    if events.len() > 0 {
        lemma_exited_is_final(status, events.drop_last());
    }
    assert forall|i: int| 0 <= i < events.len() implies !starts_fetch(
        #[trigger] run_phase(Phase::Exited { status }, events.take(i)),
        events[i],
    ) by {
        lemma_exited_is_final(status, events.take(i));
    }
}

/// An interrupt between ticks ends the poller with status 0, and no later
/// event starts another fetch.
pub proof fn lemma_cancel_between_ticks(later: Seq<Event>)
    ensures
        next_phase(Phase::Idle, Event::Cancel) == (Phase::Exited { status: 0 }),
        run_phase(Phase::Idle, seq![Event::Cancel] + later) == (Phase::Exited { status: 0 }),
        forall|i: int|
            0 <= i < later.len() ==> !starts_fetch(
                #[trigger] run_phase(Phase::Idle, (seq![Event::Cancel] + later).take(i + 1)),
                later[i],
            ),
{
    let all = seq![Event::Cancel] + later;
    lemma_exited_is_final(0, later);
    assert forall|j: int| 0 <= j <= later.len() implies #[trigger] run_phase(Phase::Idle, all.take(j + 1))
        == run_phase(Phase::Exited { status: 0 }, later.take(j)) by {
        lemma_shifted_run(later, j);
    }
    assert(all.take(later.len() as int + 1) =~= all);
    assert(later.take(later.len() as int) =~= later);
}

proof fn lemma_shifted_run(later: Seq<Event>, j: int)
    requires
        0 <= j <= later.len(),
    ensures
        run_phase(Phase::Idle, (seq![Event::Cancel] + later).take(j + 1))
            == run_phase(Phase::Exited { status: 0 }, later.take(j)),
    decreases j,
{
    let all = seq![Event::Cancel] + later;
    if j == 0 {
        assert(all.take(1).drop_last() =~= Seq::<Event>::empty());
        assert(run_phase(Phase::Idle, all.take(1).drop_last()) == Phase::Idle);
        assert(all.take(1).last() == all[0]);
        assert(later.take(0) =~= Seq::<Event>::empty());
    } else {
        lemma_shifted_run(later, j - 1);
        assert(all.take(j + 1).drop_last() =~= all.take(j));
        assert(later.take(j).drop_last() =~= later.take(j - 1));
        assert(all.take(j + 1).last() == later.take(j).last());
    }
}

} // verus!
