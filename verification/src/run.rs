//! A run, as a state machine: fetch page by page, keep the candidates, drop
//! what was handled before, trigger a review for each of the rest, and
//! persist what succeeded.
//!
//! The machine does none of the outside work itself. It says what has to be
//! done next ([`Run::pending`]) and is told how that went ([`Run::step`]).
//! [`RunModel`] is the same machine over sequences and sets; the laws at the
//! end of this file are stated over it.

use crate::config::{opt_text, Config, ConfigView};
use crate::github::{
    candidate_under, candidates, extract_package_name, filter_prs, package_name, PullRequest,
};
use std::collections::HashSet;
use vstd::prelude::*;

verus! {

broadcast use vstd::std_specs::hash::group_hash_axioms;

/// The number of pull requests asked for per page.
pub const PER_PAGE: u8 = 100;

/// Where a run stands.
#[derive(Debug, Clone, Copy, PartialEq, Eq)]
pub enum Stage {
    /// A page of the listing is awaited.
    Fetching,
    /// The outcome of a trigger is awaited.
    Triggering,
    /// The outcome of saving the processed set is awaited.
    Persisting,
    /// Nothing is left to do.
    Done,
}

/// What has to be done next for a run.
#[derive(Debug, Clone, Copy, PartialEq, Eq)]
pub enum Action {
    /// Fetch this page of the listing, newest first.
    FetchPage { per_page: u8, page: u32 },
    /// Ask for a review of this pull request.
    Trigger { number: u64 },
    /// Persist the processed set.
    Save,
    /// Report how the run ended.
    Finish,
}

/// How an action went.
#[derive(Debug, PartialEq, Eq)]
pub enum Event {
    /// The page that was asked for.
    Page(Vec<PullRequest>),
    /// The page could not be fetched; the cause.
    FetchFailed(String),
    /// The review was requested.
    Triggered,
    /// The review could not be requested; the reason.
    TriggerFailed(String),
    /// The processed set was persisted.
    Saved,
    /// The processed set could not be persisted; the cause.
    SaveFailed(String),
}

/// How the trigger for one pull request went.
#[derive(Debug, PartialEq, Eq)]
pub enum Outcome {
    Succeeded,
    Failed(String),
}

/// What became of one pull request of the queue.
#[derive(Debug, PartialEq, Eq)]
pub struct RunResult {
    /// The pull request's number.
    pub number: u64,
    /// The package that its title names, if it names one.
    pub package: Option<String>,
    /// How its trigger went.
    pub outcome: Outcome,
}

/// How a run ended.
#[derive(Debug, PartialEq, Eq)]
pub enum Ending {
    /// No pull request was left after filtering and deduplication.
    NothingToDo,
    /// The pull requests left were only listed.
    DryRun,
    /// Every pull request left was tried, and what succeeded was persisted.
    /// A run whose triggers all failed ends in this way too, with nothing
    /// persisted.
    Completed,
    /// A page could not be fetched; nothing was triggered or persisted.
    FetchFailed { page: u32, cause: String },
    /// Reviews were requested, but the processed set could not be persisted.
    SaveFailed { cause: String },
}

/// The test that keeps what is not in `processed`.
pub open spec fn unprocessed(processed: Set<u64>) -> spec_fn(PullRequest) -> bool {
    |pr: PullRequest| !processed.contains(pr.number)
}

/// The pull requests of `matching` that a run turns to: all of them where
/// `force` is set, else those that are not in `processed`; in their order.
pub open spec fn new_prs(matching: Seq<PullRequest>, processed: Set<u64>, force: bool) -> Seq<
    PullRequest,
> {
    if force {
        matching
    } else {
        matching.filter(unprocessed(processed))
    }
}

/// How many of `outcomes` are successes.
pub open spec fn successes(outcomes: Seq<Outcome>) -> nat
    decreases outcomes.len(),
{
    if outcomes.len() == 0 {
        0
    } else {
        successes(outcomes.drop_last()) + if outcomes.last() is Succeeded {
            1nat
        } else {
            0nat
        }
    }
}

/// The numbers of the pull requests of `queue` whose outcome is a success.
pub open spec fn succeeded_numbers(queue: Seq<PullRequest>, outcomes: Seq<Outcome>) -> Set<u64> {
    Set::new(
        |n: u64|
            exists|i: int|
                0 <= i < outcomes.len() && i < queue.len() && outcomes[i] is Succeeded
                    && queue[i].number == n,
    )
}

/// Page `page` of a listing, counted from 1, with `PER_PAGE` items to a
/// page: short, or empty, where the listing ends.
pub open spec fn page_of(source: Seq<PullRequest>, page: nat) -> Seq<PullRequest> {
    let from = if (page - 1) * PER_PAGE < source.len() {
        (page - 1) * PER_PAGE
    } else {
        source.len() as int
    };
    let to = if page * PER_PAGE < source.len() {
        page * PER_PAGE
    } else {
        source.len() as int
    };
    source.subrange(from, to)
}

/// A run over sequences and sets.
pub struct RunModel {
    /// The configuration's content.
    pub rules: ConfigView,
    /// The number of pull requests asked for in all.
    pub limit: nat,
    pub dry_run: bool,
    pub force: bool,
    /// The processed set as it was loaded.
    pub loaded: Set<u64>,
    pub stage: Stage,
    /// The page that is awaited, or that was awaited last.
    pub page: nat,
    /// The pull requests fetched, newest first.
    pub fetched: Seq<PullRequest>,
    /// Once the fetch is complete: the pull requests that the run turns to.
    pub queue: Seq<PullRequest>,
    /// The outcomes so far, for the front of `queue`.
    pub outcomes: Seq<Outcome>,
    /// The processed set as it is now.
    pub processed: Set<u64>,
    /// How the run ended, once it is done.
    pub ending: Option<Ending>,
}

impl RunModel {
    /// A run at its start: the first page is awaited, unless nothing is asked for.
    pub open spec fn begin(
        rules: ConfigView,
        limit: nat,
        dry_run: bool,
        force: bool,
        loaded: Set<u64>,
    ) -> RunModel {
        let m = RunModel {
            rules,
            limit,
            dry_run,
            force,
            loaded,
            stage: Stage::Fetching,
            page: 1,
            fetched: Seq::empty(),
            queue: Seq::empty(),
            outcomes: Seq::empty(),
            processed: loaded,
            ending: None,
        };
        if limit == 0 {
            m.select()
        } else {
            m
        }
    }

    /// The fetched pull requests that pass the filters.
    pub open spec fn matching(self) -> Seq<PullRequest> {
        candidates(self.rules, self.fetched)
    }

    /// The fetch is complete: filter, deduplicate, and decide how to go on.
    /// With nothing left the run is done; so it is when it is a dry run.
    pub open spec fn select(self) -> RunModel {
        let queue = new_prs(self.matching(), self.processed, self.force);
        RunModel {
            stage: if queue.len() == 0 || self.dry_run {
                Stage::Done
            } else {
                Stage::Triggering
            },
            queue,
            ending: if queue.len() == 0 {
                Some(Ending::NothingToDo)
            } else if self.dry_run {
                Some(Ending::DryRun)
            } else {
                None
            },
            ..self
        }
    }

    /// A page arrived. A short page, or one that fills the limit, completes
    /// the fetch, cut to the limit; any other is followed by the next page.
    pub open spec fn accept_page(self, items: Seq<PullRequest>) -> RunModel {
        let all = self.fetched + items;
        if items.len() < PER_PAGE || all.len() >= self.limit {
            RunModel {
                fetched: if all.len() > self.limit {
                    all.take(self.limit as int)
                } else {
                    all
                },
                ..self
            }.select()
        } else {
            RunModel { fetched: all, page: self.page + 1, ..self }
        }
    }

    /// The pull request whose trigger is awaited.
    pub open spec fn current(self) -> PullRequest {
        self.queue[self.outcomes.len() as int]
    }

    /// A trigger came back. Only a success enters the processed set, and a
    /// failure does not keep the run from the next pull request. After the
    /// last one the set is persisted, if anything succeeded.
    pub open spec fn record(self, outcome: Outcome) -> RunModel {
        let outcomes = self.outcomes.push(outcome);
        let stage = if outcomes.len() < self.queue.len() {
            Stage::Triggering
        } else if successes(outcomes) > 0 {
            Stage::Persisting
        } else {
            Stage::Done
        };
        RunModel {
            stage,
            outcomes,
            processed: if outcome is Succeeded {
                self.processed.insert(self.current().number)
            } else {
                self.processed
            },
            ending: if stage is Done {
                Some(Ending::Completed)
            } else {
                None
            },
            ..self
        }
    }

    /// The run has ended in this way.
    pub open spec fn finish(self, ending: Ending) -> RunModel {
        RunModel { stage: Stage::Done, ending: Some(ending), ..self }
    }

    /// The run after `event`. An event that does not answer the pending
    /// action changes nothing.
    pub open spec fn after(self, event: Event) -> RunModel {
        match (self.stage, event) {
            (Stage::Fetching, Event::Page(items)) => self.accept_page(items@),
            (Stage::Fetching, Event::FetchFailed(cause)) => self.finish(
                Ending::FetchFailed { page: self.page as u32, cause },
            ),
            (Stage::Triggering, Event::Triggered) => self.record(Outcome::Succeeded),
            (Stage::Triggering, Event::TriggerFailed(cause)) => self.record(Outcome::Failed(cause)),
            (Stage::Persisting, Event::Saved) => self.finish(Ending::Completed),
            (Stage::Persisting, Event::SaveFailed(cause)) => self.finish(
                Ending::SaveFailed { cause },
            ),
            _ => self,
        }
    }

    /// The run after each of `events` in turn.
    pub open spec fn after_all(self, events: Seq<Event>) -> RunModel
        decreases events.len(),
    {
        if events.len() == 0 {
            self
        } else {
            self.after(events.first()).after_all(events.drop_first())
        }
    }

    /// The run once it has been given the pages it asks for, out of
    /// `source`, until it asks for no more.
    pub open spec fn fetch_from(self, source: Seq<PullRequest>) -> RunModel
        decreases self.limit - self.fetched.len(),
    {
        if self.stage is Fetching {
            let next = self.accept_page(page_of(source, self.page));
            if next.stage is Fetching {
                next.fetch_from(source)
            } else {
                next
            }
        } else {
            self
        }
    }

    /// What has to be done next.
    pub open spec fn pending(self) -> Action {
        match self.stage {
            Stage::Fetching => Action::FetchPage { per_page: PER_PAGE, page: self.page as u32 },
            Stage::Triggering => Action::Trigger { number: self.current().number },
            Stage::Persisting => Action::Save,
            Stage::Done => Action::Finish,
        }
    }

    /// How many pages were asked for so far.
    pub open spec fn pages_requested(self) -> nat {
        if self.limit == 0 {
            0
        } else {
            self.page
        }
    }

    /// Whether the fetch was completed, so that the queue was chosen.
    pub open spec fn selected(self) -> bool {
        !(self.stage is Fetching) && !(self.ending matches Some(Ending::FetchFailed { .. }))
    }

    /// How many of the fetched pull requests passed the filters, once the
    /// fetch is complete.
    pub open spec fn matched(self) -> nat {
        if self.selected() {
            self.matching().len()
        } else {
            0
        }
    }

    /// What holds of a run whose fetch is complete and whose queue is not
    /// chosen yet.
    pub open spec fn fetch_complete(self) -> bool {
        &&& self.stage is Fetching
        &&& self.fetched.len() <= self.limit <= u32::MAX
        &&& 1 <= self.page <= u32::MAX
        &&& self.queue.len() == 0
        &&& self.outcomes.len() == 0
        &&& self.processed == self.loaded
    }

    /// What holds of every run that [`RunModel::begin`] and
    /// [`RunModel::after`] lead to.
    pub open spec fn wf(self) -> bool {
        &&& self.limit <= u32::MAX
        &&& 1 <= self.page <= u32::MAX
        &&& self.fetched.len() <= self.limit
        &&& self.outcomes.len() <= self.queue.len()
        &&& self.dry_run ==> self.outcomes.len() == 0
        &&& self.processed == self.loaded + succeeded_numbers(self.queue, self.outcomes)
        &&& self.ending is Some <==> self.stage is Done
        &&& if self.selected() {
            self.queue == new_prs(self.matching(), self.loaded, self.force)
        } else {
            self.queue.len() == 0
        }
        &&& match self.stage {
            Stage::Fetching => (self.page - 1) * PER_PAGE <= self.fetched.len() < self.limit,
            Stage::Triggering => self.outcomes.len() < self.queue.len() && !self.dry_run,
            Stage::Persisting => self.outcomes.len() == self.queue.len() && successes(
                self.outcomes,
            ) > 0,
            Stage::Done => true,
        }
    }
}

/// Successes are outcomes.
pub proof fn lemma_successes_bound(outcomes: Seq<Outcome>)
    ensures
        successes(outcomes) <= outcomes.len(),
    decreases outcomes.len(),
{
    if outcomes.len() > 0 {
        lemma_successes_bound(outcomes.drop_last());
    }
}

/// One more outcome adds its number to the succeeded ones exactly when it is
/// a success.
pub proof fn lemma_succeeded_numbers_push(
    queue: Seq<PullRequest>,
    outcomes: Seq<Outcome>,
    outcome: Outcome,
)
    requires
        outcomes.len() < queue.len(),
    ensures
        succeeded_numbers(queue, outcomes.push(outcome)) == if outcome is Succeeded {
            succeeded_numbers(queue, outcomes).insert(queue[outcomes.len() as int].number)
        } else {
            succeeded_numbers(queue, outcomes)
        },
{
    let k = outcomes.len() as int;
    let number = queue[k].number;
    let more = outcomes.push(outcome);
    let old_set = succeeded_numbers(queue, outcomes);
    let new_set = succeeded_numbers(queue, more);
    assert forall|n: u64| old_set.contains(n) implies new_set.contains(n) by {
        let i = choose|i: int|
            0 <= i < outcomes.len() && i < queue.len() && outcomes[i] is Succeeded
                && queue[i].number == n;
        assert(more[i] is Succeeded);
    }
    assert forall|n: u64| new_set.contains(n) implies old_set.contains(n) || (outcome is Succeeded
        && n == number) by {
        let i = choose|i: int|
            0 <= i < more.len() && i < queue.len() && more[i] is Succeeded && queue[i].number == n;
        if i < k {
            assert(outcomes[i] is Succeeded);
        }
    }
}

/// Choosing the queue leads to a well-formed run.
pub proof fn lemma_select_wf(m: RunModel)
    requires
        m.fetch_complete(),
    ensures
        m.select().wf(),
        m.select().selected(),
{
    m.fetched.lemma_filter_len(candidate_under(m.rules));
    m.matching().lemma_filter_len(unprocessed(m.processed));
    let s = m.select();
    assert(m.loaded + succeeded_numbers(s.queue, s.outcomes) =~= m.loaded);
}

/// A run at its start is well-formed.
pub proof fn lemma_begin_wf(
    rules: ConfigView,
    limit: nat,
    dry_run: bool,
    force: bool,
    loaded: Set<u64>,
)
    requires
        limit <= u32::MAX,
    ensures
        RunModel::begin(rules, limit, dry_run, force, loaded).wf(),
{
    let m = RunModel {
        rules,
        limit,
        dry_run,
        force,
        loaded,
        stage: Stage::Fetching,
        page: 1,
        fetched: Seq::empty(),
        queue: Seq::empty(),
        outcomes: Seq::empty(),
        processed: loaded,
        ending: None,
    };
    assert(loaded + succeeded_numbers(m.queue, m.outcomes) =~= loaded);
    if limit == 0 {
        lemma_select_wf(m);
    }
}

/// A page leads from a well-formed run that awaits one to a well-formed run.
pub proof fn lemma_accept_page_wf(m: RunModel, items: Seq<PullRequest>)
    requires
        m.wf(),
        m.stage is Fetching,
    ensures
        m.accept_page(items).wf(),
{
    let all = m.fetched + items;
    assert(m.loaded + succeeded_numbers(m.queue, m.outcomes) =~= m.loaded);
    if items.len() < PER_PAGE || all.len() >= m.limit {
        lemma_select_wf(
            RunModel {
                fetched: if all.len() > m.limit {
                    all.take(m.limit as int)
                } else {
                    all
                },
                ..m
            },
        );
    }
}

/// An outcome leads from a well-formed run that awaits one to a well-formed
/// run.
pub proof fn lemma_record_wf(m: RunModel, outcome: Outcome)
    requires
        m.wf(),
        m.stage is Triggering,
    ensures
        m.record(outcome).wf(),
{
    lemma_succeeded_numbers_push(m.queue, m.outcomes, outcome);
    let next = m.record(outcome);
    assert(next.processed =~= next.loaded + succeeded_numbers(next.queue, next.outcomes));
}

/// Every event leads from a well-formed run to a well-formed run.
pub proof fn lemma_after_wf(m: RunModel, event: Event)
    requires
        m.wf(),
    ensures
        m.after(event).wf(),
{
    match (m.stage, event) {
        (Stage::Fetching, Event::Page(items)) => {
            lemma_accept_page_wf(m, items@);
        },
        (Stage::Triggering, Event::Triggered) => {
            lemma_record_wf(m, Outcome::Succeeded);
        },
        (Stage::Triggering, Event::TriggerFailed(cause)) => {
            lemma_record_wf(m, Outcome::Failed(cause));
        },
        _ => {},
    }
}

/// Every sequence of events leads from a well-formed run to a well-formed
/// run.
pub proof fn lemma_after_all_wf(m: RunModel, events: Seq<Event>)
    requires
        m.wf(),
    ensures
        m.after_all(events).wf(),
    decreases events.len(),
{
    if events.len() > 0 {
        lemma_after_wf(m, events.first());
        lemma_after_all_wf(m.after(events.first()), events.drop_first());
    }
}

/// Whether `result` tells what became of `pr` when its trigger ended in
/// `outcome`.
pub open spec fn is_result_of(result: RunResult, pr: PullRequest, outcome: Outcome) -> bool {
    &&& result.number == pr.number
    &&& opt_text(result.package) == package_name(pr.title@)
    &&& result.outcome == outcome
}

/// The number of pages that `limit` pull requests fill.
pub open spec fn pages_for(limit: nat) -> nat {
    ((limit + PER_PAGE - 1) / (PER_PAGE as int)) as nat
}

/// Decides [`pages_for`].
pub fn page_count(limit: u32) -> (pages: u32)
    ensures
        pages == pages_for(limit as nat),
{
    let full: u32 = limit / (PER_PAGE as u32);
    if limit % (PER_PAGE as u32) == 0 {
        full
    } else {
        full + 1
    }
}

/// Decides [`new_prs`].
pub fn select_new(matching: Vec<PullRequest>, processed: &HashSet<u64>, force: bool) -> (kept: Vec<
    PullRequest,
>)
    ensures
        kept@ == new_prs(matching@, processed@, force),
{
    if force {
        return matching;
    }
    let ghost all = matching@;
    let mut kept: Vec<PullRequest> = Vec::new();
    assert(all.take(0).filter(unprocessed(processed@)) == Seq::<PullRequest>::empty()) by {
        reveal(Seq::filter);
    }
    for pr in it: matching.into_iter()
        invariant
            it.seq() == all,
            kept@ == all.take(it.index() as int).filter(unprocessed(processed@)),
    {
        proof {
            let i = it.index() as int;
            reveal(Seq::filter);
            assert(all.take(i + 1).drop_last() == all.take(i));
        }
        if !processed.contains(&pr.number) {
            kept.push(pr);
        }
    }
    assert(all.take(all.len() as int) == all);
    kept
}

/// A run.
pub struct Run {
    config: Config,
    limit: u32,
    dry_run: bool,
    force: bool,
    stage: Stage,
    page: u32,
    /// While fetching: the pull requests fetched so far.
    buffer: Vec<PullRequest>,
    fetched: usize,
    matched: usize,
    queue: Vec<PullRequest>,
    outcomes: Vec<Outcome>,
    triggered: usize,
    processed: HashSet<u64>,
    ending: Option<Ending>,
    model: Ghost<RunModel>,
}

impl View for Run {
    type V = RunModel;

    closed spec fn view(&self) -> RunModel {
        self.model@
    }
}

/// The counts of a run.
#[derive(Debug, Clone, Copy, PartialEq, Eq)]
pub struct Report {
    /// Pull requests fetched.
    pub fetched: usize,
    /// Of those, the ones that passed the filters.
    pub matched: usize,
    /// Of those, the ones that the run turned to.
    pub new: usize,
    /// Reviews requested.
    pub triggered: usize,
    /// Reviews that could not be requested.
    pub failed: usize,
}

impl Run {
    #[verifier::type_invariant]
    spec fn inv(&self) -> bool {
        let m = self.model@;
        &&& m.wf()
        &&& m.rules == self.config@
        &&& m.limit == self.limit
        &&& m.dry_run == self.dry_run
        &&& m.force == self.force
        &&& m.stage == self.stage
        &&& m.page == self.page
        &&& m.stage is Fetching ==> m.fetched == self.buffer@
        &&& m.fetched.len() == self.fetched
        &&& m.matched() == self.matched
        &&& m.queue == self.queue@
        &&& m.outcomes == self.outcomes@
        &&& m.processed == self.processed@
        &&& m.ending == self.ending
        &&& self.triggered == successes(self.outcomes@)
    }

    /// A run at its start, with the processed set as it was loaded.
    pub fn start(
        config: Config,
        limit: u32,
        dry_run: bool,
        force: bool,
        processed: HashSet<u64>,
    ) -> (run: Run)
        ensures
            run@ == RunModel::begin(config@, limit as nat, dry_run, force, processed@),
            run@.wf(),
    {
        let ghost m = RunModel {
            rules: config@,
            limit: limit as nat,
            dry_run,
            force,
            loaded: processed@,
            stage: Stage::Fetching,
            page: 1,
            fetched: Seq::empty(),
            queue: Seq::empty(),
            outcomes: Seq::empty(),
            processed: processed@,
            ending: None,
        };
        proof {
            lemma_begin_wf(config@, limit as nat, dry_run, force, processed@);
        }
        if limit == 0 {
            Run::select(config, limit, dry_run, force, 1, Ghost(m), Vec::new(), processed)
        } else {
            Run {
                config,
                limit,
                dry_run,
                force,
                stage: Stage::Fetching,
                page: 1,
                buffer: Vec::new(),
                fetched: 0,
                matched: 0,
                queue: Vec::new(),
                outcomes: Vec::new(),
                triggered: 0,
                processed,
                ending: None,
                model: Ghost(m),
            }
        }
    }

    /// Ends the fetch with `fetched`: filters, deduplicates and decides.
    fn select(
        config: Config,
        limit: u32,
        dry_run: bool,
        force: bool,
        page: u32,
        before: Ghost<RunModel>,
        fetched: Vec<PullRequest>,
        processed: HashSet<u64>,
    ) -> (run: Run)
        requires
            before@.fetch_complete(),
            before@.rules == config@,
            before@.limit == limit,
            before@.dry_run == dry_run,
            before@.force == force,
            before@.page == page,
            before@.fetched == fetched@,
            before@.processed == processed@,
        ensures
            run@ == before@.select(),
            run@.wf(),
    {
        let ghost m = before@.select();
        proof {
            lemma_select_wf(before@);
            fetched@.lemma_filter_len(candidate_under(config@));
            assert(before@.outcomes =~= Seq::<Outcome>::empty());
        }
        let total = fetched.len();
        let matching = filter_prs(&config, fetched);
        let matched = matching.len();
        let queue = select_new(matching, &processed, force);
        let nothing = queue.len() == 0;
        Run {
            config,
            limit,
            dry_run,
            force,
            stage: if nothing || dry_run {
                Stage::Done
            } else {
                Stage::Triggering
            },
            page,
            buffer: Vec::new(),
            fetched: total,
            matched,
            queue,
            outcomes: Vec::new(),
            triggered: 0,
            processed,
            ending: if nothing {
                Some(Ending::NothingToDo)
            } else if dry_run {
                Some(Ending::DryRun)
            } else {
                None
            },
            model: Ghost(m),
        }
    }

    /// Takes a page in.
    fn accept_page(self, items: Vec<PullRequest>) -> (next: Run)
        requires
            self@.stage is Fetching,
        ensures
            next@ == self@.accept_page(items@),
            next@.wf(),
    {
        let ghost before = self@;
        proof {
            use_type_invariant(&self);
            lemma_accept_page_wf(before, items@);
            assert(before.loaded + succeeded_numbers(before.queue, before.outcomes)
                =~= before.loaded);
        }
        let Run {
            config,
            limit,
            dry_run,
            force,
            stage,
            page,
            mut buffer,
            fetched: _,
            matched,
            queue,
            outcomes,
            triggered,
            processed,
            ending,
            model: _,
        } = self;
        let ghost all = buffer@ + items@;
        let ghost after = before.accept_page(items@);
        let mut items = items;
        let short = items.len() < PER_PAGE as usize;
        buffer.append(&mut items);
        if short || buffer.len() >= limit as usize {
            buffer.truncate(limit as usize);
            let ghost complete = RunModel {
                fetched: if all.len() > limit {
                    all.take(limit as int)
                } else {
                    all
                },
                ..before
            };
            assert(buffer@ == complete.fetched);
            Run::select(config, limit, dry_run, force, page, Ghost(complete), buffer, processed)
        } else {
            let fetched = buffer.len();
            Run {
                config,
                limit,
                dry_run,
                force,
                stage,
                page: page + 1,
                buffer,
                fetched,
                matched,
                queue,
                outcomes,
                triggered,
                processed,
                ending,
                model: Ghost(after),
            }
        }
    }

    /// Takes the outcome of the awaited trigger in.
    fn record(self, outcome: Outcome) -> (next: Run)
        requires
            self@.stage is Triggering,
        ensures
            next@ == self@.record(outcome),
            next@.wf(),
    {
        let ghost before = self@;
        let ghost after = before.record(outcome);
        proof {
            use_type_invariant(&self);
            lemma_record_wf(before, outcome);
            lemma_successes_bound(before.outcomes);
            assert(before.outcomes.push(outcome).drop_last() == before.outcomes);
        }
        let Run {
            config,
            limit,
            dry_run,
            force,
            stage: _,
            page,
            buffer,
            fetched,
            matched,
            queue,
            mut outcomes,
            mut triggered,
            mut processed,
            ending: _,
            model: _,
        } = self;
        let number = queue[outcomes.len()].number;
        if matches!(outcome, Outcome::Succeeded) {
            processed.insert(number);
            triggered += 1;
        }
        outcomes.push(outcome);
        let stage = if outcomes.len() < queue.len() {
            Stage::Triggering
        } else if triggered > 0 {
            Stage::Persisting
        } else {
            Stage::Done
        };
        let ending = match stage {
            Stage::Done => Some(Ending::Completed),
            _ => None,
        };
        Run {
            config,
            limit,
            dry_run,
            force,
            stage,
            page,
            buffer,
            fetched,
            matched,
            queue,
            outcomes,
            triggered,
            processed,
            ending,
            model: Ghost(after),
        }
    }

    /// Ends the run.
    fn finish(self, ending: Ending) -> (next: Run)
        requires
            self@.stage is Fetching && ending is FetchFailed || self@.stage is Persisting && !(ending
                is FetchFailed),
        ensures
            next@ == self@.finish(ending),
            next@.wf(),
    {
        let ghost after = self@.finish(ending);
        proof {
            use_type_invariant(&self);
        }
        let Run {
            config,
            limit,
            dry_run,
            force,
            stage: _,
            page,
            buffer,
            fetched,
            matched,
            queue,
            outcomes,
            triggered,
            processed,
            ending: _,
            model: _,
        } = self;
        Run {
            config,
            limit,
            dry_run,
            force,
            stage: Stage::Done,
            page,
            buffer,
            fetched,
            matched,
            queue,
            outcomes,
            triggered,
            processed,
            ending: Some(ending),
            model: Ghost(after),
        }
    }

    /// The run after `event`, which tells how the pending action went. An
    /// event that does not answer the pending action changes nothing.
    pub fn step(self, event: Event) -> (next: Run)
        ensures
            next@ == self@.after(event),
            next@.wf(),
    {
        proof {
            use_type_invariant(&self);
        }
        match self.stage {
            Stage::Fetching => match event {
                Event::Page(items) => self.accept_page(items),
                Event::FetchFailed(cause) => {
                    let page = self.page;
                    self.finish(Ending::FetchFailed { page, cause })
                },
                _ => self,
            },
            Stage::Triggering => match event {
                Event::Triggered => self.record(Outcome::Succeeded),
                Event::TriggerFailed(cause) => self.record(Outcome::Failed(cause)),
                _ => self,
            },
            Stage::Persisting => match event {
                Event::Saved => self.finish(Ending::Completed),
                Event::SaveFailed(cause) => self.finish(Ending::SaveFailed { cause }),
                _ => self,
            },
            Stage::Done => self,
        }
    }

    /// What has to be done next.
    pub fn pending(&self) -> (action: Action)
        ensures
            action == self@.pending(),
            self@.wf(),
    {
        proof {
            use_type_invariant(self);
        }
        match self.stage {
            Stage::Fetching => Action::FetchPage { per_page: PER_PAGE, page: self.page },
            Stage::Triggering => Action::Trigger { number: self.queue[self.outcomes.len()].number },
            Stage::Persisting => Action::Save,
            Stage::Done => Action::Finish,
        }
    }

    /// Where the run stands.
    pub fn stage(&self) -> (stage: Stage)
        ensures
            stage == self@.stage,
    {
        proof {
            use_type_invariant(self);
        }
        self.stage
    }

    /// The configuration that the run was started with.
    pub fn config(&self) -> (config: &Config)
        ensures
            config@ == self@.rules,
    {
        proof {
            use_type_invariant(self);
        }
        &self.config
    }

    /// How many pages were asked for so far.
    pub fn pages_requested(&self) -> (pages: u32)
        ensures
            pages == self@.pages_requested(),
    {
        proof {
            use_type_invariant(self);
        }
        if self.limit == 0 {
            0
        } else {
            self.page
        }
    }

    /// The pull requests that the run turns to, once the fetch is complete.
    pub fn queue(&self) -> (queue: &Vec<PullRequest>)
        ensures
            queue@ == self@.queue,
    {
        proof {
            use_type_invariant(self);
        }
        &self.queue
    }

    /// The outcomes so far, for the front of the queue.
    pub fn outcomes(&self) -> (outcomes: &Vec<Outcome>)
        ensures
            outcomes@ == self@.outcomes,
    {
        proof {
            use_type_invariant(self);
        }
        &self.outcomes
    }

    /// The processed set as it is now.
    pub fn processed(&self) -> (processed: &HashSet<u64>)
        ensures
            processed@ == self@.processed,
    {
        proof {
            use_type_invariant(self);
        }
        &self.processed
    }

    /// How the run ended, once it is done.
    pub fn ending(&self) -> (ending: &Option<Ending>)
        ensures
            *ending == self@.ending,
    {
        proof {
            use_type_invariant(self);
        }
        &self.ending
    }

    /// What became of the pull requests that were tried so far, in the
    /// order of the queue.
    pub fn results(&self) -> (results: Vec<RunResult>)
        ensures
            results@.len() == self@.outcomes.len(),
            forall|i: int|
                0 <= i < results@.len() ==> is_result_of(
                    #[trigger] results@[i],
                    self@.queue[i],
                    self@.outcomes[i],
                ),
    {
        proof {
            use_type_invariant(self);
        }
        let mut results: Vec<RunResult> = Vec::new();
        let mut i: usize = 0;
        while i < self.outcomes.len()
            invariant
                i <= self.outcomes.len() <= self.queue.len(),
                results@.len() == i,
                forall|j: int|
                    0 <= j < i ==> is_result_of(
                        #[trigger] results@[j],
                        self.queue@[j],
                        self.outcomes@[j],
                    ),
            decreases self.outcomes.len() - i,
        {
            let pr = &self.queue[i];
            let package = match extract_package_name(pr.title.as_str()) {
                Some(name) => Some(name.to_owned()),
                None => None,
            };
            let outcome = match &self.outcomes[i] {
                Outcome::Succeeded => Outcome::Succeeded,
                Outcome::Failed(reason) => Outcome::Failed(reason.clone()),
            };
            results.push(RunResult { number: pr.number, package, outcome });
            i += 1;
        }
        results
    }

    /// The counts of the run so far.
    pub fn report(&self) -> (report: Report)
        ensures
            report.fetched == self@.fetched.len(),
            report.matched == self@.matched(),
            report.new == self@.queue.len(),
            report.triggered == successes(self@.outcomes),
            report.failed == self@.outcomes.len() - successes(self@.outcomes),
    {
        proof {
            use_type_invariant(self);
            lemma_successes_bound(self.outcomes@);
        }
        Report {
            fetched: self.fetched,
            matched: self.matched,
            new: self.queue.len(),
            triggered: self.triggered,
            failed: self.outcomes.len() - self.triggered,
        }
    }
}

/// No event takes a number out of the processed set, and a trigger that
/// succeeded puts the number of its pull request into it.
pub proof fn lemma_processed_grows(m: RunModel, event: Event)
    ensures
        m.processed.subset_of(m.after(event).processed),
        m.stage is Triggering && event is Triggered ==> m.after(event).processed.contains(
            m.current().number,
        ),
{
}

/// No sequence of events takes a number out of the processed set.
pub proof fn lemma_processed_grows_all(m: RunModel, events: Seq<Event>)
    ensures
        m.processed.subset_of(m.after_all(events).processed),
    decreases events.len(),
{
    if events.len() > 0 {
        lemma_processed_grows(m, events.first());
        lemma_processed_grows_all(m.after(events.first()), events.drop_first());
    }
}

/// Once a review was requested for a pull request, its number is in the
/// processed set for the rest of the run, whatever happens.
pub proof fn lemma_triggered_stays_processed(m: RunModel, events: Seq<Event>)
    requires
        m.stage is Triggering,
    ensures
        m.after(Event::Triggered).after_all(events).processed.contains(m.current().number),
{
    lemma_processed_grows(m, Event::Triggered);
    lemma_processed_grows_all(m.after(Event::Triggered), events);
}

/// A number that is in the processed set when a run starts is in it
/// throughout the run.
pub proof fn lemma_loaded_stays_processed(
    rules: ConfigView,
    limit: nat,
    dry_run: bool,
    force: bool,
    loaded: Set<u64>,
    events: Seq<Event>,
    number: u64,
)
    requires
        loaded.contains(number),
    ensures
        RunModel::begin(rules, limit, dry_run, force, loaded).after_all(events).processed.contains(
            number,
        ),
{
    lemma_processed_grows_all(RunModel::begin(rules, limit, dry_run, force, loaded), events);
}

/// At every point of every run, the processed set holds what was loaded and
/// the numbers of the pull requests whose trigger succeeded, and nothing
/// else; and the outcomes are those of the front of the queue.
pub proof fn lemma_only_successes_are_processed(
    rules: ConfigView,
    limit: nat,
    dry_run: bool,
    force: bool,
    loaded: Set<u64>,
    events: Seq<Event>,
)
    requires
        limit <= u32::MAX,
    ensures
        ({
            let m = RunModel::begin(rules, limit, dry_run, force, loaded).after_all(events);
            &&& m.outcomes.len() <= m.queue.len()
            &&& m.processed == loaded + succeeded_numbers(m.queue, m.outcomes)
        }),
{
    let start = RunModel::begin(rules, limit, dry_run, force, loaded);
    lemma_begin_wf(rules, limit, dry_run, force, loaded);
    lemma_after_all_wf(start, events);
    lemma_keeps_loaded(start, events);
}

/// No sequence of events changes what a run has loaded.
proof fn lemma_keeps_loaded(m: RunModel, events: Seq<Event>)
    ensures
        m.after_all(events).loaded == m.loaded,
    decreases events.len(),
{
    if events.len() > 0 {
        lemma_keeps_loaded(m.after(events.first()), events.drop_first());
    }
}

/// Without `force`, no pull request whose number was in the processed set
/// when the run started is turned to.
pub proof fn lemma_never_triggers_processed(m: RunModel, i: int)
    requires
        m.wf(),
        !m.force,
        0 <= i < m.queue.len(),
    ensures
        !m.loaded.contains(m.queue[i].number),
{
    m.matching().lemma_filter_pred(unprocessed(m.loaded), i);
}

/// The processed set is persisted only after a trigger succeeded, and never
/// in a dry run. A dry run triggers nothing and leaves the set as it was
/// loaded; so does a run whose fetch failed.
pub proof fn lemma_saves_only_after_success(m: RunModel)
    requires
        m.wf(),
    ensures
        m.pending() == Action::Save ==> successes(m.outcomes) > 0 && !m.dry_run,
        m.dry_run ==> !(m.pending() is Trigger) && m.processed == m.loaded,
        m.ending matches Some(Ending::FetchFailed { .. }) ==> m.queue.len() == 0 && m.processed
            == m.loaded,
        successes(m.outcomes) == 0 ==> m.processed == m.loaded,
{
    if successes(m.outcomes) == 0 {
        assert forall|i: int| 0 <= i < m.outcomes.len() implies !(m.outcomes[i] is Succeeded) by {
            lemma_no_success(m.outcomes, i);
        }
    }
    assert(m.outcomes.len() == 0 || successes(m.outcomes) == 0 ==> succeeded_numbers(
        m.queue,
        m.outcomes,
    ) =~= Set::<u64>::empty());
}

/// Where no outcome is a success, none is.
proof fn lemma_no_success(outcomes: Seq<Outcome>, i: int)
    requires
        successes(outcomes) == 0,
        0 <= i < outcomes.len(),
    ensures
        !(outcomes[i] is Succeeded),
    decreases outcomes.len(),
{
    if i < outcomes.len() - 1 {
        lemma_no_success(outcomes.drop_last(), i);
    }
}

/// A trigger that fails changes nothing in the processed set and does not
/// stop the run: the next pull request of the queue is turned to; after the
/// last one the set is persisted if any trigger succeeded, and left alone if
/// none did.
pub proof fn lemma_failure_goes_on(m: RunModel, cause: String)
    requires
        m.wf(),
        m.stage is Triggering,
    ensures
        ({
            let next = m.after(Event::TriggerFailed(cause));
            &&& next.processed == m.processed
            &&& next.queue == m.queue
            &&& next.outcomes == m.outcomes.push(Outcome::Failed(cause))
            &&& m.outcomes.len() + 1 < m.queue.len() ==> next.pending() == Action::Trigger {
                number: m.queue[m.outcomes.len() as int + 1].number,
            }
            &&& m.outcomes.len() + 1 == m.queue.len() ==> next.pending() == if successes(
                m.outcomes,
            ) > 0 {
                Action::Save
            } else {
                Action::Finish
            }
        }),
{
    assert(m.outcomes.push(Outcome::Failed(cause)).drop_last() == m.outcomes);
}

/// Where every outcome is a success, each one is.
proof fn lemma_all_succeeded(outcomes: Seq<Outcome>, i: int)
    requires
        successes(outcomes) == outcomes.len(),
        0 <= i < outcomes.len(),
    ensures
        outcomes[i] is Succeeded,
    decreases outcomes.len(),
{
    lemma_successes_bound(outcomes.drop_last());
    if i < outcomes.len() - 1 {
        lemma_all_succeeded(outcomes.drop_last(), i);
    }
}

/// After a run in which every pull request of the queue was triggered with
/// success, a second run over the same fetched pull requests, without
/// `force` and from the processed set that the first run left, finds nothing
/// to do.
pub proof fn lemma_rerun_finds_nothing(first: RunModel, second: RunModel)
    requires
        first.wf(),
        first.selected(),
        first.outcomes.len() == first.queue.len(),
        successes(first.outcomes) == first.outcomes.len(),
        second.fetch_complete(),
        second.rules == first.rules,
        second.fetched == first.fetched,
        second.loaded == first.processed,
        !second.force,
    ensures
        second.select().queue.len() == 0,
        second.select().ending == Some(Ending::NothingToDo),
        second.select().pending() == Action::Finish,
{
    let matching = first.matching();
    let again = matching.filter(unprocessed(first.processed));
    if again.len() > 0 {
        let pr = again[0];
        matching.lemma_filter_pred(unprocessed(first.processed), 0);
        matching.lemma_filter_contains_rev(unprocessed(first.processed), pr);
        let j = choose|j: int| 0 <= j < matching.len() && matching[j] == pr;
        if !first.force {
            matching.lemma_filter_contains(unprocessed(first.loaded), j);
        }
        let k = choose|k: int| 0 <= k < first.queue.len() && first.queue[k] == pr;
        lemma_all_succeeded(first.outcomes, k);
        assert(first.processed.contains(pr.number));
    }
}

/// A run that is given the pages of a listing fetches a prefix of it: all
/// of it, or as much as was asked for. It asks for the pages in turn, for
/// none after a short one and for none after the limit is reached.
pub proof fn lemma_fetch_reads_prefix(
    rules: ConfigView,
    limit: nat,
    dry_run: bool,
    force: bool,
    loaded: Set<u64>,
    source: Seq<PullRequest>,
)
    requires
        limit <= u32::MAX,
    ensures
        ({
            let end = RunModel::begin(rules, limit, dry_run, force, loaded).fetch_from(source);
            let wanted = if source.len() < limit {
                source.len()
            } else {
                limit
            };
            let pages_wanted = pages_for(limit);
            let pages_there = source.len() / (PER_PAGE as nat) + 1;
            &&& !(end.stage is Fetching)
            &&& end.fetched == source.take(wanted as int)
            &&& end.pages_requested() == if pages_wanted < pages_there {
                pages_wanted
            } else {
                pages_there
            }
            &&& end.queue == new_prs(candidates(rules, end.fetched), loaded, force)
        }),
{
    let start = RunModel::begin(rules, limit, dry_run, force, loaded);
    lemma_begin_wf(rules, limit, dry_run, force, loaded);
    assert(Seq::<PullRequest>::empty() == source.take(0));
    if limit > 0 {
        lemma_fetch_from(start, source);
    }
}

/// [`lemma_fetch_reads_prefix`], from any page on.
proof fn lemma_fetch_from(m: RunModel, source: Seq<PullRequest>)
    requires
        m.wf(),
        m.stage is Fetching,
        (m.page - 1) * PER_PAGE <= source.len(),
        m.fetched == source.take((m.page - 1) * PER_PAGE),
    ensures
        ({
            let end = m.fetch_from(source);
            let wanted = if source.len() < m.limit {
                source.len()
            } else {
                m.limit
            };
            let pages_wanted = pages_for(m.limit) as int;
            let pages_there = source.len() / (PER_PAGE as nat) + 1;
            &&& !(end.stage is Fetching)
            &&& end.limit == m.limit
            &&& end.fetched == source.take(wanted as int)
            &&& end.page == if pages_wanted < pages_there {
                pages_wanted
            } else {
                pages_there as int
            }
            &&& end.queue == new_prs(candidates(m.rules, end.fetched), m.loaded, m.force)
        }),
    decreases m.limit - m.fetched.len(),
{
    let k = (m.page - 1) * PER_PAGE;
    let items = page_of(source, m.page);
    let all = m.fetched + items;
    let next = m.accept_page(items);
    lemma_accept_page_wf(m, items);
    if k + PER_PAGE <= source.len() {
        assert(all == source.take(k + PER_PAGE));
        if all.len() < m.limit {
            lemma_fetch_from(next, source);
        }
    }
}

} // verus!
