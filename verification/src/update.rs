//! The difference between two observations of a feed, and a synchronisation
//! cycle over the local actors.

use vstd::prelude::*;
use crate::error::{AppError, AppErrorView};
use crate::feed::{
    feed_request, same_items, FeedDescriptor, FeedFormat, FeedRequest, FeedSources, FeedView,
    ItemView, JsonUserFeed, JsonUserFeedItem,
};
use crate::web_url::UrlView;

verus! {

/// How an entry of the current feed stands to the previous snapshot.
#[derive(Clone, Copy, Debug, PartialEq, Eq, Structural)]
pub enum ChangeKind {
    /// No entry of the snapshot has this identifier.
    New,
    /// An entry of the snapshot has this identifier, whatever else has changed.
    Unchanged,
}

/// Whether one of the entries has the given identifier.
pub open spec fn known(entries: Seq<ItemView>, id: Seq<char>) -> bool {
    exists|j: int| 0 <= j < entries.len() && (#[trigger] entries[j]).id == id
}

/// The kind of an entry against the entries of a snapshot: by identifier alone.
pub open spec fn change_of(previous: Seq<ItemView>, item: ItemView) -> ChangeKind {
    if known(previous, item.id) {
        ChangeKind::Unchanged
    } else {
        ChangeKind::New
    }
}

/// Each current entry, in the order given, with its kind. Entries that only the
/// snapshot holds do not occur.
pub open spec fn classification(previous: Seq<ItemView>, current: Seq<ItemView>) -> Seq<
    (ItemView, ChangeKind),
> {
    current.map_values(|item: ItemView| (item, change_of(previous, item)))
}

/// The current entries that are new, in the order given.
pub open spec fn new_items(previous: Seq<ItemView>, current: Seq<ItemView>) -> Seq<ItemView> {
    current.filter(|item: ItemView| !known(previous, item.id))
}

/// The entries of a classification that are classified as new, in their order.
pub open spec fn classified_new(classified: Seq<(ItemView, ChangeKind)>) -> Seq<ItemView> {
    classified.filter(|pair: (ItemView, ChangeKind)| pair.1 == ChangeKind::New).map_values(
        |pair: (ItemView, ChangeKind)| pair.0,
    )
}

/// The mathematical value of a classified list of entries.
pub open spec fn classified_view(classified: Seq<(JsonUserFeedItem, ChangeKind)>) -> Seq<
    (ItemView, ChangeKind),
> {
    classified.map_values(|pair: (JsonUserFeedItem, ChangeKind)| (pair.0@, pair.1))
}

/// The same snapshot and the same current entries always have the same
/// classification: whatever two runs of the comparison return, they return the
/// same.
pub proof fn lemma_classification_repeats(
    previous: Seq<ItemView>,
    current: Seq<ItemView>,
    first: Seq<(ItemView, ChangeKind)>,
    second: Seq<(ItemView, ChangeKind)>,
)
    requires
        first == classification(previous, current),
        second == classification(previous, current),
    ensures
        first == second,
{
}

/// Once the current entries have become the snapshot, a second comparison with
/// them finds every entry unchanged and none new.
pub proof fn lemma_replay_finds_nothing_new(current: Seq<ItemView>)
    ensures
        forall|i: int|
            0 <= i < current.len() ==> (#[trigger] classification(current, current)[i]).1
                == ChangeKind::Unchanged,
        new_items(current, current) == Seq::<ItemView>::empty(),
{
    lemma_nothing_new_among_known(current, current);
}

/// An entry is reported for each current entry and for no other: the
/// classification is as long as the current feed and holds its entries in their
/// order, so an entry that only the snapshot holds is never reported.
pub proof fn lemma_only_current_entries_are_reported(
    previous: Seq<ItemView>,
    current: Seq<ItemView>,
)
    ensures
        classification(previous, current).len() == current.len(),
        forall|i: int|
            0 <= i < current.len() ==> (#[trigger] classification(previous, current)[i]).0
                == current[i],
        forall|i: int|
            0 <= i < new_items(previous, current).len() ==> current.contains(
                #[trigger] new_items(previous, current)[i],
            ) && !known(previous, new_items(previous, current)[i].id),
{
    let fresh = |item: ItemView| !known(previous, item.id);
    assert forall|i: int| 0 <= i < new_items(previous, current).len() implies current.contains(
        #[trigger] new_items(previous, current)[i],
    ) && !known(previous, new_items(previous, current)[i].id) by {
        let item = current.filter(fresh)[i];
        current.lemma_filter_pred(fresh, i);
        assert(current.filter(fresh).contains(item));
        current.lemma_filter_contains_rev(fresh, item);
    }
}

/// The entries that are handed on for publishing are those that the comparison
/// classifies as new, each once for each time it is classified so, in the same
/// order.
pub proof fn lemma_fresh_items_are_those_classified_new(
    previous: Seq<ItemView>,
    current: Seq<ItemView>,
)
    ensures
        new_items(previous, current) == classified_new(classification(previous, current)),
    decreases current.len(),
{
    reveal(Seq::filter);
    let all = classification(previous, current);
    if current.len() > 0 {
        lemma_fresh_items_are_those_classified_new(previous, current.drop_last());
        assert(all.drop_last() =~= classification(previous, current.drop_last()));
    }
    assert(new_items(previous, current) =~= classified_new(all));
}

/// Where every current entry is known to the snapshot, none is new.
proof fn lemma_nothing_new_among_known(previous: Seq<ItemView>, current: Seq<ItemView>)
    requires
        forall|i: int| 0 <= i < current.len() ==> known(previous, #[trigger] current[i].id),
    ensures
        new_items(previous, current) == Seq::<ItemView>::empty(),
    decreases current.len(),
{
    reveal(Seq::filter);
    if current.len() > 0 {
        lemma_nothing_new_among_known(previous, current.drop_last());
    }
}

/// What one more entry adds to the new ones.
proof fn lemma_new_items_step(previous: Seq<ItemView>, seen: Seq<ItemView>, item: ItemView)
    ensures
        new_items(previous, seen.push(item)) == if known(previous, item.id) {
            new_items(previous, seen)
        } else {
            new_items(previous, seen).push(item)
        },
{
    reveal(Seq::filter);
    assert(seen.push(item).drop_last() =~= seen);
}

/// Whether one of the entries has the given identifier.
pub fn contains_id(entries: &Vec<JsonUserFeedItem>, id: &String) -> (found: bool)
    ensures
        found == known(entries.deep_view(), id@),
{
    let mut i: usize = 0;
    while i < entries.len()
        invariant
            i <= entries.len(),
            forall|j: int| 0 <= j < i ==> entries[j]@.id != id@,
        decreases entries.len() - i,
    {
        if entries[i].id == *id {
            assert(entries.deep_view()[i as int].id == id@);
            return true;
        }
        i += 1;
    }
    assert forall|j: int| 0 <= j < entries.deep_view().len() implies (
    #[trigger] entries.deep_view()[j]).id != id@ by {
        assert(entries[j]@.id != id@);
    }
    false
}

/// Compares a freshly acquired feed with the previous snapshot: every current
/// entry, in its order, as `New` where the snapshot holds no entry of its
/// identifier and as `Unchanged` where it holds one.
///
/// Entries that have left the feed are not reported, and an entry whose content
/// has changed under the same identifier counts as `Unchanged`.
pub fn diff(previous: &JsonUserFeed, current: &JsonUserFeed) -> (classified: Vec<
    (JsonUserFeedItem, ChangeKind),
>)
    ensures
        classified_view(classified@) == classification(previous@.items, current@.items),
{
    let mut classified: Vec<(JsonUserFeedItem, ChangeKind)> = Vec::new();
    let mut i: usize = 0;
    while i < current.items.len()
        invariant
            i <= current.items.len(),
            classified.len() == i,
            forall|j: int|
                0 <= j < i ==> (#[trigger] classified[j]).0@ == current.items[j]@ && classified[j].1
                    == change_of(previous@.items, current.items[j]@),
        decreases current.items.len() - i,
    {
        let item = &current.items[i];
        let kind = if contains_id(&previous.items, &item.id) {
            ChangeKind::Unchanged
        } else {
            ChangeKind::New
        };
        classified.push((item.clone(), kind));
        i += 1;
    }
    assert(classified_view(classified@) =~= classification(previous@.items, current@.items));
    classified
}

/// The entries of a freshly acquired feed that the previous snapshot does not
/// know, in their order: those that the engine hands on for publishing.
///
/// Where both feeds hold the same entries nothing is looked up, and nothing is
/// new.
pub fn fresh_items(previous: &JsonUserFeed, current: &JsonUserFeed) -> (fresh: Vec<
    JsonUserFeedItem,
>)
    ensures
        fresh.deep_view() == new_items(previous@.items, current@.items),
{
    let mut fresh: Vec<JsonUserFeedItem> = Vec::new();
    assert(fresh.deep_view() =~= Seq::<ItemView>::empty());
    if same_items(&previous.items, &current.items) {
        proof {
            assert forall|i: int| 0 <= i < current@.items.len() implies known(
                previous@.items,
                #[trigger] current@.items[i].id,
            ) by {
                assert(previous@.items[i].id == current@.items[i].id);
            }
            lemma_nothing_new_among_known(previous@.items, current@.items);
        }
        return fresh;
    }
    let mut i: usize = 0;
    proof {
        lemma_nothing_new_among_known(previous@.items, current@.items.take(0));
    }
    while i < current.items.len()
        invariant
            i <= current.items.len(),
            fresh.deep_view() == new_items(previous@.items, current@.items.take(i as int)),
        decreases current.items.len() - i,
    {
        let item = &current.items[i];
        let ghost before = fresh.deep_view();
        proof {
            lemma_new_items_step(previous@.items, current@.items.take(i as int), item@);
            assert(current@.items.take(i as int).push(item@) =~= current@.items.take(i + 1));
        }
        if !contains_id(&previous.items, &item.id) {
            fresh.push(item.clone());
            assert(fresh.deep_view() =~= before.push(item@));
        }
        i += 1;
    }
    assert(current@.items.take(i as int) =~= current@.items);
    fresh
}

/// What a cycle is to do for one actor before anything is fetched.
#[derive(Debug)]
pub enum CyclePlan {
    /// No snapshot is stored for the actor: nothing is fetched.
    Idle,
    /// No source can be fetched: the actor's cycle has failed already.
    Failed(AppError),
    /// The one source that is to be fetched and read.
    Acquire(FeedRequest),
}

/// The mathematical value of a [`CyclePlan`].
pub enum PlanView {
    Idle,
    Failed(AppErrorView),
    Acquire { format: FeedFormat, url: UrlView },
}

impl View for CyclePlan {
    type V = PlanView;

    open spec fn view(&self) -> PlanView {
        match *self {
            CyclePlan::Idle => PlanView::Idle,
            CyclePlan::Failed(e) => PlanView::Failed(e@),
            CyclePlan::Acquire(request) => PlanView::Acquire {
                format: request.format,
                url: request.url@,
            },
        }
    }
}

/// The plan for an actor. The sources are looked at first: an actor without
/// any feed URL has failed with `NotFound("Feed Url", name)`, whether a snapshot
/// is stored for it or not. Then nothing is done for an actor without a stored
/// snapshot. Else the plan is what `feed_request` gives for the sources: the
/// request to fetch, or the failure.
pub open spec fn planned(has_snapshot: bool, sources: FeedSources, name: Seq<char>) -> PlanView {
    if sources.is_empty() {
        PlanView::Failed(AppErrorView::NotFound { kind: "Feed Url"@, name })
    } else if !has_snapshot {
        PlanView::Idle
    } else {
        match feed_request(sources, name) {
            Ok((format, url)) => PlanView::Acquire { format, url },
            Err(e) => PlanView::Failed(e),
        }
    }
}

/// What a plan that asks for no fetch has observed already: nothing for want
/// of a snapshot, or the failure. `None` for a plan that asks for a fetch.
pub open spec fn settled(plan: PlanView) -> Option<ObservationView> {
    match plan {
        PlanView::Idle => Some(ObservationView::NoSnapshot),
        PlanView::Failed(e) => Some(ObservationView::Failed(e)),
        PlanView::Acquire { .. } => None,
    }
}

/// An actor without any feed URL ends its part of the cycle in
/// `NotFound("Feed Url", name)`: its plan asks for no fetch, and the report on
/// what the plan has settled holds that error, whether a snapshot is stored for
/// the actor or not.
pub proof fn lemma_actor_without_url_ends_in_not_found(
    actor: Seq<char>,
    has_snapshot: bool,
    sources: FeedSources,
    name: Seq<char>,
)
    requires
        sources.is_empty(),
    ensures
        settled(planned(has_snapshot, sources, name)) matches Some(observed) && report_of(
            CycleView { actor, observed },
        ).outcome == OutcomeView::Failed(AppErrorView::NotFound { kind: "Feed Url"@, name }),
{
}

/// Plans one actor's part of a cycle: `planned` of whether a snapshot is stored
/// for it, of its sources and of its name. A source is fetched only on the plan
/// `Acquire`, so for an actor without a snapshot or without a feed URL none is.
pub fn plan_cycle(has_snapshot: bool, feed: FeedDescriptor, name: &str) -> (plan: CyclePlan)
    ensures
        plan@ == planned(has_snapshot, feed@, name@),
        plan is Acquire ==> has_snapshot && !feed@.is_empty(),
{
    if feed.is_empty() {
        return CyclePlan::Failed(AppError::not_found("Feed Url", name));
    }
    if !has_snapshot {
        return CyclePlan::Idle;
    }
    match JsonUserFeed::get_feed(feed, name) {
        Ok(request) => CyclePlan::Acquire(request),
        Err(e) => CyclePlan::Failed(e),
    }
}

impl CyclePlan {
    /// What the plan has observed without a fetch, or else the request that is
    /// to be fetched before anything is observed.
    pub fn settle(self) -> (observed: Result<Observation, FeedRequest>)
        ensures
            match observed {
                Ok(o) => settled(self@) == Some(o@),
                Err(request) => self@ == (PlanView::Acquire {
                    format: request.format,
                    url: request.url@,
                }),
            },
    {
        match self {
            CyclePlan::Idle => Ok(Observation::NoSnapshot),
            CyclePlan::Failed(e) => Ok(Observation::Failed(e)),
            CyclePlan::Acquire(request) => Err(request),
        }
    }
}

/// What a cycle has observed of one actor's feed.
#[derive(Debug)]
pub enum Observation {
    /// No snapshot is stored for the actor, so nothing was acquired.
    NoSnapshot,
    /// The feed could not be acquired.
    Failed(AppError),
    /// The feed was acquired, and a snapshot was there to compare it with.
    Acquired { previous: JsonUserFeed, current: JsonUserFeed },
}

/// One local actor's part in a cycle: its identifier and what was observed.
#[derive(Debug)]
pub struct ActorCycle {
    pub actor: String,
    pub observed: Observation,
}

/// What a cycle has done for one actor.
#[derive(Debug)]
pub enum CycleOutcome {
    /// Nothing was compared. No snapshot is to be written.
    Idle,
    /// The actor's cycle failed. The stored snapshot stays as it is.
    Failed(AppError),
    /// The feed was compared: `fresh` holds the entries to publish, in their
    /// order, and `snapshot` the whole feed that becomes the stored snapshot
    /// once they are published.
    Synced { fresh: Vec<JsonUserFeedItem>, snapshot: JsonUserFeed },
}

/// The report of a cycle on one actor.
#[derive(Debug)]
pub struct CycleReport {
    pub actor: String,
    pub outcome: CycleOutcome,
}

/// The mathematical value of an [`Observation`].
pub enum ObservationView {
    NoSnapshot,
    Failed(AppErrorView),
    Acquired { previous: FeedView, current: FeedView },
}

/// The mathematical value of an [`ActorCycle`].
pub struct CycleView {
    pub actor: Seq<char>,
    pub observed: ObservationView,
}

/// The mathematical value of a [`CycleOutcome`].
pub enum OutcomeView {
    Idle,
    Failed(AppErrorView),
    Synced { fresh: Seq<ItemView>, snapshot: FeedView },
}

/// The mathematical value of a [`CycleReport`].
pub struct ReportView {
    pub actor: Seq<char>,
    pub outcome: OutcomeView,
}

impl View for Observation {
    type V = ObservationView;

    open spec fn view(&self) -> ObservationView {
        match *self {
            Observation::NoSnapshot => ObservationView::NoSnapshot,
            Observation::Failed(e) => ObservationView::Failed(e@),
            Observation::Acquired { previous, current } => ObservationView::Acquired {
                previous: previous@,
                current: current@,
            },
        }
    }
}

impl View for ActorCycle {
    type V = CycleView;

    open spec fn view(&self) -> CycleView {
        CycleView { actor: self.actor@, observed: self.observed@ }
    }
}

impl DeepView for ActorCycle {
    type V = CycleView;

    open spec fn deep_view(&self) -> CycleView {
        self@
    }
}

impl View for CycleOutcome {
    type V = OutcomeView;

    open spec fn view(&self) -> OutcomeView {
        match *self {
            CycleOutcome::Idle => OutcomeView::Idle,
            CycleOutcome::Failed(e) => OutcomeView::Failed(e@),
            CycleOutcome::Synced { fresh, snapshot } => OutcomeView::Synced {
                fresh: fresh.deep_view(),
                snapshot: snapshot@,
            },
        }
    }
}

impl View for CycleReport {
    type V = ReportView;

    open spec fn view(&self) -> ReportView {
        ReportView { actor: self.actor@, outcome: self.outcome@ }
    }
}

impl DeepView for CycleReport {
    type V = ReportView;

    open spec fn deep_view(&self) -> ReportView {
        self@
    }
}

/// What a cycle does with an observation: nothing without a snapshot, a failure
/// for a failure, and for an acquired feed the new entries together with the
/// whole feed as the next snapshot.
pub open spec fn outcome_of(observed: ObservationView) -> OutcomeView {
    match observed {
        ObservationView::NoSnapshot => OutcomeView::Idle,
        ObservationView::Failed(e) => OutcomeView::Failed(e),
        ObservationView::Acquired { previous, current } => OutcomeView::Synced {
            fresh: new_items(previous.items, current.items),
            snapshot: current,
        },
    }
}

/// The report on one actor. It depends on nothing but that actor's own
/// observation.
pub open spec fn report_of(cycle: CycleView) -> ReportView {
    ReportView { actor: cycle.actor, outcome: outcome_of(cycle.observed) }
}

/// The reports of a cycle: one for each actor, in the order of the actors.
pub open spec fn reports_of(cycles: Seq<CycleView>) -> Seq<ReportView> {
    cycles.map_values(|cycle: CycleView| report_of(cycle))
}

/// A failure of one actor stops no other: the cycle reports on every actor,
/// the report of the one that failed holds its error, and the report of every
/// other actor, before it or after it, is what it would be had the failure
/// not occurred.
pub proof fn lemma_failure_stays_with_its_actor(
    cycles: Seq<CycleView>,
    failed: int,
    error: AppErrorView,
    instead: ObservationView,
)
    requires
        0 <= failed < cycles.len(),
        cycles[failed].observed == ObservationView::Failed(error),
    ensures
        reports_of(cycles).len() == cycles.len(),
        reports_of(cycles)[failed].outcome == OutcomeView::Failed(error),
        forall|other: int|
            0 <= other < cycles.len() ==> #[trigger] reports_of(cycles)[other] == report_of(
                cycles[other],
            ),
        forall|other: int|
            0 <= other < cycles.len() && other != failed ==> #[trigger] reports_of(
                cycles,
            )[other] == reports_of(
                cycles.update(failed, CycleView { actor: cycles[failed].actor, observed: instead }),
            )[other],
{
}

/// A snapshot is written in whole or not at all: a report names a next
/// snapshot only where the feed was acquired, and then it is the acquired feed
/// as it stands.
pub proof fn lemma_snapshot_is_whole_or_untouched(cycle: CycleView)
    ensures
        match report_of(cycle).outcome {
            OutcomeView::Synced { fresh, snapshot } => cycle.observed matches ObservationView::Acquired {
                previous,
                current,
            } && snapshot == current && fresh == new_items(previous.items, current.items),
            _ => !(cycle.observed is Acquired),
        },
{
}

/// One actor's part of a cycle: `report_of` it.
pub fn fast_update_partial(cycle: &ActorCycle) -> (report: CycleReport)
    ensures
        report@ == report_of(cycle@),
{
    let outcome = match &cycle.observed {
        Observation::NoSnapshot => CycleOutcome::Idle,
        Observation::Failed(e) => CycleOutcome::Failed(e.clone()),
        Observation::Acquired { previous, current } => CycleOutcome::Synced {
            fresh: fresh_items(previous, current),
            snapshot: current.clone(),
        },
    };
    CycleReport { actor: cycle.actor.clone(), outcome }
}

/// A synchronisation cycle over the local actors, in the order given: one
/// report for each, made from that actor's observation alone. An actor whose
/// feed could not be acquired is reported as failed, and the cycle goes on
/// with the next.
pub fn fast_update(cycles: &Vec<ActorCycle>) -> (reports: Vec<CycleReport>)
    ensures
        reports.deep_view() == reports_of(cycles.deep_view()),
{
    let mut reports: Vec<CycleReport> = Vec::new();
    let mut i: usize = 0;
    while i < cycles.len()
        invariant
            i <= cycles.len(),
            reports.len() == i,
            forall|j: int| 0 <= j < i ==> reports[j]@ == report_of(cycles[j]@),
        decreases cycles.len() - i,
    {
        reports.push(fast_update_partial(&cycles[i]));
        i += 1;
    }
    assert(reports.deep_view() =~= reports_of(cycles.deep_view()));
    reports
}

} // verus!
