//! The harvest orchestrator as a state machine.
//!
//! The machine owns every decision of the pipeline: when to list, probe,
//! fetch, persist, append, throttle, and what to skip on a failure. It does
//! no I/O itself: each transition consumes one `Event` (the outcome of the
//! previously requested work) and yields the next `Action` for the caller to
//! perform. The transition relation is the spec function `next`; the
//! executable `step` is proved to follow it exactly.
//!
//! Failure policy, per transition: a failed directory creation or listing
//! skips the whole entity; a failed statement fetch skips that statement
//! only; a failed cache write is non-fatal (the fetched content is still
//! used); a failed append abandons only that row. An event that does not
//! answer the pending request is treated as a failure of that request.

use vstd::prelude::*;
use crate::fields::miss_names;
use crate::fields::statement_row;
use crate::fields::extract_statement;
use crate::sink::build_row;
use crate::sink::header_chars;
use crate::sink::header_row;

verus! {

/// A registered tax entity: its unique identifier and display name.
pub struct Entity {
    pub id: String,
    pub name: String,
}

pub ghost struct EntityView {
    pub id: Seq<char>,
    pub name: Seq<char>,
}

impl View for Entity {
    type V = EntityView;

    open spec fn view(&self) -> EntityView {
        EntityView { id: self.id@, name: self.name@ }
    }
}

/// One available statement of an entity: its identifier and year.
pub struct StatementRef {
    pub statement_id: String,
    pub year: String,
}

pub ghost struct StatementRefView {
    pub statement_id: Seq<char>,
    pub year: Seq<char>,
}

impl View for StatementRef {
    type V = StatementRefView;

    open spec fn view(&self) -> StatementRefView {
        StatementRefView { statement_id: self.statement_id@, year: self.year@ }
    }
}

/// Why a listing failed: the transport failed, or the payload was not the
/// expected envelope.
pub enum ListingError {
    Transport,
    Malformed,
}

/// The outcome of the work the machine last requested.
pub enum Event {
    SinkOpened(bool),
    DirDone(bool),
    ListingResult(Result<Vec<StatementRef>, ListingError>),
    CacheProbe(Option<String>),
    FetchResult(Option<String>),
    WriteDone(bool),
    AppendDone(bool),
    Slept,
}

pub ghost enum EventView {
    SinkOpened(bool),
    DirDone(bool),
    ListingResult(Result<Seq<StatementRefView>, ListingError>),
    CacheProbe(Option<Seq<char>>),
    FetchResult(Option<Seq<char>>),
    WriteDone(bool),
    AppendDone(bool),
    Slept,
}

impl View for Event {
    type V = EventView;

    open spec fn view(&self) -> EventView {
        match *self {
            Event::SinkOpened(ok) => EventView::SinkOpened(ok),
            Event::DirDone(ok) => EventView::DirDone(ok),
            Event::ListingResult(ref r) => EventView::ListingResult(
                match *r {
                    Ok(ref refs) => Ok(refs@.map_values(|x: StatementRef| x@)),
                    Err(e) => Err(e),
                },
            ),
            Event::CacheProbe(ref d) => EventView::CacheProbe(
                match *d {
                    Some(ref doc) => Some(doc@),
                    None => None,
                },
            ),
            Event::FetchResult(ref d) => EventView::FetchResult(
                match *d {
                    Some(ref doc) => Some(doc@),
                    None => None,
                },
            ),
            Event::WriteDone(ok) => EventView::WriteDone(ok),
            Event::AppendDone(ok) => EventView::AppendDone(ok),
            Event::Slept => EventView::Slept,
        }
    }
}

/// The work the machine asks its caller to perform next.
pub enum Action {
    /// Open the durable output and write this header row, exactly once.
    OpenSink(String),
    /// Ensure the entity's working directory exists.
    EnsureDir(String),
    /// Issue the one listing request for this entity id.
    RequestListing(String),
    /// Report whether a cache artifact exists at this path, and its content.
    ProbeCache(String),
    /// Fetch the statement content for this statement id.
    FetchStatement(String),
    /// Persist this document verbatim at this path.
    WriteCache(String, String),
    /// Append this row; the second part names the fields whose patterns all
    /// missed, to be surfaced as diagnostics.
    AppendRow(String, Vec<String>),
    /// Politeness throttle after a remote statement fetch.
    Sleep,
    /// The run is over.
    Finished,
}

pub ghost enum ActionView {
    OpenSink(Seq<char>),
    EnsureDir(Seq<char>),
    RequestListing(Seq<char>),
    ProbeCache(Seq<char>),
    FetchStatement(Seq<char>),
    WriteCache(Seq<char>, Seq<char>),
    AppendRow(Seq<char>, Seq<Seq<char>>),
    Sleep,
    Finished,
}

impl View for Action {
    type V = ActionView;

    open spec fn view(&self) -> ActionView {
        match *self {
            Action::OpenSink(ref h) => ActionView::OpenSink(h@),
            Action::EnsureDir(ref d) => ActionView::EnsureDir(d@),
            Action::RequestListing(ref id) => ActionView::RequestListing(id@),
            Action::ProbeCache(ref p) => ActionView::ProbeCache(p@),
            Action::FetchStatement(ref id) => ActionView::FetchStatement(id@),
            Action::WriteCache(ref p, ref d) => ActionView::WriteCache(p@, d@),
            Action::AppendRow(ref r, ref m) => ActionView::AppendRow(
                r@,
                m@.map_values(|x: String| x@),
            ),
            Action::Sleep => ActionView::Sleep,
            Action::Finished => ActionView::Finished,
        }
    }
}

/// Where the machine stands inside one statement.
pub enum SubPhase {
    /// The cache probe for this statement is pending.
    Probe,
    /// The remote fetch for this statement is pending.
    AwaitFetch,
    /// The cache write of this fetched document is pending.
    AwaitWrite(String),
    /// The row append is pending; the flag records whether the document came
    /// from a remote fetch, which owes a throttle delay afterwards.
    AwaitAppend(bool),
    /// The politeness delay is pending.
    AwaitSleep,
}

pub ghost enum SubPhaseView {
    Probe,
    AwaitFetch,
    AwaitWrite(Seq<char>),
    AwaitAppend(bool),
    AwaitSleep,
}

impl View for SubPhase {
    type V = SubPhaseView;

    open spec fn view(&self) -> SubPhaseView {
        match *self {
            SubPhase::Probe => SubPhaseView::Probe,
            SubPhase::AwaitFetch => SubPhaseView::AwaitFetch,
            SubPhase::AwaitWrite(ref doc) => SubPhaseView::AwaitWrite(doc@),
            SubPhase::AwaitAppend(fetched) => SubPhaseView::AwaitAppend(fetched),
            SubPhase::AwaitSleep => SubPhaseView::AwaitSleep,
        }
    }
}

/// Where the machine stands for the current entity.
pub enum Phase {
    /// The sink open (with its one header) is pending.
    Opening,
    /// The entity directory creation is pending.
    EntityStart,
    /// The entity's one listing request is pending.
    AwaitListing,
    /// Working through the listed statements, at the given index.
    Statements(Vec<StatementRef>, usize, SubPhase),
    /// Every entity has been processed.
    Done,
}

pub ghost enum PhaseView {
    Opening,
    EntityStart,
    AwaitListing,
    Statements(Seq<StatementRefView>, int, SubPhaseView),
    Done,
}

impl View for Phase {
    type V = PhaseView;

    open spec fn view(&self) -> PhaseView {
        match *self {
            Phase::Opening => PhaseView::Opening,
            Phase::EntityStart => PhaseView::EntityStart,
            Phase::AwaitListing => PhaseView::AwaitListing,
            Phase::Statements(ref refs, j, ref sub) => PhaseView::Statements(
                refs@.map_values(|x: StatementRef| x@),
                j as int,
                sub@,
            ),
            Phase::Done => PhaseView::Done,
        }
    }
}

/// The orchestrator's whole state: the fixed entity registry, the index of
/// the entity in hand, and the phase within it.
pub struct Harvester {
    pub entities: Vec<Entity>,
    pub idx: usize,
    pub phase: Phase,
}

pub ghost struct HarvesterView {
    pub entities: Seq<EntityView>,
    pub idx: int,
    pub phase: PhaseView,
}

impl View for Harvester {
    type V = HarvesterView;

    open spec fn view(&self) -> HarvesterView {
        HarvesterView {
            entities: self.entities@.map_values(|e: Entity| e@),
            idx: self.idx as int,
            phase: self.phase@,
        }
    }
}

/// Well-formedness: the index stays within the registry, and a statement
/// index stays within its listing.
pub open spec fn wf(s: HarvesterView) -> bool {
    &&& 0 <= s.idx <= s.entities.len()
    &&& match s.phase {
        PhaseView::Opening => s.idx == 0,
        PhaseView::EntityStart => s.idx < s.entities.len(),
        PhaseView::AwaitListing => s.idx < s.entities.len(),
        PhaseView::Statements(refs, j, _) => s.idx < s.entities.len() && 0 <= j < refs.len(),
        PhaseView::Done => true,
    }
}

/// The cache artifact path for one statement: stable, and collision-free per
/// entity across years.
pub open spec fn cache_path_view(name: Seq<char>, id: Seq<char>, year: Seq<char>) -> Seq<char> {
    name + "/"@ + id + "-"@ + year + ".html"@
}

/// Build the cache artifact path.
pub fn cache_path(name: &str, id: &str, year: &str) -> (r: String)
    ensures
        r@ == cache_path_view(name@, id@, year@),
{
    let mut p = String::from_str(name);
    p.append("/");
    p.append(id);
    p.append("-");
    p.append(year);
    p.append(".html");
    p
}

/// The probe that opens statement `j` of the current entity.
pub open spec fn probe_action(entities: Seq<EntityView>, idx: int, refs: Seq<StatementRefView>, j: int) -> ActionView {
    ActionView::ProbeCache(cache_path_view(entities[idx].name, entities[idx].id, refs[j].year))
}

/// The append that finishes a statement whose document is in hand.
pub open spec fn append_action(e: EntityView, year: Seq<char>, doc: Seq<char>) -> ActionView {
    ActionView::AppendRow(statement_row(e.name, year, doc), miss_names(doc))
}

/// Move to the next entity, or finish the run.
pub open spec fn advance_entity(s: HarvesterView) -> (HarvesterView, ActionView) {
    if s.idx + 1 < s.entities.len() {
        (
            HarvesterView { idx: s.idx + 1, phase: PhaseView::EntityStart, ..s },
            ActionView::EnsureDir(s.entities[s.idx + 1].name),
        )
    } else {
        (
            HarvesterView { idx: s.entities.len() as int, phase: PhaseView::Done, ..s },
            ActionView::Finished,
        )
    }
}

/// Move to the next statement of the current entity, or on to the next
/// entity.
pub open spec fn advance_statement(s: HarvesterView, refs: Seq<StatementRefView>, j: int) -> (HarvesterView, ActionView) {
    if j + 1 < refs.len() {
        (
            HarvesterView { phase: PhaseView::Statements(refs, j + 1, SubPhaseView::Probe), ..s },
            probe_action(s.entities, s.idx, refs, j + 1),
        )
    } else {
        advance_entity(s)
    }
}

/// Enter the first entity once the sink is open.
pub open spec fn start_entities(s: HarvesterView) -> (HarvesterView, ActionView) {
    if s.entities.len() > 0 {
        (
            HarvesterView { idx: 0, phase: PhaseView::EntityStart, ..s },
            ActionView::EnsureDir(s.entities[0].name),
        )
    } else {
        (HarvesterView { idx: 0, phase: PhaseView::Done, ..s }, ActionView::Finished)
    }
}

/// The transition relation: from a state and the reported outcome of the
/// pending work, the new state and the next request. Total: an event that
/// does not answer the pending request counts as that request failing.
pub open spec fn next(s: HarvesterView, ev: EventView) -> (HarvesterView, ActionView) {
    match s.phase {
        PhaseView::Opening => match ev {
            EventView::SinkOpened(true) => start_entities(s),
            _ => (HarvesterView { phase: PhaseView::Done, ..s }, ActionView::Finished),
        },
        PhaseView::EntityStart => match ev {
            EventView::DirDone(true) => (
                HarvesterView { phase: PhaseView::AwaitListing, ..s },
                ActionView::RequestListing(s.entities[s.idx].id),
            ),
            _ => advance_entity(s),
        },
        PhaseView::AwaitListing => match ev {
            EventView::ListingResult(Ok(refs)) => if refs.len() > 0 {
                (
                    HarvesterView { phase: PhaseView::Statements(refs, 0, SubPhaseView::Probe), ..s },
                    probe_action(s.entities, s.idx, refs, 0),
                )
            } else {
                advance_entity(s)
            },
            _ => advance_entity(s),
        },
        PhaseView::Statements(refs, j, sub) => match sub {
            SubPhaseView::Probe => match ev {
                EventView::CacheProbe(Some(doc)) => (
                    HarvesterView {
                        phase: PhaseView::Statements(refs, j, SubPhaseView::AwaitAppend(false)),
                        ..s
                    },
                    append_action(s.entities[s.idx], refs[j].year, doc),
                ),
                EventView::CacheProbe(None) => (
                    HarvesterView {
                        phase: PhaseView::Statements(refs, j, SubPhaseView::AwaitFetch),
                        ..s
                    },
                    ActionView::FetchStatement(refs[j].statement_id),
                ),
                _ => advance_statement(s, refs, j),
            },
            SubPhaseView::AwaitFetch => match ev {
                EventView::FetchResult(Some(doc)) => (
                    HarvesterView {
                        phase: PhaseView::Statements(refs, j, SubPhaseView::AwaitWrite(doc)),
                        ..s
                    },
                    ActionView::WriteCache(
                        cache_path_view(s.entities[s.idx].name, s.entities[s.idx].id, refs[j].year),
                        doc,
                    ),
                ),
                _ => advance_statement(s, refs, j),
            },
            // A cache-write failure is non-fatal: the fetched content is
            // still extracted and appended.
            SubPhaseView::AwaitWrite(doc) => (
                HarvesterView {
                    phase: PhaseView::Statements(refs, j, SubPhaseView::AwaitAppend(true)),
                    ..s
                },
                append_action(s.entities[s.idx], refs[j].year, doc),
            ),
            SubPhaseView::AwaitAppend(fetched) => if fetched {
                (
                    HarvesterView {
                        phase: PhaseView::Statements(refs, j, SubPhaseView::AwaitSleep),
                        ..s
                    },
                    ActionView::Sleep,
                )
            } else {
                advance_statement(s, refs, j)
            },
            SubPhaseView::AwaitSleep => advance_statement(s, refs, j),
        },
        PhaseView::Done => (s, ActionView::Finished),
    }
}

/// A fresh machine over a registry, together with the run's first request:
/// opening the sink with its one header row.
pub fn init(entities: Vec<Entity>) -> (r: (Harvester, Action))
    ensures
        r.0@ == (HarvesterView {
            entities: entities@.map_values(|e: Entity| e@),
            idx: 0,
            phase: PhaseView::Opening,
        }),
        r.1@ == ActionView::OpenSink(header_chars()),
        wf(r.0@),
{
    let h = Harvester { entities, idx: 0, phase: Phase::Opening };
    let a = Action::OpenSink(header_row());
    (h, a)
}

impl Harvester {
    /// Whether the run is over.
    pub fn done(&self) -> (r: bool)
        ensures
            r == (self@.phase is Done),
    {
        match self.phase {
            Phase::Done => true,
            _ => false,
        }
    }

    /// Whether the state is well-formed; `init` establishes this and `step`
    /// preserves it, so an unverified caller can test it before stepping.
    pub fn well_formed(&self) -> (r: bool)
        ensures
            r == wf(self@),
    {
        let n = self.entities.len();
        match &self.phase {
            Phase::Opening => self.idx == 0,
            Phase::EntityStart => self.idx < n,
            Phase::AwaitListing => self.idx < n,
            Phase::Statements(refs, j, _) => self.idx < n && *j < refs.len(),
            Phase::Done => self.idx <= n,
        }
    }

    /// Consume the outcome of the pending request and produce the next one.
    /// Follows the transition relation `next` exactly.
    pub fn step(self, ev: Event) -> (r: (Harvester, Action))
        requires
            wf(self@),
        ensures
            r.0@ == next(self@, ev@).0,
            r.1@ == next(self@, ev@).1,
            wf(r.0@),
            r.0@.entities == self@.entities,
    {
        let Harvester { entities, idx, phase } = self;
        match phase {
            Phase::Opening => match ev {
                Event::SinkOpened(true) => start_entities_exec(entities),
                _ => (Harvester { entities, idx, phase: Phase::Done }, Action::Finished),
            },
            Phase::EntityStart => match ev {
                Event::DirDone(true) => {
                    let id = entities[idx].id.clone();
                    (
                        Harvester { entities, idx, phase: Phase::AwaitListing },
                        Action::RequestListing(id),
                    )
                },
                _ => advance_entity_exec(entities, idx),
            },
            Phase::AwaitListing => match ev {
                Event::ListingResult(Ok(refs)) => {
                    if refs.len() > 0 {
                        let path = cache_path(
                            entities[idx].name.as_str(),
                            entities[idx].id.as_str(),
                            refs[0].year.as_str(),
                        );
                        proof {
                            assert(refs@.map_values(|x: StatementRef| x@)[0] == refs@[0]@);
                        }
                        (
                            Harvester { entities, idx, phase: Phase::Statements(refs, 0, SubPhase::Probe) },
                            Action::ProbeCache(path),
                        )
                    } else {
                        advance_entity_exec(entities, idx)
                    }
                },
                _ => advance_entity_exec(entities, idx),
            },
            Phase::Statements(refs, j, sub) => match sub {
                SubPhase::Probe => match ev {
                    Event::CacheProbe(Some(doc)) => {
                        proof {
                            assert(refs@.map_values(|x: StatementRef| x@)[j as int] == refs@[j as int]@);
                        }
                        let row = statement_record(&entities[idx].name, &refs[j].year, &doc);
                        (
                            Harvester {
                                entities,
                                idx,
                                phase: Phase::Statements(refs, j, SubPhase::AwaitAppend(false)),
                            },
                            row,
                        )
                    },
                    Event::CacheProbe(None) => {
                        proof {
                            assert(refs@.map_values(|x: StatementRef| x@)[j as int] == refs@[j as int]@);
                        }
                        let id = refs[j].statement_id.clone();
                        (
                            Harvester {
                                entities,
                                idx,
                                phase: Phase::Statements(refs, j, SubPhase::AwaitFetch),
                            },
                            Action::FetchStatement(id),
                        )
                    },
                    _ => advance_statement_exec(entities, idx, refs, j),
                },
                SubPhase::AwaitFetch => match ev {
                    Event::FetchResult(Some(doc)) => {
                        proof {
                            assert(refs@.map_values(|x: StatementRef| x@)[j as int] == refs@[j as int]@);
                        }
                        let path = cache_path(
                            entities[idx].name.as_str(),
                            entities[idx].id.as_str(),
                            refs[j].year.as_str(),
                        );
                        let kept = doc.clone();
                        (
                            Harvester {
                                entities,
                                idx,
                                phase: Phase::Statements(refs, j, SubPhase::AwaitWrite(kept)),
                            },
                            Action::WriteCache(path, doc),
                        )
                    },
                    _ => advance_statement_exec(entities, idx, refs, j),
                },
                SubPhase::AwaitWrite(doc) => {
                    proof {
                        assert(refs@.map_values(|x: StatementRef| x@)[j as int] == refs@[j as int]@);
                    }
                    let row = statement_record(&entities[idx].name, &refs[j].year, &doc);
                    (
                        Harvester {
                            entities,
                            idx,
                            phase: Phase::Statements(refs, j, SubPhase::AwaitAppend(true)),
                        },
                        row,
                    )
                },
                SubPhase::AwaitAppend(fetched) => {
                    if fetched {
                        (
                            Harvester {
                                entities,
                                idx,
                                phase: Phase::Statements(refs, j, SubPhase::AwaitSleep),
                            },
                            Action::Sleep,
                        )
                    } else {
                        advance_statement_exec(entities, idx, refs, j)
                    }
                },
                SubPhase::AwaitSleep => advance_statement_exec(entities, idx, refs, j),
            },
            Phase::Done => (Harvester { entities, idx, phase: Phase::Done }, Action::Finished),
        }
    }
}

/// The append request for one statement document.
fn statement_record(name: &String, year: &String, doc: &String) -> (r: Action)
    ensures
        r@ == (ActionView::AppendRow(statement_row(name@, year@, doc@), miss_names(doc@))),
{
    let f = extract_statement(doc.as_str());
    let row = build_row(
        name.as_str(),
        year.as_str(),
        f.total_income.value,
        f.profit.value,
        f.employee_count.value,
        f.net_pay_costs.value,
    );
    let mut misses: Vec<String> = Vec::new();
    if !f.total_income.matched {
        misses.push(String::from_str("totalIncome"));
    }
    if !f.profit.matched {
        misses.push(String::from_str("profit"));
    }
    if !f.employee_count.matched {
        misses.push(String::from_str("employeeCount"));
    }
    if !f.net_pay_costs.matched {
        misses.push(String::from_str("netPayCosts"));
    }
    proof {
        assert(misses@.map_values(|x: String| x@) =~= miss_names(doc@));
    }
    Action::AppendRow(row, misses)
}

fn start_entities_exec(entities: Vec<Entity>) -> (r: (Harvester, Action))
    ensures
        r.0@ == start_entities(HarvesterView {
            entities: entities@.map_values(|e: Entity| e@),
            idx: 0,
            phase: PhaseView::Opening,
        }).0,
        r.1@ == start_entities(HarvesterView {
            entities: entities@.map_values(|e: Entity| e@),
            idx: 0,
            phase: PhaseView::Opening,
        }).1,
{
    if entities.len() > 0 {
        let dir = entities[0].name.clone();
        proof {
            assert(entities@.map_values(|e: Entity| e@)[0] == entities@[0]@);
        }
        (
            Harvester { entities, idx: 0, phase: Phase::EntityStart },
            Action::EnsureDir(dir),
        )
    } else {
        (Harvester { entities, idx: 0, phase: Phase::Done }, Action::Finished)
    }
}

fn advance_entity_exec(entities: Vec<Entity>, idx: usize) -> (r: (Harvester, Action))
    requires
        idx < entities@.len(),
    ensures
        r.0@ == advance_entity(HarvesterView {
            entities: entities@.map_values(|e: Entity| e@),
            idx: idx as int,
            phase: PhaseView::EntityStart,
        }).0,
        r.1@ == advance_entity(HarvesterView {
            entities: entities@.map_values(|e: Entity| e@),
            idx: idx as int,
            phase: PhaseView::EntityStart,
        }).1,
{
    let n = entities.len();
    if idx + 1 < n {
        let dir = entities[idx + 1].name.clone();
        proof {
            assert(entities@.map_values(|e: Entity| e@)[idx as int + 1] == entities@[idx as int + 1]@);
        }
        (
            Harvester { entities, idx: idx + 1, phase: Phase::EntityStart },
            Action::EnsureDir(dir),
        )
    } else {
        let n = entities.len();
        (Harvester { entities, idx: n, phase: Phase::Done }, Action::Finished)
    }
}

fn advance_statement_exec(entities: Vec<Entity>, idx: usize, refs: Vec<StatementRef>, j: usize) -> (r: (Harvester, Action))
    requires
        idx < entities@.len(),
        j < refs@.len(),
    ensures
        r.0@ == advance_statement(
            HarvesterView {
                entities: entities@.map_values(|e: Entity| e@),
                idx: idx as int,
                phase: PhaseView::Statements(
                    refs@.map_values(|x: StatementRef| x@),
                    j as int,
                    SubPhaseView::Probe,
                ),
            },
            refs@.map_values(|x: StatementRef| x@),
            j as int,
        ).0,
        r.1@ == advance_statement(
            HarvesterView {
                entities: entities@.map_values(|e: Entity| e@),
                idx: idx as int,
                phase: PhaseView::Statements(
                    refs@.map_values(|x: StatementRef| x@),
                    j as int,
                    SubPhaseView::Probe,
                ),
            },
            refs@.map_values(|x: StatementRef| x@),
            j as int,
        ).1,
{
    let m = refs.len();
    if j + 1 < m {
        let path = cache_path(
            entities[idx].name.as_str(),
            entities[idx].id.as_str(),
            refs[j + 1].year.as_str(),
        );
        proof {
            assert(refs@.map_values(|x: StatementRef| x@)[j as int + 1] == refs@[j as int + 1]@);
            assert(entities@.map_values(|e: Entity| e@)[idx as int] == entities@[idx as int]@);
        }
        (
            Harvester {
                entities,
                idx,
                phase: Phase::Statements(refs, j + 1, SubPhase::Probe),
            },
            Action::ProbeCache(path),
        )
    } else {
        advance_entity_exec(entities, idx)
    }
}

} // verus!
