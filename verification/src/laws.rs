//! Laws of the pipeline, stated over the transition relation and over whole
//! runs. A run is the fold of `next` over a sequence of reported events; the
//! laws hold for every event sequence, however the outside world behaves.

use vstd::prelude::*;
use crate::fields::miss_names;
use crate::fields::statement_row;
use crate::extract::RuleView;
use crate::extract::field_value;
use crate::extract::first_capture;
use crate::extract::rule_capture;
use crate::text::captured_or_zero;
use crate::pipeline::ActionView;
use crate::pipeline::EventView;
use crate::pipeline::HarvesterView;
use crate::pipeline::PhaseView;
use crate::pipeline::SubPhaseView;
use crate::pipeline::cache_path_view;
use crate::pipeline::next;
use crate::pipeline::wf;

verus! {

/// The state a run reaches after consuming `evs`.
pub open spec fn run_state(s: HarvesterView, evs: Seq<EventView>) -> HarvesterView
    decreases evs.len(),
{
    if evs.len() == 0 {
        s
    } else {
        run_state(next(s, evs[0]).0, evs.drop_first())
    }
}

/// The requests a run issues while consuming `evs`, in order.
pub open spec fn run_actions(s: HarvesterView, evs: Seq<EventView>) -> Seq<ActionView>
    decreases evs.len(),
{
    if evs.len() == 0 {
        Seq::<ActionView>::empty()
    } else {
        seq![next(s, evs[0]).1] + run_actions(next(s, evs[0]).0, evs.drop_first())
    }
}

/// Transitions preserve well-formedness and never touch the registry.
pub proof fn lemma_next_wf(s: HarvesterView, ev: EventView)
    requires
        wf(s),
    ensures
        wf(next(s, ev).0),
        next(s, ev).0.entities == s.entities,
{
}

/// The header is written exactly once: opening the sink is the run's fixed
/// first request, and no transition ever asks for it again, even when no
/// statement is ever appended.
pub proof fn lemma_header_written_once(s: HarvesterView, ev: EventView)
    ensures
        !(next(s, ev).1 is OpenSink),
{
}

/// A listing request arises only at an entity's start, in answer to its one
/// successful directory creation, and the machine leaves that phase at once:
/// listing is issued per entity, never per statement.
pub proof fn lemma_listing_only_at_entity_start(s: HarvesterView, ev: EventView)
    ensures
        next(s, ev).1 is RequestListing ==> {
            &&& s.phase is EntityStart
            &&& ev == EventView::DirDone(true)
            &&& next(s, ev).1 == ActionView::RequestListing(s.entities[s.idx].id)
            &&& next(s, ev).0.phase is AwaitListing
            &&& next(s, ev).0.idx == s.idx
        },
{
}

/// A remote statement-content fetch is requested only in answer to a cache
/// miss reported for the statement in hand: a statement whose artifact
/// exists is never fetched.
pub proof fn lemma_fetch_only_on_miss(s: HarvesterView, ev: EventView)
    ensures
        next(s, ev).1 is FetchStatement ==> {
            &&& ev == EventView::CacheProbe(None::<Seq<char>>)
            &&& (s.phase matches PhaseView::Statements(_, _, SubPhaseView::Probe))
        },
{
}

/// What the machine persists is byte-identical to what was fetched: a cache
/// write is requested only right after a successful fetch, and carries that
/// fetch's body verbatim.
pub proof fn lemma_cache_write_verbatim(s: HarvesterView, ev: EventView)
    ensures
        forall|p: Seq<char>, d: Seq<char>|
            next(s, ev).1 == ActionView::WriteCache(p, d) ==> ev == EventView::FetchResult(
                Some(d),
            ),
{
}

/// Entity `k` has not yet had its listing phase opened.
pub open spec fn before_listing(s: HarvesterView, k: int) -> bool {
    s.idx < k || (s.idx == k && (s.phase is Opening || s.phase is EntityStart))
}

/// Once an entity's start lies behind, the run never returns to it.
pub proof fn lemma_before_listing_monotone(s: HarvesterView, ev: EventView, k: int)
    requires
        wf(s),
        !before_listing(s, k),
    ensures
        !before_listing(next(s, ev).0, k),
{
}

/// The registry holds no two entities with one identifier.
pub open spec fn distinct_ids(entities: Seq<crate::pipeline::EntityView>) -> bool {
    forall|a: int, b: int|
        0 <= a < b < entities.len() ==> entities[a].id != entities[b].id
}

/// How many of the issued requests are listing calls for the given id.
pub open spec fn listing_count(acts: Seq<ActionView>, id: Seq<char>) -> int
    decreases acts.len(),
{
    if acts.len() == 0 {
        0
    } else {
        (if acts[0] == ActionView::RequestListing(id) {
            1int
        } else {
            0int
        }) + listing_count(acts.drop_first(), id)
    }
}

pub proof fn lemma_listing_count_nonneg(acts: Seq<ActionView>, id: Seq<char>)
    ensures
        listing_count(acts, id) >= 0,
    decreases acts.len(),
{
    if acts.len() > 0 {
        lemma_listing_count_nonneg(acts.drop_first(), id);
    }
}

/// At most one listing call per entity, in every run, whatever the outside
/// world reports: never one per statement, and never a repeat.
pub proof fn lemma_at_most_one_listing(s: HarvesterView, evs: Seq<EventView>, k: int)
    requires
        wf(s),
        0 <= k < s.entities.len(),
        distinct_ids(s.entities),
    ensures
        listing_count(run_actions(s, evs), s.entities[k].id) <= (if before_listing(s, k) {
            1int
        } else {
            0int
        }),
    decreases evs.len(),
{
    if evs.len() > 0 {
        let a = next(s, evs[0]).1;
        let s2 = next(s, evs[0]).0;
        lemma_next_wf(s, evs[0]);
        lemma_at_most_one_listing(s2, evs.drop_first(), k);
        lemma_listing_count_nonneg(run_actions(s2, evs.drop_first()), s.entities[k].id);
        assert((seq![a] + run_actions(s2, evs.drop_first())).drop_first() =~= run_actions(
            s2,
            evs.drop_first(),
        ));
        if a == ActionView::RequestListing(s.entities[k].id) {
            lemma_listing_only_at_entity_start(s, evs[0]);
            if s.idx != k {
                assert(s.entities[s.idx].id != s.entities[k].id);
                assert(false);
            }
            assert(!before_listing(s2, k));
        } else {
            if !before_listing(s, k) {
                lemma_before_listing_monotone(s, evs[0], k);
            }
        }
    }
}

/// A run in which the sink opened and every directory creation succeeded.
pub open spec fn orderly_run(s: HarvesterView, evs: Seq<EventView>) -> bool
    decreases evs.len(),
{
    evs.len() == 0 || {
        &&& (s.phase is Opening ==> evs[0] == EventView::SinkOpened(true))
        &&& (s.phase is EntityStart ==> evs[0] == EventView::DirDone(true))
        &&& orderly_run(next(s, evs[0]).0, evs.drop_first())
    }
}

/// Exactly one listing call per entity: in a run whose sink opened and whose
/// directory creations succeeded, every entity the run has moved past was
/// listed exactly once.
pub proof fn lemma_exactly_one_listing(s: HarvesterView, evs: Seq<EventView>, k: int)
    requires
        wf(s),
        0 <= k < s.entities.len(),
        distinct_ids(s.entities),
        orderly_run(s, evs),
        before_listing(s, k),
        !before_listing(run_state(s, evs), k),
    ensures
        listing_count(run_actions(s, evs), s.entities[k].id) == 1,
    decreases evs.len(),
{
    if evs.len() > 0 {
        let a = next(s, evs[0]).1;
        let s2 = next(s, evs[0]).0;
        lemma_next_wf(s, evs[0]);
        assert((seq![a] + run_actions(s2, evs.drop_first())).drop_first() =~= run_actions(
            s2,
            evs.drop_first(),
        ));
        if s.phase is EntityStart && s.idx == k {
            assert(a == ActionView::RequestListing(s.entities[k].id));
            assert(!before_listing(s2, k));
            lemma_at_most_one_listing(s2, evs.drop_first(), k);
            lemma_listing_count_nonneg(run_actions(s2, evs.drop_first()), s.entities[k].id);
        } else {
            assert(before_listing(s2, k));
            if a is RequestListing {
                lemma_listing_only_at_entity_start(s, evs[0]);
                if s.idx != k {
                    assert(s.entities[s.idx].id != s.entities[k].id);
                }
            }
            lemma_exactly_one_listing(s2, evs.drop_first(), k);
        }
    } else {
        assert(false);
    }
}

/// Every probe in the run reported a cache hit.
pub open spec fn probes_all_hit(evs: Seq<EventView>) -> bool {
    forall|i: int|
        0 <= i < evs.len() ==> evs[i] != EventView::CacheProbe(None::<Seq<char>>)
}

/// The machine stands between a fetch request and its cache write.
pub open spec fn mid_fetch(s: HarvesterView) -> bool {
    match s.phase {
        PhaseView::Statements(_, _, sub) => sub is AwaitFetch || sub is AwaitWrite,
        _ => false,
    }
}

/// Warm cache: in a run whose every probe hits, no remote statement-content
/// call and no cache write is ever requested, so a second run over an
/// unchanged listing leaves every cached artifact byte-identical; and since
/// the appended row is a function of the cached bytes alone, it extracts
/// equivalent values.
pub proof fn lemma_warm_cache_no_fetch(s: HarvesterView, evs: Seq<EventView>)
    requires
        wf(s),
        probes_all_hit(evs),
        !mid_fetch(s),
    ensures
        forall|i: int|
            0 <= i < run_actions(s, evs).len() ==> !(#[trigger] run_actions(s, evs)[i]
                is FetchStatement) && !(run_actions(s, evs)[i] is WriteCache),
    decreases evs.len(),
{
    if evs.len() > 0 {
        let a = next(s, evs[0]).1;
        let s2 = next(s, evs[0]).0;
        lemma_next_wf(s, evs[0]);
        assert(evs[0] != EventView::CacheProbe(None::<Seq<char>>));
        assert(!(a is FetchStatement) && !(a is WriteCache) && !mid_fetch(s2));
        assert(forall|i: int|
            0 <= i < evs.drop_first().len() ==> evs.drop_first()[i] != EventView::CacheProbe(
                None::<Seq<char>>,
            ));
        lemma_warm_cache_no_fetch(s2, evs.drop_first());
        assert(run_actions(s, evs) =~= seq![a] + run_actions(s2, evs.drop_first()));
        assert(forall|i: int|
            1 <= i < run_actions(s, evs).len() ==> run_actions(s, evs)[i] == run_actions(
                s2,
                evs.drop_first(),
            )[i - 1]);
    }
}

/// A run issues one request per consumed event.
pub proof fn lemma_run_actions_len(s: HarvesterView, evs: Seq<EventView>)
    ensures
        run_actions(s, evs).len() == evs.len(),
    decreases evs.len(),
{
    if evs.len() > 0 {
        lemma_run_actions_len(next(s, evs[0]).0, evs.drop_first());
    }
}

/// Every remote statement-content request in a run answers a cache miss
/// reported at that very step: a statement whose artifact exists, and whose
/// probe therefore reports a hit, is never fetched.
pub proof fn lemma_every_fetch_answers_a_miss(s: HarvesterView, evs: Seq<EventView>, k: int)
    requires
        0 <= k < evs.len(),
    ensures
        run_actions(s, evs)[k] is FetchStatement ==> evs[k] == EventView::CacheProbe(
            None::<Seq<char>>,
        ),
    decreases evs.len(),
{
    let a = next(s, evs[0]).1;
    let s2 = next(s, evs[0]).0;
    assert((seq![a] + run_actions(s2, evs.drop_first()))[0] == a);
    if k == 0 {
        lemma_fetch_only_on_miss(s, evs[0]);
    } else {
        lemma_run_actions_len(s2, evs.drop_first());
        assert(run_actions(s, evs)[k] == run_actions(s2, evs.drop_first())[k - 1]);
        lemma_every_fetch_answers_a_miss(s2, evs.drop_first(), k - 1);
        assert(evs.drop_first()[k - 1] == evs[k]);
    }
}

/// The machine owes the politeness delay: a fetched document is in hand and
/// no throttle has been requested for it yet.
pub open spec fn owes_sleep(s: HarvesterView) -> bool {
    match s.phase {
        PhaseView::Statements(_, _, sub) => sub is AwaitWrite || sub == SubPhaseView::AwaitAppend(
            true,
        ),
        _ => false,
    }
}

/// While the delay is owed, no further fetch is requested before a Sleep.
proof fn lemma_owed_sleep_blocks_fetches(s: HarvesterView, evs: Seq<EventView>)
    requires
        owes_sleep(s),
    ensures
        forall|k: int|
            0 <= k < run_actions(s, evs).len() && #[trigger] run_actions(s, evs)[k]
                is FetchStatement ==> exists|m: int|
                0 <= m < k && #[trigger] run_actions(s, evs)[m] is Sleep,
    decreases evs.len(),
{
    if evs.len() > 0 {
        let a = next(s, evs[0]).1;
        let s2 = next(s, evs[0]).0;
        let acts = run_actions(s, evs);
        let rest = run_actions(s2, evs.drop_first());
        assert(acts =~= seq![a] + rest);
        if a is Sleep {
            assert forall|k: int| 0 <= k < acts.len() && #[trigger] acts[k] is FetchStatement
            implies exists|m: int| 0 <= m < k && #[trigger] acts[m] is Sleep by {
                assert(acts[0] is Sleep);
            }
        } else {
            assert(owes_sleep(s2) && !(a is FetchStatement));
            lemma_owed_sleep_blocks_fetches(s2, evs.drop_first());
            assert forall|k: int| 0 <= k < acts.len() && #[trigger] acts[k] is FetchStatement
            implies exists|m: int| 0 <= m < k && #[trigger] acts[m] is Sleep by {
                assert(acts[k] == rest[k - 1]);
                let m0 = choose|m0: int| 0 <= m0 < k - 1 && #[trigger] rest[m0] is Sleep;
                assert(acts[m0 + 1] is Sleep);
            }
        }
    }
}

/// The throttle law: between persisting one fetched statement and requesting
/// the next remote statement fetch, the run always requests the politeness
/// delay. Cache hits pass through no such delay, since they request no
/// fetch.
pub proof fn lemma_throttle_between_fetches(
    s: HarvesterView,
    evs: Seq<EventView>,
    i: int,
    k: int,
)
    requires
        0 <= i < k < evs.len(),
        run_actions(s, evs)[i] is WriteCache,
        run_actions(s, evs)[k] is FetchStatement,
    ensures
        exists|m: int| i < m < k && #[trigger] run_actions(s, evs)[m] is Sleep,
    decreases evs.len(),
{
    let a = next(s, evs[0]).1;
    let s2 = next(s, evs[0]).0;
    let acts = run_actions(s, evs);
    let rest = run_actions(s2, evs.drop_first());
    assert(acts =~= seq![a] + rest);
    lemma_run_actions_len(s, evs);
    lemma_run_actions_len(s2, evs.drop_first());
    if i == 0 {
        assert(a is WriteCache);
        assert(owes_sleep(s2));
        lemma_owed_sleep_blocks_fetches(s2, evs.drop_first());
        assert(rest[k - 1] is FetchStatement);
        let m0 = choose|m0: int| 0 <= m0 < k - 1 && #[trigger] rest[m0] is Sleep;
        assert(acts[m0 + 1] is Sleep);
        assert(0 < m0 + 1 < k);
    } else {
        assert(acts[i] == rest[i - 1]);
        assert(acts[k] == rest[k - 1]);
        lemma_throttle_between_fetches(s2, evs.drop_first(), i - 1, k - 1);
        let m0 = choose|m0: int|
            i - 1 < m0 < k - 1 && #[trigger] run_actions(s2, evs.drop_first())[m0] is Sleep;
        assert(acts[m0 + 1] is Sleep);
    }
}

/// The cache naming scheme is collision-free per entity: within one entity,
/// two statement years share a path only if they are the same year.
pub proof fn lemma_cache_path_collision_free(
    name: Seq<char>,
    id: Seq<char>,
    y1: Seq<char>,
    y2: Seq<char>,
)
    requires
        cache_path_view(name, id, y1) == cache_path_view(name, id, y2),
    ensures
        y1 == y2,
{
    let base = name + "/"@ + id + "-"@;
    let p1 = cache_path_view(name, id, y1);
    let p2 = cache_path_view(name, id, y2);
    assert(p1.len() == base.len() + y1.len() + ".html"@.len());
    assert(p2.len() == base.len() + y2.len() + ".html"@.len());
    assert(y1.len() == y2.len());
    assert(forall|i: int|
        0 <= i < y1.len() ==> #[trigger] y1[i] == p1[base.len() + i]);
    assert(forall|i: int|
        0 <= i < y2.len() ==> #[trigger] y2[i] == p2[base.len() + i]);
    assert(y1 =~= y2);
}

/// A cache hit appends exactly the row extracted from the cached document,
/// with the misses of that document as its diagnostics.
pub proof fn lemma_hit_appends_cached_doc(s: HarvesterView, ev: EventView)
    requires
        wf(s),
    ensures
        forall|refs: Seq<crate::pipeline::StatementRefView>, j: int, doc: Seq<char>|
            s.phase == PhaseView::Statements(refs, j, SubPhaseView::Probe) && ev
                == EventView::CacheProbe(Some(doc)) ==> next(s, ev).1 == ActionView::AppendRow(
                crate::fields::statement_row(s.entities[s.idx].name, refs[j].year, doc),
                miss_names(doc),
            ),
{
}

/// A fetched statement appends exactly the row extracted from the fetched
/// body, whether or not persisting it to the cache succeeded.
pub proof fn lemma_fetch_appends_fetched_doc(s: HarvesterView, ev: EventView)
    requires
        wf(s),
    ensures
        forall|refs: Seq<crate::pipeline::StatementRefView>, j: int, doc: Seq<char>|
            s.phase == PhaseView::Statements(refs, j, SubPhaseView::AwaitWrite(doc)) ==> next(
                s,
                ev,
            ).1 == ActionView::AppendRow(
                crate::fields::statement_row(s.entities[s.idx].name, refs[j].year, doc),
                miss_names(doc),
            ),
{
}

/// Extraction is a pure function of the cached bytes: equal documents yield
/// equal rows and equal diagnostics, in one run or across runs.
pub proof fn lemma_extraction_deterministic(
    name: Seq<char>,
    year: Seq<char>,
    d1: Seq<char>,
    d2: Seq<char>,
)
    requires
        d1 == d2,
    ensures
        statement_row(name, year, d1) == statement_row(name, year, d2),
        miss_names(d1) == miss_names(d2),
{
}

/// Fallback resolution: when every rule before the last misses and the last
/// rule captures, the field takes the last rule's capture — not the zero
/// default.
pub proof fn lemma_fallback_takes_later_rule(doc: Seq<char>, rules: Seq<RuleView>, m: int)
    requires
        0 <= m < rules.len(),
        forall|i: int| 0 <= i < m ==> rule_capture(doc, #[trigger] rules[i]) is None,
        rule_capture(doc, rules[m]) is Some,
    ensures
        first_capture(doc, rules) == rule_capture(doc, rules[m]),
        field_value(doc, rules) == captured_or_zero(rule_capture(doc, rules[m])),
    decreases m,
{
    if m == 0 {
    } else {
        assert(rules.drop_first()[m - 1] == rules[m]);
        assert(forall|i: int|
            0 <= i < m - 1 ==> rule_capture(doc, #[trigger] rules.drop_first()[i]) is None);
        lemma_fallback_takes_later_rule(doc, rules.drop_first(), m - 1);
    }
}

/// Extraction default: when no rule of a field matches, the field resolves
/// to exactly zero, and the miss is visible to callers.
pub proof fn lemma_no_match_resolves_to_zero(doc: Seq<char>, rules: Seq<RuleView>)
    requires
        forall|i: int| 0 <= i < rules.len() ==> rule_capture(doc, #[trigger] rules[i]) is None,
    ensures
        first_capture(doc, rules) is None,
        field_value(doc, rules) == 0,
    decreases rules.len(),
{
    if rules.len() > 0 {
        assert(forall|i: int|
            0 <= i < rules.drop_first().len() ==> rule_capture(
                doc,
                #[trigger] rules.drop_first()[i],
            ) is None);
        lemma_no_match_resolves_to_zero(doc, rules.drop_first());
    }
}

} // verus!
