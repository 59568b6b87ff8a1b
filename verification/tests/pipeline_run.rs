use statement_harvest::pipeline::init;
use statement_harvest::pipeline::Action;
use statement_harvest::pipeline::Entity;
use statement_harvest::pipeline::Event;
use statement_harvest::pipeline::Harvester;
use statement_harvest::pipeline::ListingError;
use statement_harvest::pipeline::StatementRef;

fn entity(id: &str, name: &str) -> Entity {
    Entity { id: String::from(id), name: String::from(name) }
}

fn statement(id: &str, year: &str) -> StatementRef {
    StatementRef { statement_id: String::from(id), year: String::from(year) }
}

fn acme_markup() -> String {
    let income = "<td style=\"text-align: center;\">201</td><td></td><td style=\"text-align: right; padding-right: 8px\">5000000</td>";
    let profit = "<td style=\"text-align: left\">IX. Neto sveobuhvatni rezultat (248+259)</td><td style=\"text-align: center;\">260</td><td></td><td style=\"text-align: right; padding-right: 8px\">300000</td>";
    let employees = "<td style=\"text-align: left\">Prosjecan broj zaposlenih u godini</td><td style=\"text-align: center;\">001</td><td></td><td style=\"text-align: right; padding-right: 8px\">10</td>";
    let pay = "<td style=\"text-align: left\">a) Neto troskovi zarada, naknada zarada i licni rashodi</td><td style=\"text-align: center;\">212</td><td></td><td style=\"text-align: right; padding-right: 8px\">1200000</td>";
    format!("<table>{}{}{}{}</table>", income, profit, employees, pay)
}

#[test]
fn cache_path_scheme() {
    assert_eq!(
        statement_harvest::pipeline::cache_path("Acme", "X1", "2022"),
        "Acme/X1-2022.html"
    );
    // Distinct years of one entity get distinct artifacts.
    assert_ne!(
        statement_harvest::pipeline::cache_path("Acme", "X1", "2021"),
        statement_harvest::pipeline::cache_path("Acme", "X1", "2022")
    );
}

#[test]
fn end_to_end_scenario() {
    let (h, a) = init(vec![entity("X1", "Acme")]);
    match a {
        Action::OpenSink(header) => assert_eq!(
            header,
            "name,Year,totalIncome,profit,employeeCount,netPayCosts,averagePay"
        ),
        _ => panic!("expected the sink to open first"),
    }
    let (h, a) = h.step(Event::SinkOpened(true));
    match &a {
        Action::EnsureDir(dir) => assert_eq!(dir, "Acme"),
        _ => panic!("expected the entity directory"),
    }
    let (h, a) = h.step(Event::DirDone(true));
    match &a {
        Action::RequestListing(id) => assert_eq!(id, "X1"),
        _ => panic!("expected the listing request"),
    }
    let (h, a) = h.step(Event::ListingResult(Ok(vec![statement("S1", "2022")])));
    match &a {
        Action::ProbeCache(path) => assert_eq!(path, "Acme/X1-2022.html"),
        _ => panic!("expected the cache probe"),
    }
    let (h, a) = h.step(Event::CacheProbe(Some(acme_markup())));
    match &a {
        Action::AppendRow(row, misses) => {
            assert_eq!(row, "Acme,2022,5000000,300000,10,1200000,10000.0");
            assert!(misses.is_empty());
        },
        _ => panic!("expected the row append"),
    }
    let (h, a) = h.step(Event::AppendDone(true));
    assert!(matches!(a, Action::Finished));
    assert!(h.done());
}

#[test]
fn cache_hit_skips_fetch_and_throttle() {
    let (h, _) = init(vec![entity("X1", "Acme")]);
    let (h, _) = h.step(Event::SinkOpened(true));
    let (h, _) = h.step(Event::DirDone(true));
    let (h, _) = h.step(Event::ListingResult(Ok(vec![
        statement("S1", "2021"),
        statement("S2", "2022"),
    ])));
    // First statement: warm cache. No fetch, no write, and no sleep: the
    // machine moves straight to the second statement's probe.
    let (h, a) = h.step(Event::CacheProbe(Some(String::from("no fields here"))));
    match &a {
        Action::AppendRow(row, misses) => {
            assert_eq!(row, "Acme,2021,0,0,0,0,0.0");
            assert_eq!(misses.len(), 4);
            assert_eq!(misses[0], "totalIncome");
            assert_eq!(misses[1], "profit");
            assert_eq!(misses[2], "employeeCount");
            assert_eq!(misses[3], "netPayCosts");
        },
        _ => panic!("expected the row append"),
    }
    let (_, a) = h.step(Event::AppendDone(true));
    match &a {
        Action::ProbeCache(path) => assert_eq!(path, "Acme/X1-2022.html"),
        _ => panic!("expected the next statement's probe, not a fetch or sleep"),
    }
}

#[test]
fn cache_miss_fetches_persists_verbatim_and_throttles() {
    let (h, _) = init(vec![entity("X1", "Acme")]);
    let (h, _) = h.step(Event::SinkOpened(true));
    let (h, _) = h.step(Event::DirDone(true));
    let (h, _) = h.step(Event::ListingResult(Ok(vec![statement("S1", "2022")])));
    let (h, a) = h.step(Event::CacheProbe(None));
    match &a {
        Action::FetchStatement(id) => assert_eq!(id, "S1"),
        _ => panic!("expected the remote fetch on a cache miss"),
    }
    let body = String::from("<html>fetched body</html>");
    let (h, a) = h.step(Event::FetchResult(Some(body.clone())));
    match &a {
        Action::WriteCache(path, doc) => {
            assert_eq!(path, "Acme/X1-2022.html");
            assert_eq!(doc, &body);
        },
        _ => panic!("expected the cache write of the fetched body"),
    }
    // A failed cache write is non-fatal: the fetched content is still used.
    let (h, a) = h.step(Event::WriteDone(false));
    assert!(matches!(a, Action::AppendRow(_, _)));
    // A fetched statement owes the politeness delay.
    let (h, a) = h.step(Event::AppendDone(true));
    assert!(matches!(a, Action::Sleep));
    let (h, a) = h.step(Event::Slept);
    assert!(matches!(a, Action::Finished));
    assert!(h.done());
}

fn run_counting_listings(mut h: Harvester, mut a: Action) -> (usize, Vec<String>) {
    // Drive a whole run with a warm cache, counting listing requests.
    let mut listings: Vec<String> = Vec::new();
    let mut steps = 0usize;
    loop {
        steps += 1;
        assert!(steps < 100, "the run should terminate");
        let ev = match &a {
            Action::OpenSink(_) => Event::SinkOpened(true),
            Action::EnsureDir(_) => Event::DirDone(true),
            Action::RequestListing(id) => {
                listings.push(id.clone());
                Event::ListingResult(Ok(vec![
                    statement("S1", "2021"),
                    statement("S2", "2022"),
                ]))
            },
            Action::ProbeCache(_) => Event::CacheProbe(Some(String::from("cached"))),
            Action::FetchStatement(_) => panic!("no fetch may happen on a warm cache"),
            Action::WriteCache(_, _) => panic!("no write may happen on a warm cache"),
            Action::AppendRow(_, _) => Event::AppendDone(true),
            Action::Sleep => Event::Slept,
            Action::Finished => break,
        };
        let (h2, a2) = h.step(ev);
        h = h2;
        a = a2;
    }
    (steps, listings)
}

#[test]
fn one_listing_per_entity_per_run() {
    let (h, a) = init(vec![entity("X1", "Acme"), entity("X2", "Borg")]);
    let (_, listings) = run_counting_listings(h, a);
    // Two entities with two statements each: exactly one listing call per
    // entity, never one per statement.
    assert_eq!(listings, vec![String::from("X1"), String::from("X2")]);
}

#[test]
fn listing_failure_skips_only_that_entity() {
    let (h, _) = init(vec![entity("X1", "Acme"), entity("X2", "Borg")]);
    let (h, _) = h.step(Event::SinkOpened(true));
    let (h, _) = h.step(Event::DirDone(true));
    let (h, a) = h.step(Event::ListingResult(Err(ListingError::Transport)));
    match &a {
        Action::EnsureDir(dir) => assert_eq!(dir, "Borg"),
        _ => panic!("a listing failure must move on to the next entity"),
    }
    let (h, a) = h.step(Event::DirDone(true));
    match &a {
        Action::RequestListing(id) => assert_eq!(id, "X2"),
        _ => panic!("the next entity still gets its listing"),
    }
    let (h, a) = h.step(Event::ListingResult(Err(ListingError::Malformed)));
    assert!(matches!(a, Action::Finished));
    assert!(h.done());
}

#[test]
fn dir_failure_skips_entity_without_listing() {
    let (h, _) = init(vec![entity("X1", "Acme"), entity("X2", "Borg")]);
    let (h, _) = h.step(Event::SinkOpened(true));
    let (h, a) = h.step(Event::DirDone(false));
    match &a {
        Action::EnsureDir(dir) => assert_eq!(dir, "Borg"),
        _ => panic!("a directory failure must skip the entity"),
    }
    let (_, a) = h.step(Event::DirDone(true));
    assert!(matches!(a, Action::RequestListing(_)));
}

#[test]
fn fetch_failure_skips_only_that_statement() {
    let (h, _) = init(vec![entity("X1", "Acme")]);
    let (h, _) = h.step(Event::SinkOpened(true));
    let (h, _) = h.step(Event::DirDone(true));
    let (h, _) = h.step(Event::ListingResult(Ok(vec![
        statement("S1", "2021"),
        statement("S2", "2022"),
    ])));
    let (h, _) = h.step(Event::CacheProbe(None));
    let (h, a) = h.step(Event::FetchResult(None));
    match &a {
        Action::ProbeCache(path) => assert_eq!(path, "Acme/X1-2022.html"),
        _ => panic!("a fetch failure must move on to the next statement"),
    }
    let (h, _) = h.step(Event::CacheProbe(None));
    let (h, a) = h.step(Event::FetchResult(Some(String::from("body"))));
    assert!(matches!(a, Action::WriteCache(_, _)));
    let (h, _) = h.step(Event::WriteDone(true));
    let (h, a) = h.step(Event::AppendDone(true));
    assert!(matches!(a, Action::Sleep));
    let (h, a) = h.step(Event::Slept);
    assert!(matches!(a, Action::Finished));
    assert!(h.done());
}

#[test]
fn throttle_stands_between_consecutive_fetches() {
    let (h, _) = init(vec![entity("X1", "Acme")]);
    let (h, _) = h.step(Event::SinkOpened(true));
    let (h, _) = h.step(Event::DirDone(true));
    let (h, _) = h.step(Event::ListingResult(Ok(vec![
        statement("S1", "2021"),
        statement("S2", "2022"),
    ])));
    // Both statements miss the cache; the delay must separate the fetches.
    let (h, a) = h.step(Event::CacheProbe(None));
    assert!(matches!(a, Action::FetchStatement(_)));
    let (h, _) = h.step(Event::FetchResult(Some(String::from("one"))));
    let (h, _) = h.step(Event::WriteDone(true));
    let (h, a) = h.step(Event::AppendDone(true));
    assert!(matches!(a, Action::Sleep));
    let (h, a) = h.step(Event::Slept);
    assert!(matches!(a, Action::ProbeCache(_)));
    let (_, a) = h.step(Event::CacheProbe(None));
    assert!(matches!(a, Action::FetchStatement(_)));
}

#[test]
fn empty_listing_finishes_entity() {
    let (h, _) = init(vec![entity("X1", "Acme")]);
    let (h, _) = h.step(Event::SinkOpened(true));
    let (h, _) = h.step(Event::DirDone(true));
    let (h, a) = h.step(Event::ListingResult(Ok(vec![])));
    assert!(matches!(a, Action::Finished));
    assert!(h.done());
}

#[test]
fn empty_registry_only_opens_the_sink() {
    let (h, a) = init(vec![]);
    match a {
        Action::OpenSink(header) => assert_eq!(
            header,
            "name,Year,totalIncome,profit,employeeCount,netPayCosts,averagePay"
        ),
        _ => panic!("the header is written even when nothing is appended"),
    }
    let (h, a) = h.step(Event::SinkOpened(true));
    assert!(matches!(a, Action::Finished));
    assert!(h.done());
}

#[test]
fn sink_failure_aborts_the_run() {
    let (h, _) = init(vec![entity("X1", "Acme")]);
    let (h, a) = h.step(Event::SinkOpened(false));
    assert!(matches!(a, Action::Finished));
    assert!(h.done());
}

#[test]
fn warm_cache_run_is_idempotent() {
    // Two runs over the same listing and a warm cache: no fetch, no cache
    // write (the artifacts stay byte-identical), and the appended rows are
    // equal because extraction is a function of the cached bytes.
    let mut rows_by_run: Vec<Vec<String>> = Vec::new();
    for _ in 0..2 {
        let (mut h, mut a) = init(vec![entity("X1", "Acme"), entity("X2", "Borg")]);
        let mut rows: Vec<String> = Vec::new();
        let mut steps = 0usize;
        loop {
            steps += 1;
            assert!(steps < 100);
            let ev = match &a {
                Action::OpenSink(_) => Event::SinkOpened(true),
                Action::EnsureDir(_) => Event::DirDone(true),
                Action::RequestListing(_) => {
                    Event::ListingResult(Ok(vec![statement("S1", "2022")]))
                },
                Action::ProbeCache(_) => Event::CacheProbe(Some(acme_markup())),
                Action::FetchStatement(_) => panic!("no fetch on a warm cache"),
                Action::WriteCache(_, _) => panic!("no cache write on a warm cache"),
                Action::AppendRow(row, _) => {
                    rows.push(row.clone());
                    Event::AppendDone(true)
                },
                Action::Sleep => Event::Slept,
                Action::Finished => break,
            };
            let (h2, a2) = h.step(ev);
            h = h2;
            a = a2;
        }
        rows_by_run.push(rows);
    }
    assert_eq!(rows_by_run[0], rows_by_run[1]);
    assert_eq!(rows_by_run[0], vec![
        String::from("Acme,2022,5000000,300000,10,1200000,10000.0"),
        String::from("Borg,2022,5000000,300000,10,1200000,10000.0"),
    ]);
}
