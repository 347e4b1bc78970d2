use std::collections::HashMap;

use link_preview::error::{CacheError, FetchError};
use link_preview::model::{MetaData, MetaDataResponse};
use link_preview::resolve::{Action, Event, Phase, Resolution, CACHE_TTL_SECS};

const FULL: &str = r#"<head><meta property="og:title" content="Full"><meta name="description" content="Desc"></head>"#;
const TITLE_ONLY: &str = "<head><title>Direct</title></head>";
const RENDERED: &str = r#"<head><meta property="og:title" content="Rendered"><meta property="og:description" content="R"></head>"#;

/// A cache backend with expiry, driven by a clock in seconds.
struct Backend {
    entries: HashMap<String, (MetaDataResponse, u64)>,
    now: u64,
    down: bool,
    writes: usize,
}

impl Backend {
    fn new() -> Self {
        Backend { entries: HashMap::new(), now: 0, down: false, writes: 0 }
    }
}

struct World {
    direct: Result<String, FetchError>,
    rendered: Result<String, FetchError>,
    direct_calls: usize,
    rendered_calls: usize,
}

impl World {
    fn new(direct: Result<&str, FetchError>, rendered: Result<&str, FetchError>) -> Self {
        World {
            direct: direct.map(String::from),
            rendered: rendered.map(String::from),
            direct_calls: 0,
            rendered_calls: 0,
        }
    }
}

fn run(
    url: &str,
    rendered_only: bool,
    cache: Option<&mut Backend>,
    world: &mut World,
) -> Result<MetaDataResponse, FetchError> {
    let cached = cache.is_some();
    let mut backend = cache;
    let (mut machine, mut action) = Resolution::start(url.to_string(), rendered_only, cached);
    loop {
        let event = match action {
            Action::CacheGet(key) => {
                let b = backend.as_mut().unwrap();
                if b.down {
                    Event::CacheLookup(Err(CacheError::Backend("down".to_string())))
                } else {
                    let hit = match b.entries.get(&key) {
                        Some((p, expires)) if b.now < *expires => Some(p.clone()),
                        _ => None,
                    };
                    Event::CacheLookup(Ok(hit))
                }
            }
            Action::FetchDirect(_) => {
                world.direct_calls += 1;
                Event::Fetched(world.direct.clone())
            }
            Action::FetchRendered(_) => {
                world.rendered_calls += 1;
                Event::Fetched(world.rendered.clone())
            }
            Action::CacheSet(record, ttl) => {
                let b = backend.as_mut().unwrap();
                if b.down {
                    Event::Stored(Err(CacheError::Backend("down".to_string())))
                } else {
                    b.writes += 1;
                    let key = record.link.clone();
                    b.entries.insert(key, (record.to_response(), b.now + ttl));
                    Event::Stored(Ok(()))
                }
            }
            Action::Reply(result) => {
                assert_eq!(machine.phase(), Phase::Finished);
                return result;
            }
        };
        assert!(machine.accepts(&event));
        action = machine.step(event);
    }
}

#[test]
fn cache_round_trip_skips_fetches() {
    let mut backend = Backend::new();
    let mut world = World::new(Ok(FULL), Ok(RENDERED));
    let first = run("https://a.test", false, Some(&mut backend), &mut world).unwrap();
    assert_eq!(first.title.as_deref(), Some("Full"));
    assert!(backend.entries.contains_key("https://a.test"));
    assert_eq!(world.direct_calls, 1);
    backend.now = CACHE_TTL_SECS - 1;
    let second = run("https://a.test", false, Some(&mut backend), &mut world).unwrap();
    assert_eq!(second.title, first.title);
    assert_eq!(second.description, first.description);
    assert_eq!(world.direct_calls, 1);
    assert_eq!(world.rendered_calls, 0);
}

#[test]
fn expired_entry_is_resolved_again() {
    let mut backend = Backend::new();
    let mut world = World::new(Ok(FULL), Ok(RENDERED));
    run("https://a.test", false, Some(&mut backend), &mut world).unwrap();
    backend.now = CACHE_TTL_SECS;
    run("https://a.test", false, Some(&mut backend), &mut world).unwrap();
    assert_eq!(world.direct_calls, 2);
    assert_eq!(backend.writes, 2);
}

#[test]
fn ttl_is_ten_minutes() {
    let (mut m, a) = Resolution::start("u".to_string(), false, true);
    assert!(matches!(a, Action::CacheGet(ref k) if k == "u"));
    let a = m.step(Event::CacheLookup(Ok(None)));
    assert!(matches!(a, Action::FetchDirect(_)));
    let a = m.step(Event::Fetched(Ok(FULL.to_string())));
    match a {
        Action::CacheSet(record, ttl) => {
            assert_eq!(ttl, 600);
            assert_eq!(record.link, "u");
            assert_eq!(record.title.as_deref(), Some("Full"));
        }
        other => panic!("unexpected {:?}", other),
    }
}

#[test]
fn incomplete_direct_falls_back_once() {
    let mut world = World::new(Ok(TITLE_ONLY), Ok(RENDERED));
    let r = run("https://b.test", false, None, &mut world).unwrap();
    assert_eq!(world.direct_calls, 1);
    assert_eq!(world.rendered_calls, 1);
    assert_eq!(r.title.as_deref(), Some("Rendered"));
    assert_eq!(r.description.as_deref(), Some("R"));
}

#[test]
fn sufficient_direct_never_renders() {
    let mut world = World::new(Ok(FULL), Ok(RENDERED));
    let r = run("https://c.test", false, None, &mut world).unwrap();
    assert_eq!(world.rendered_calls, 0);
    assert_eq!(r.title.as_deref(), Some("Full"));
    assert_eq!(r.description.as_deref(), Some("Desc"));
}

#[test]
fn direct_network_error_falls_back() {
    let mut world = World::new(Err(FetchError::Network("refused".to_string())), Ok(RENDERED));
    let r = run("https://d.test", false, None, &mut world).unwrap();
    assert_eq!(world.rendered_calls, 1);
    assert_eq!(r.title.as_deref(), Some("Rendered"));
}

#[test]
fn render_error_is_final() {
    let mut world = World::new(
        Err(FetchError::Network("refused".to_string())),
        Err(FetchError::Render("timeout".to_string())),
    );
    let r = run("https://e.test", false, None, &mut world);
    assert_eq!(r.unwrap_err(), FetchError::Render("timeout".to_string()));
    assert_eq!(world.direct_calls, 1);
    assert_eq!(world.rendered_calls, 1);
}

#[test]
fn errors_are_not_cached() {
    let mut backend = Backend::new();
    let mut world = World::new(
        Err(FetchError::Network("x".to_string())),
        Err(FetchError::Render("y".to_string())),
    );
    assert!(run("https://e.test", false, Some(&mut backend), &mut world).is_err());
    assert!(backend.entries.is_empty());
}

#[test]
fn rendered_only_skips_direct() {
    let mut world = World::new(Ok(FULL), Ok(RENDERED));
    let r = run("https://f.test", true, None, &mut world).unwrap();
    assert_eq!(world.direct_calls, 0);
    assert_eq!(world.rendered_calls, 1);
    assert_eq!(r.title.as_deref(), Some("Rendered"));
}

#[test]
fn rendered_result_accepted_even_if_incomplete() {
    let mut world = World::new(Ok(TITLE_ONLY), Ok("<title>Still thin</title>"));
    let r = run("https://g.test", false, None, &mut world).unwrap();
    assert_eq!(r.title.as_deref(), Some("Still thin"));
    assert_eq!(r.description, None);
    assert_eq!(world.rendered_calls, 1);
}

#[test]
fn cache_down_still_resolves() {
    let mut backend = Backend::new();
    backend.down = true;
    let mut world = World::new(Ok(FULL), Ok(RENDERED));
    let r = run("https://h.test", false, Some(&mut backend), &mut world).unwrap();
    assert_eq!(r.title.as_deref(), Some("Full"));
    assert_eq!(world.direct_calls, 1);
}

#[test]
fn no_cache_always_resolves_fresh() {
    let mut world = World::new(Ok(FULL), Ok(RENDERED));
    run("https://i.test", false, None, &mut world).unwrap();
    run("https://i.test", false, None, &mut world).unwrap();
    assert_eq!(world.direct_calls, 2);
}

#[test]
fn cache_hit_replies_stored_projection() {
    let (mut m, _) = Resolution::start("k".to_string(), false, true);
    let stored = MetaData {
        title: Some("S".to_string()),
        description: None,
        keywords: None,
        image: None,
        link: "k".to_string(),
    };
    let a = m.step(Event::CacheLookup(Ok(Some(stored.to_response()))));
    match a {
        Action::Reply(Ok(p)) => assert_eq!(p.title.as_deref(), Some("S")),
        other => panic!("unexpected {:?}", other),
    }
    assert_eq!(m.phase(), Phase::Finished);
    assert!(!m.accepts(&Event::Fetched(Ok(String::new()))));
}
