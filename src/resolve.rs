//! The resolution pipeline as a state machine: cache-aside lookup, then a
//! direct fetch with a rendered fallback, then a cache write.
//!
//! The machine decides; its driver performs each action (a cache read, a
//! fetch, a cache write) and hands back what came of it as the next event.

use vstd::prelude::*;
use crate::error::{CacheError, FetchError};
use crate::extract::{extract_metadata, extracted};
use crate::model::{MetaData, MetaDataResponse, MetaDataView, PreviewView};

verus! {

/// How long a stored record stays in the cache, in seconds.
pub const CACHE_TTL_SECS: u64 = 600;

/// Where a resolution stands.
#[derive(Clone, Copy, Debug, PartialEq, Eq, Structural)]
pub enum Phase {
    /// Waiting for the cache lookup.
    Lookup,
    /// Waiting for the direct fetch.
    Direct,
    /// Waiting for the rendered fetch.
    Rendered,
    /// Waiting for the cache write.
    Store,
    /// The reply has been given.
    Finished,
}

/// What the driver is asked to do next.
#[derive(Debug)]
pub enum Action {
    /// Look the key up in the cache.
    CacheGet(String),
    /// Fetch the URL's HTML directly.
    FetchDirect(String),
    /// Fetch the URL's HTML through the headless browser.
    FetchRendered(String),
    /// Store the record under its link, for this many seconds.
    CacheSet(MetaData, u64),
    /// Answer the request.
    Reply(Result<MetaDataResponse, FetchError>),
}

/// What came of the last action.
#[derive(Debug)]
pub enum Event {
    /// The cache lookup: a stored projection, a miss, or a backend failure.
    CacheLookup(Result<Option<MetaDataResponse>, CacheError>),
    /// A fetch: the page's HTML, or why it could not be had.
    Fetched(Result<String, FetchError>),
    /// The cache write.
    Stored(Result<(), CacheError>),
}

/// An action, with its strings and records as text.
pub ghost enum ActionView {
    CacheGet(Seq<char>),
    FetchDirect(Seq<char>),
    FetchRendered(Seq<char>),
    CacheSet(MetaDataView, int),
    Reply(Result<PreviewView, FetchError>),
}

/// An event, with its strings and previews as text.
pub ghost enum EventView {
    CacheLookup(Result<Option<PreviewView>, CacheError>),
    Fetched(Result<Seq<char>, FetchError>),
    Stored(Result<(), CacheError>),
}

impl View for Action {
    type V = ActionView;

    open spec fn view(&self) -> ActionView {
        match self {
            Action::CacheGet(k) => ActionView::CacheGet(k@),
            Action::FetchDirect(u) => ActionView::FetchDirect(u@),
            Action::FetchRendered(u) => ActionView::FetchRendered(u@),
            Action::CacheSet(m, ttl) => ActionView::CacheSet(m@, *ttl as int),
            Action::Reply(Ok(p)) => ActionView::Reply(Ok(p@)),
            Action::Reply(Err(e)) => ActionView::Reply(Err(*e)),
        }
    }
}

impl View for Event {
    type V = EventView;

    open spec fn view(&self) -> EventView {
        match self {
            Event::CacheLookup(Ok(Some(p))) => EventView::CacheLookup(Ok(Some(p@))),
            Event::CacheLookup(Ok(None)) => EventView::CacheLookup(Ok(None)),
            Event::CacheLookup(Err(e)) => EventView::CacheLookup(Err(*e)),
            Event::Fetched(Ok(h)) => EventView::Fetched(Ok(h@)),
            Event::Fetched(Err(e)) => EventView::Fetched(Err(*e)),
            Event::Stored(r) => EventView::Stored(*r),
        }
    }
}

/// One request's way through the pipeline.
pub struct Resolution {
    url: String,
    rendered_only: bool,
    cached: bool,
    phase: Phase,
    record: Option<MetaData>,
}

/// Where a request stands: its URL, its configuration, its phase and the
/// record it is storing, if any.
pub ghost struct ResolutionView {
    pub url: Seq<char>,
    pub rendered_only: bool,
    pub cached: bool,
    pub phase: Phase,
    pub record: Option<MetaDataView>,
}

impl View for Resolution {
    type V = ResolutionView;

    closed spec fn view(&self) -> ResolutionView {
        ResolutionView {
            url: self.url@,
            rendered_only: self.rendered_only,
            cached: self.cached,
            phase: self.phase,
            record: match self.record {
                Some(m) => Some(m@),
                None => None,
            },
        }
    }
}

impl ResolutionView {
    /// Whether the machine waits for this kind of event.
    pub open spec fn accepts(self, e: EventView) -> bool {
        match e {
            EventView::CacheLookup(_) => self.phase == Phase::Lookup,
            EventView::Fetched(_) => self.phase == Phase::Direct || self.phase == Phase::Rendered,
            EventView::Stored(_) => self.phase == Phase::Store,
        }
    }

    pub open spec fn with_phase(self, phase: Phase) -> ResolutionView {
        ResolutionView { phase, ..self }
    }

    /// Starts resolving: the rendered fetch when it is mandated, else the direct one.
    pub open spec fn begin(self) -> (ResolutionView, ActionView) {
        if self.rendered_only {
            (self.with_phase(Phase::Rendered), ActionView::FetchRendered(self.url))
        } else {
            (self.with_phase(Phase::Direct), ActionView::FetchDirect(self.url))
        }
    }

    /// A resolution found `p`: store its record when there is a cache, else reply.
    pub open spec fn found(self, p: PreviewView) -> (ResolutionView, ActionView) {
        if self.cached {
            (
                ResolutionView { phase: Phase::Store, record: Some(p.linked(self.url)), ..self },
                ActionView::CacheSet(p.linked(self.url), CACHE_TTL_SECS as int),
            )
        } else {
            (self.with_phase(Phase::Finished), ActionView::Reply(Ok(p)))
        }
    }

    /// The state and the action that follow an event.
    pub open spec fn step(self, e: EventView) -> (ResolutionView, ActionView) {
        match e {
            EventView::CacheLookup(Ok(Some(p))) => (
                self.with_phase(Phase::Finished),
                ActionView::Reply(Ok(p)),
            ),
            EventView::CacheLookup(_) => self.begin(),
            EventView::Fetched(Ok(html)) => {
                let p = extracted(html);
                if self.phase == Phase::Direct && !p.is_sufficient() {
                    (self.with_phase(Phase::Rendered), ActionView::FetchRendered(self.url))
                } else {
                    self.found(p)
                }
            },
            EventView::Fetched(Err(err)) => {
                if self.phase == Phase::Direct {
                    (self.with_phase(Phase::Rendered), ActionView::FetchRendered(self.url))
                } else {
                    (self.with_phase(Phase::Finished), ActionView::Reply(Err(err)))
                }
            },
            EventView::Stored(_) => (
                self.with_phase(Phase::Finished),
                ActionView::Reply(Ok(self.record.unwrap().projection())),
            ),
        }
    }
}

/// The state and the first action of a request for `url`.
pub open spec fn start_spec(url: Seq<char>, rendered_only: bool, cached: bool) -> (
    ResolutionView,
    ActionView,
) {
    let s = ResolutionView { url, rendered_only, cached, phase: Phase::Lookup, record: None };
    if cached {
        (s, ActionView::CacheGet(url))
    } else {
        s.begin()
    }
}

/// Copies a record; the copy equals `m`.
pub fn copy_record(m: &MetaData) -> (r: MetaData)
    ensures
        r == *m,
{
    MetaData {
        title: crate::model::copy_text(&m.title),
        description: crate::model::copy_text(&m.description),
        keywords: crate::model::copy_text(&m.keywords),
        image: crate::model::copy_text(&m.image),
        link: m.link.clone(),
    }
}

impl Resolution {
    /// The machine holds the record that it is storing.
    pub closed spec fn wf(&self) -> bool {
        self.phase == Phase::Store ==> self.record.is_some()
    }

    /// Begins a request for `url`: a cache lookup when a cache is configured,
    /// else the first fetch.
    pub fn start(url: String, rendered_only: bool, cached: bool) -> (r: (Resolution, Action))
        ensures
            r.0.wf(),
            (r.0@, r.1@) == start_spec(url@, rendered_only, cached),
    {
        let s = Resolution { url, rendered_only, cached, phase: Phase::Lookup, record: None };
        if cached {
            let key = s.url.clone();
            (s, Action::CacheGet(key))
        } else {
            let mut s = s;
            let a = s.begin();
            (s, a)
        }
    }

    fn begin(&mut self) -> (a: Action)
        requires
            old(self).wf(),
        ensures
            final(self).wf(),
            (final(self)@, a@) == old(self)@.begin(),
    {
        let url = self.url.clone();
        if self.rendered_only {
            self.phase = Phase::Rendered;
            Action::FetchRendered(url)
        } else {
            self.phase = Phase::Direct;
            Action::FetchDirect(url)
        }
    }

    fn found(&mut self, p: MetaDataResponse) -> (a: Action)
        requires
            old(self).wf(),
        ensures
            final(self).wf(),
            (final(self)@, a@) == old(self)@.found(p@),
    {
        if self.cached {
            let record = p.with_link(self.url.clone());
            let copy = copy_record(&record);
            self.phase = Phase::Store;
            self.record = Some(record);
            Action::CacheSet(copy, CACHE_TTL_SECS)
        } else {
            self.phase = Phase::Finished;
            Action::Reply(Ok(p))
        }
    }

    /// Where the resolution stands.
    pub fn phase(&self) -> (r: Phase)
        ensures
            r == self@.phase,
    {
        self.phase
    }

    /// Whether the machine waits for this kind of event.
    pub fn accepts(&self, e: &Event) -> (r: bool)
        ensures
            r == self@.accepts(e@),
    {
        match e {
            Event::CacheLookup(_) => self.phase == Phase::Lookup,
            Event::Fetched(_) => self.phase == Phase::Direct || self.phase == Phase::Rendered,
            Event::Stored(_) => self.phase == Phase::Store,
        }
    }

    /// Takes what came of the last action and says what to do next.
    pub fn step(&mut self, e: Event) -> (a: Action)
        requires
            old(self).wf(),
            old(self)@.accepts(e@),
        ensures
            final(self).wf(),
            (final(self)@, a@) == old(self)@.step(e@),
    {
        match e {
            Event::CacheLookup(Ok(Some(p))) => {
                self.phase = Phase::Finished;
                Action::Reply(Ok(p))
            },
            Event::CacheLookup(_) => self.begin(),
            Event::Fetched(Ok(html)) => {
                let p = extract_metadata(&html);
                if self.phase == Phase::Direct && !p.is_sufficient() {
                    self.phase = Phase::Rendered;
                    Action::FetchRendered(self.url.clone())
                } else {
                    self.found(p)
                }
            },
            Event::Fetched(Err(err)) => {
                if self.phase == Phase::Direct {
                    self.phase = Phase::Rendered;
                    Action::FetchRendered(self.url.clone())
                } else {
                    self.phase = Phase::Finished;
                    Action::Reply(Err(err))
                }
            },
            Event::Stored(_) => {
                let reply = match &self.record {
                    Some(m) => m.to_response(),
                    None => MetaDataResponse::default(),
                };
                self.phase = Phase::Finished;
                Action::Reply(Ok(reply))
            },
        }
    }
}

} // verus!
