//! Laws of extraction and of the resolution pipeline, proved over the spec
//! functions that the executable code is held to.

use vstd::prelude::*;
use crate::error::CacheError;
use crate::extract::{
    extracted, is_first_match, meta_tags_of, og_title_key, tag_matches, title_texts_of,
};
use crate::model::{ConversionError, MetaData, MetaDataResponse, MetaDataView};
use crate::resolve::{ActionView, EventView, Phase, ResolutionView, start_spec, CACHE_TTL_SECS};

verus! {

/// An open-graph title tag decides the title: when the first tag whose
/// `property` or `name` is `og:title` has a `content`, that content is the
/// title, whatever `<title>` elements the document holds.
pub proof fn og_title_wins(html: Seq<char>, i: int)
    requires
        is_first_match(meta_tags_of(html), og_title_key(), i),
        meta_tags_of(html)[i].content.is_some(),
    ensures
        extracted(html).title == meta_tags_of(html)[i].content,
{
    let tags = meta_tags_of(html);
    assert forall|k: int| is_first_match(tags, og_title_key(), k) implies k == i by {
        if k < i {
            assert(!tag_matches(tags[k], og_title_key()));
        } else if k > i {
            assert(tag_matches(tags[i], og_title_key()));
        }
    }
}

/// Without an open-graph title tag, the title is the inner HTML of the first
/// `<title>` element.
pub proof fn title_element_fallback(html: Seq<char>)
    requires
        forall|i: int|
            0 <= i < meta_tags_of(html).len() ==> !tag_matches(
                #[trigger] meta_tags_of(html)[i],
                og_title_key(),
            ),
        title_texts_of(html).len() > 0,
    ensures
        extracted(html).title == Some(title_texts_of(html)[0]),
{
    assert(forall|k: int| !is_first_match(meta_tags_of(html), og_title_key(), k));
}

/// Without an open-graph title tag and without a `<title>` element, the title
/// is absent; extraction itself has no precondition and cannot fail.
pub proof fn title_absent(html: Seq<char>)
    requires
        forall|i: int|
            0 <= i < meta_tags_of(html).len() ==> !tag_matches(
                #[trigger] meta_tags_of(html)[i],
                og_title_key(),
            ),
        title_texts_of(html).len() == 0,
    ensures
        extracted(html).title.is_none(),
{
    assert(forall|k: int| !is_first_match(meta_tags_of(html), og_title_key(), k));
}

/// Extracting twice from the same HTML gives the same preview.
pub proof fn extraction_idempotent(html: Seq<char>, first: MetaDataResponse, second: MetaDataResponse)
    requires
        first@ == extracted(html),
        second@ == extracted(html),
    ensures
        first@ == second@,
{
}

/// Cache-aside round trip: a record is stored only under the requested URL,
/// with the fixed time-to-live, and the request then replies its projection.
/// A later request for the same URL that finds that projection in the cache
/// (as it does within the time-to-live) replies the same projection at once
/// and finishes, without any fetch.
pub proof fn cache_round_trip(
    s: ResolutionView,
    e: EventView,
    record: MetaDataView,
    ttl: int,
    written: Result<(), CacheError>,
)
    requires
        s.accepts(e),
        s.step(e).1 == ActionView::CacheSet(record, ttl),
    ensures
        record.link == s.url,
        ttl == CACHE_TTL_SECS,
        s.step(e).0.accepts(EventView::Stored(written)),
        s.step(e).0.step(EventView::Stored(written)).1 == ActionView::Reply(
            Ok(record.projection()),
        ),
        start_spec(s.url, s.rendered_only, true).1 == ActionView::CacheGet(s.url),
        ({
            let later = start_spec(s.url, s.rendered_only, true).0;
            let hit = later.step(EventView::CacheLookup(Ok(Some(record.projection()))));
            &&& hit.1 == ActionView::Reply(Ok(record.projection()))
            &&& hit.0.phase == Phase::Finished
            &&& forall|e2: EventView| !hit.0.accepts(e2)
        }),
{
}

/// Once the stored entry has expired the backend reports a miss, and the
/// request resolves again: its next action is a fetch of the URL.
pub proof fn expired_entry_resolves_again(url: Seq<char>, rendered_only: bool)
    ensures
        ({
            let s = start_spec(url, rendered_only, true).0;
            let next = s.step(EventView::CacheLookup(Ok(None))).1;
            if rendered_only {
                next == ActionView::FetchRendered(url)
            } else {
                next == ActionView::FetchDirect(url)
            }
        }),
{
}

/// A direct fetch whose preview has a title but no description falls back to
/// the rendered fetch, once: what the request then replies is the rendered
/// page's preview, and no further fetch is asked for.
pub proof fn incomplete_direct_falls_back(
    s: ResolutionView,
    html: Seq<char>,
    rendered: Seq<char>,
    written: Result<(), CacheError>,
)
    requires
        s.phase == Phase::Direct,
        extracted(html).title.is_some(),
        extracted(html).description.is_none(),
    ensures
        ({
            let first = s.step(EventView::Fetched(Ok(html)));
            let second = first.0.step(EventView::Fetched(Ok(rendered)));
            &&& first.1 == ActionView::FetchRendered(s.url)
            &&& first.0.phase == Phase::Rendered
            &&& second == first.0.found(extracted(rendered))
            &&& second.0.phase == Phase::Store || second.0.phase == Phase::Finished
            &&& second.0.phase == Phase::Store ==> second.0.step(EventView::Stored(written)).1
                == ActionView::Reply(Ok(extracted(rendered)))
            &&& second.0.phase == Phase::Finished ==> second.1 == ActionView::Reply(
                Ok(extracted(rendered)),
            )
        }),
{
}

/// A direct fetch whose preview has both a title and a description is
/// accepted as it is: the rendered fetch is never asked for.
pub proof fn sufficient_direct_short_circuits(
    s: ResolutionView,
    html: Seq<char>,
    written: Result<(), CacheError>,
)
    requires
        s.phase == Phase::Direct,
        extracted(html).is_sufficient(),
    ensures
        ({
            let first = s.step(EventView::Fetched(Ok(html)));
            &&& first == s.found(extracted(html))
            &&& first.1 != ActionView::FetchRendered(s.url)
            &&& first.0.phase == Phase::Finished ==> first.1 == ActionView::Reply(
                Ok(extracted(html)),
            )
            &&& first.0.phase == Phase::Store ==> first.0.step(EventView::Stored(written)).1
                == ActionView::Reply(Ok(extracted(html)))
        }),
{
}

/// The cache is never a point of failure: a failed lookup is a miss, a failed
/// write still replies the resolved projection, and without a cache every
/// request resolves fresh.
pub proof fn cache_failures_degrade(
    url: Seq<char>,
    rendered_only: bool,
    lookup_error: CacheError,
    s: ResolutionView,
    write_error: CacheError,
)
    requires
        s.phase == Phase::Store,
        s.record.is_some(),
    ensures
        ({
            let looking = start_spec(url, rendered_only, true).0;
            looking.step(EventView::CacheLookup(Err(lookup_error))) == looking.step(
                EventView::CacheLookup(Ok(None)),
            )
        }),
        s.step(EventView::Stored(Err(write_error))).1 == ActionView::Reply(
            Ok(s.record.unwrap().projection()),
        ),
        s.step(EventView::Stored(Err(write_error))) == s.step(EventView::Stored(Ok(()))),
        start_spec(url, rendered_only, false).1 == if rendered_only {
            ActionView::FetchRendered(url)
        } else {
            ActionView::FetchDirect(url)
        },
{
}

/// A response projection cannot become a canonical record without a link
/// supplied from outside: the conversion always fails the same way.
pub proof fn projection_needs_link(r: MetaDataResponse)
    ensures
        <MetaData as vstd::std_specs::convert::TryFromSpec<MetaDataResponse>>::try_from_spec(r)
            == Err::<MetaData, ConversionError>(ConversionError::MissingLink),
{
}

} // verus!
