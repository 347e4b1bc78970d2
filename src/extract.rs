//! The metadata extractor: from page HTML to the four content fields.
//!
//! Parsing is left to `scraper`; what the document yields is read here as two
//! plain lists, its `<meta>` elements and the inner HTML of its `<title>`
//! elements, and the choice among them is made by verified code.

use vstd::prelude::*;
use crate::model::{MetaDataResponse, PreviewView, text_of};

verus! {

/// The attributes of one `<meta>` element that extraction looks at.
#[derive(Clone, Debug)]
pub struct MetaTag {
    pub property: Option<String>,
    pub name: Option<String>,
    pub content: Option<String>,
}

/// A `<meta>` element's attributes, as text.
pub ghost struct MetaTagView {
    pub property: Option<Seq<char>>,
    pub name: Option<Seq<char>>,
    pub content: Option<Seq<char>>,
}

impl View for MetaTag {
    type V = MetaTagView;

    open spec fn view(&self) -> MetaTagView {
        MetaTagView {
            property: text_of(self.property),
            name: text_of(self.name),
            content: text_of(self.content),
        }
    }
}

/// The `<meta>` elements of an HTML document, in the order `scraper` selects them.
pub uninterp spec fn meta_tags_of(html: Seq<char>) -> Seq<MetaTagView>;

/// The inner HTML of each `<title>` element of an HTML document, in the order
/// `scraper` selects them.
pub uninterp spec fn title_texts_of(html: Seq<char>) -> Seq<Seq<char>>;

pub open spec fn tags_view(tags: Seq<MetaTag>) -> Seq<MetaTagView> {
    tags.map_values(|t: MetaTag| t@)
}

pub open spec fn texts_view(texts: Seq<String>) -> Seq<Seq<char>> {
    texts.map_values(|s: String| s@)
}

/// Relies on `scraper::Html::parse_document` and `Html::select` with the
/// selector `meta`: the meta elements of the parsed document, each with its
/// `property`, `name` and `content` attributes.
#[verifier::external_body]
fn parse_meta_tags(html: &str) -> (r: Vec<MetaTag>)
    ensures
        tags_view(r@) == meta_tags_of(html@),
{
    let document = scraper::Html::parse_document(html);
    let selector = scraper::Selector::parse("meta").unwrap();
    document.select(&selector).map(|e| MetaTag {
        property: e.value().attr("property").map(String::from),
        name: e.value().attr("name").map(String::from),
        content: e.value().attr("content").map(String::from),
    }).collect()
}

/// Relies on `scraper::Html::parse_document`, `Html::select` with the selector
/// `title` and `ElementRef::inner_html`: the inner HTML of each title element.
#[verifier::external_body]
fn parse_title_texts(html: &str) -> (r: Vec<String>)
    ensures
        texts_view(r@) == title_texts_of(html@),
{
    let document = scraper::Html::parse_document(html);
    let selector = scraper::Selector::parse("title").unwrap();
    document.select(&selector).map(|e| e.inner_html()).collect()
}

/// A tag matches a key when its `property` or its `name` attribute equals it.
pub open spec fn tag_matches(t: MetaTagView, key: Seq<char>) -> bool {
    t.property == Some(key) || t.name == Some(key)
}

/// `i` is the position of the first tag that matches `key`.
pub open spec fn is_first_match(tags: Seq<MetaTagView>, key: Seq<char>, i: int) -> bool {
    &&& 0 <= i < tags.len()
    &&& tag_matches(tags[i], key)
    &&& forall|j: int| 0 <= j < i ==> !tag_matches(#[trigger] tags[j], key)
}

/// The `content` of the first tag that matches `key`; absent when no tag
/// matches or when that first tag has no `content`.
pub open spec fn meta_content(tags: Seq<MetaTagView>, key: Seq<char>) -> Option<Seq<char>> {
    if exists|i: int| is_first_match(tags, key, i) {
        tags[choose|i: int| is_first_match(tags, key, i)].content
    } else {
        None
    }
}

pub open spec fn og_title_key() -> Seq<char> {
    "og:title"@
}

pub open spec fn og_description_key() -> Seq<char> {
    "og:description"@
}

pub open spec fn description_key() -> Seq<char> {
    "description"@
}

pub open spec fn keywords_key() -> Seq<char> {
    "keywords"@
}

pub open spec fn og_image_key() -> Seq<char> {
    "og:image"@
}

/// The preview read from a document's meta tags and title texts: the
/// open-graph title, else the first title element; the open-graph description,
/// else the plain description; the keywords; the open-graph image.
pub open spec fn preview_of(tags: Seq<MetaTagView>, titles: Seq<Seq<char>>) -> PreviewView {
    PreviewView {
        title: match meta_content(tags, og_title_key()) {
            Some(t) => Some(t),
            None => if titles.len() > 0 {
                Some(titles[0])
            } else {
                None
            },
        },
        description: match meta_content(tags, og_description_key()) {
            Some(d) => Some(d),
            None => meta_content(tags, description_key()),
        },
        keywords: meta_content(tags, keywords_key()),
        image: meta_content(tags, og_image_key()),
    }
}

/// The preview extracted from an HTML document.
pub open spec fn extracted(html: Seq<char>) -> PreviewView {
    preview_of(meta_tags_of(html), title_texts_of(html))
}

/// Whether an optional string holds exactly `key`.
fn holds_text(o: &Option<String>, key: &str) -> (r: bool)
    ensures
        r == (text_of(*o) == Some(key@)),
{
    match o {
        Some(s) => {
            let k = key.to_owned();
            *s == k
        },
        None => false,
    }
}

/// The `content` of the first tag whose `property` or `name` is `key`.
pub fn find_meta_content(tags: &Vec<MetaTag>, key: &str) -> (r: Option<String>)
    ensures
        text_of(r) == meta_content(tags_view(tags@), key@),
{
    let ghost tv = tags_view(tags@);
    let mut i: usize = 0;
    while i < tags.len()
        invariant
            0 <= i <= tags.len(),
            tv == tags_view(tags@),
            forall|j: int| 0 <= j < i ==> !tag_matches(#[trigger] tv[j], key@),
        decreases tags.len() - i,
    {
        let t = &tags[i];
        if holds_text(&t.property, key) || holds_text(&t.name, key) {
            assert(is_first_match(tv, key@, i as int));
            assert forall|k: int| is_first_match(tv, key@, k) implies k == i by {
                if k < i {
                    assert(!tag_matches(tv[k], key@));
                } else if k > i {
                    assert(tag_matches(tv[i as int], key@));
                }
            }
            return crate::model::copy_text(&t.content);
        }
        i = i + 1;
    }
    assert forall|k: int| !is_first_match(tv, key@, k) by {
        if 0 <= k < tv.len() {
            assert(!tag_matches(tv[k], key@));
        }
    }
    None
}

/// The preview read from a document's meta tags and title texts.
pub fn preview_from_parts(tags: &Vec<MetaTag>, titles: &Vec<String>) -> (r: MetaDataResponse)
    ensures
        r@ == preview_of(tags_view(tags@), texts_view(titles@)),
{
    let title = match find_meta_content(tags, "og:title") {
        Some(t) => Some(t),
        None => if titles.len() > 0 {
            Some(titles[0].clone())
        } else {
            None
        },
    };
    let description = match find_meta_content(tags, "og:description") {
        Some(d) => Some(d),
        None => find_meta_content(tags, "description"),
    };
    let keywords = find_meta_content(tags, "keywords");
    let image = find_meta_content(tags, "og:image");
    MetaDataResponse { title, description, keywords, image }
}

/// Extracts the preview of an HTML document. Never fails: a field that the
/// document does not provide is absent.
pub fn extract_metadata(html: &str) -> (r: MetaDataResponse)
    ensures
        r@ == extracted(html@),
{
    let tags = parse_meta_tags(html);
    let titles = parse_title_texts(html);
    preview_from_parts(&tags, &titles)
}

} // verus!
