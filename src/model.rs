//! The metadata record in its two forms: the canonical record, which carries
//! the link it describes, and the response projection, which does not.

use vstd::prelude::*;

verus! {

/// The text of an optional string, as a sequence of characters.
pub open spec fn text_of(o: Option<String>) -> Option<Seq<char>> {
    match o {
        Some(s) => Some(s@),
        None => None,
    }
}

/// Copies an optional string; the copy equals `o`.
pub fn copy_text(o: &Option<String>) -> (r: Option<String>)
    ensures
        r == *o,
{
    match o {
        Some(s) => Some(s.clone()),
        None => None,
    }
}

/// The canonical metadata record of a page: the four content fields and the
/// exact URL string that was asked about.
#[derive(Clone, Debug)]
pub struct MetaData {
    pub title: Option<String>,
    pub description: Option<String>,
    pub keywords: Option<String>,
    pub image: Option<String>,
    pub link: String,
}

/// The response form of a metadata record: the content fields without the link.
#[derive(Clone, Debug)]
pub struct MetaDataResponse {
    pub title: Option<String>,
    pub description: Option<String>,
    pub keywords: Option<String>,
    pub image: Option<String>,
}

/// The query of a preview request: the URL to describe.
#[derive(Clone, Debug)]
pub struct PreviewParams {
    pub url: String,
}

/// What a canonical record holds, as text.
pub ghost struct MetaDataView {
    pub title: Option<Seq<char>>,
    pub description: Option<Seq<char>>,
    pub keywords: Option<Seq<char>>,
    pub image: Option<Seq<char>>,
    pub link: Seq<char>,
}

/// What a response projection holds, as text.
pub ghost struct PreviewView {
    pub title: Option<Seq<char>>,
    pub description: Option<Seq<char>>,
    pub keywords: Option<Seq<char>>,
    pub image: Option<Seq<char>>,
}

impl View for MetaData {
    type V = MetaDataView;

    open spec fn view(&self) -> MetaDataView {
        MetaDataView {
            title: text_of(self.title),
            description: text_of(self.description),
            keywords: text_of(self.keywords),
            image: text_of(self.image),
            link: self.link@,
        }
    }
}

impl View for MetaDataResponse {
    type V = PreviewView;

    open spec fn view(&self) -> PreviewView {
        PreviewView {
            title: text_of(self.title),
            description: text_of(self.description),
            keywords: text_of(self.keywords),
            image: text_of(self.image),
        }
    }
}

impl MetaDataView {
    /// The projection of a record: its content fields, without the link.
    pub open spec fn projection(self) -> PreviewView {
        PreviewView {
            title: self.title,
            description: self.description,
            keywords: self.keywords,
            image: self.image,
        }
    }
}

impl PreviewView {
    /// A record made of these content fields and the given link.
    pub open spec fn linked(self, link: Seq<char>) -> MetaDataView {
        MetaDataView {
            title: self.title,
            description: self.description,
            keywords: self.keywords,
            image: self.image,
            link,
        }
    }

    /// A preview is sufficient when both its title and its description are present.
    pub open spec fn is_sufficient(self) -> bool {
        self.title.is_some() && self.description.is_some()
    }
}

impl MetaDataResponse {
    /// The response projection of a canonical record, field by field.
    pub open spec fn projection_of(m: MetaData) -> MetaDataResponse {
        MetaDataResponse {
            title: m.title,
            description: m.description,
            keywords: m.keywords,
            image: m.image,
        }
    }

    /// The canonical record made of these content fields and an explicitly
    /// supplied link.
    pub fn into_metadata(self, link: String) -> (r: MetaData)
        ensures
            r@ == self@.linked(link@),
            r.link == link,
    {
        MetaData {
            title: self.title,
            description: self.description,
            keywords: self.keywords,
            image: self.image,
            link,
        }
    }

    /// Same as `into_metadata`: attaches the link that the projection lacks.
    pub fn with_link(self, link: String) -> (r: MetaData)
        ensures
            r@ == self@.linked(link@),
            r.link == link,
    {
        self.into_metadata(link)
    }

    /// Whether both the title and the description are present.
    pub fn is_sufficient(&self) -> (r: bool)
        ensures
            r == self@.is_sufficient(),
    {
        self.title.is_some() && self.description.is_some()
    }
}

impl MetaData {
    /// The response projection of this record: the content fields, without the link.
    pub fn to_response(&self) -> (r: MetaDataResponse)
        ensures
            r == MetaDataResponse::projection_of(*self),
            r@ == self@.projection(),
    {
        MetaDataResponse::from(self)
    }
}

impl Default for MetaDataResponse {
    /// The empty preview: every field absent.
    fn default() -> (r: MetaDataResponse)
        ensures
            r.title.is_none(),
            r.description.is_none(),
            r.keywords.is_none(),
            r.image.is_none(),
    {
        MetaDataResponse { title: None, description: None, keywords: None, image: None }
    }
}

impl From<MetaData> for MetaDataResponse {
    fn from(m: MetaData) -> (r: MetaDataResponse) {
        MetaDataResponse {
            title: m.title,
            description: m.description,
            keywords: m.keywords,
            image: m.image,
        }
    }
}

impl vstd::std_specs::convert::FromSpecImpl<MetaData> for MetaDataResponse {
    open spec fn obeys_from_spec() -> bool {
        true
    }

    open spec fn from_spec(m: MetaData) -> MetaDataResponse {
        MetaDataResponse::projection_of(m)
    }
}

impl<'a> From<&'a MetaData> for MetaDataResponse {
    fn from(m: &'a MetaData) -> (r: MetaDataResponse) {
        MetaDataResponse {
            title: copy_text(&m.title),
            description: copy_text(&m.description),
            keywords: copy_text(&m.keywords),
            image: copy_text(&m.image),
        }
    }
}

impl<'a> vstd::std_specs::convert::FromSpecImpl<&'a MetaData> for MetaDataResponse {
    open spec fn obeys_from_spec() -> bool {
        true
    }

    open spec fn from_spec(m: &'a MetaData) -> MetaDataResponse {
        MetaDataResponse::projection_of(*m)
    }
}

/// Why a response projection cannot become a canonical record by itself.
#[derive(Clone, Copy, Debug, PartialEq, Eq, Structural)]
pub enum ConversionError {
    /// The projection carries no link, and none was supplied.
    MissingLink,
}

impl ConversionError {
    /// A readable description of the error.
    pub fn message(&self) -> (r: String)
        ensures
            r@ == "cannot convert a response into a record without a link"@,
    {
        String::from_str("cannot convert a response into a record without a link")
    }
}

impl TryFrom<MetaDataResponse> for MetaData {
    type Error = ConversionError;

    fn try_from(_r: MetaDataResponse) -> (r: Result<MetaData, ConversionError>) {
        Err(ConversionError::MissingLink)
    }
}

impl vstd::std_specs::convert::TryFromSpecImpl<MetaDataResponse> for MetaData {
    open spec fn obeys_try_from_spec() -> bool {
        true
    }

    open spec fn try_from_spec(r: MetaDataResponse) -> Result<MetaData, ConversionError> {
        Err(ConversionError::MissingLink)
    }
}

} // verus!
