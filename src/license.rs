//! License references and where their text comes from.
use vstd::prelude::*;
use crate::paths::{resolve_file, resolved};

verus! {

/// Where a dependency's license text is found.
#[derive(Debug)]
pub enum LicenseInfo {
    /// A remote document, fetched by URL.
    URL(String),
    /// A local file, relative to the descriptor that names it.
    File(String),
    /// The text itself.
    Text(String),
}

/// What must happen to obtain a license text.
#[derive(Debug)]
pub enum LicenseSource {
    /// The text is at hand.
    Ready(String),
    /// The text is the content of the file at this path.
    ReadFile(String),
    /// The text is the body of a successful GET of this URL.
    Fetch(String),
}

/// A license source seen through the views of its strings.
pub enum SourceModel {
    Ready(Seq<char>),
    ReadFile(Seq<char>),
    Fetch(Seq<char>),
}

/// A license reference seen through the views of its strings.
pub enum LicenseModel {
    URL(Seq<char>),
    File(Seq<char>),
    Text(Seq<char>),
}

impl View for LicenseInfo {
    type V = LicenseModel;

    open spec fn view(&self) -> LicenseModel {
        match self {
            LicenseInfo::URL(u) => LicenseModel::URL(u@),
            LicenseInfo::File(f) => LicenseModel::File(f@),
            LicenseInfo::Text(t) => LicenseModel::Text(t@),
        }
    }
}

impl View for LicenseSource {
    type V = SourceModel;

    open spec fn view(&self) -> SourceModel {
        match self {
            LicenseSource::Ready(t) => SourceModel::Ready(t@),
            LicenseSource::ReadFile(p) => SourceModel::ReadFile(p@),
            LicenseSource::Fetch(u) => SourceModel::Fetch(u@),
        }
    }
}

/// The source of a reference named by the descriptor at `base`: a file is
/// taken relative to the descriptor's directory.
pub open spec fn source_of(l: LicenseModel, base: Seq<char>) -> SourceModel {
    match l {
        LicenseModel::URL(u) => SourceModel::Fetch(u),
        LicenseModel::File(f) => SourceModel::ReadFile(resolved(base, f)),
        LicenseModel::Text(t) => SourceModel::Ready(t),
    }
}

impl LicenseInfo {
    /// Where the text of this reference, named by the descriptor at `base`,
    /// comes from.
    pub fn resolve(&self, base: &String) -> (r: LicenseSource)
        ensures
            r@ == source_of(self@, base@),
    {
        match self {
            LicenseInfo::URL(from) => LicenseSource::Fetch(from.clone()),
            LicenseInfo::File(file) => LicenseSource::ReadFile(resolve_file(base, file)),
            LicenseInfo::Text(out) => LicenseSource::Ready(out.clone()),
        }
    }
}

/// Whether an HTTP status code reports success (2xx).
pub open spec fn is_success(status: u16) -> bool {
    200 <= status <= 299
}

/// Why a license URL gave no text.
#[derive(Debug)]
pub struct UnsuccessfulStatus {
    pub url: String,
    pub status: u16,
}

/// The license text from the response to a GET of `url`: the body when the
/// status is a success, else an error that names the URL and the status.
pub fn accept_response(url: &String, status: u16, body: String) -> (r: Result<String, UnsuccessfulStatus>)
    ensures
        r is Ok <==> is_success(status),
        r matches Ok(t) ==> t@ == body@,
        r matches Err(e) ==> e.url@ == url@ && e.status == status,
{
    if 200 <= status && status <= 299 {
        Ok(body)
    } else {
        Err(UnsuccessfulStatus { url: url.clone(), status })
    }
}

} // verus!
