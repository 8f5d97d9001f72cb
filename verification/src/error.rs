//! The ways in which a resolution fails.

use vstd::prelude::*;

verus! {

/// Why a resolution failed. Every variant carries a description of the cause.
#[derive(Debug, PartialEq, Eq)]
pub enum DnsError {
    /// The domain ends in no recognised label and conventional DNS is switched
    /// off or not available; carries the domain.
    UnsupportedDomain(String),
    /// The name service could not be reached; carries the transport's message.
    ConnectionError(String),
    /// The name service answered with a status other than success; carries the
    /// status.
    NodeError(String),
    /// The name service answered with success, but not with a usable record;
    /// carries what was wrong with it.
    InvalidResponse(String),
    /// The conventional resolver failed; carries its message.
    ResolutionFailed(String),
    /// The conventional resolver returned no address; carries the domain.
    NoResults(String),
}

/// The mathematical value of a [`DnsError`].
pub enum DnsErrorView {
    UnsupportedDomain(Seq<char>),
    ConnectionError(Seq<char>),
    NodeError(Seq<char>),
    InvalidResponse(Seq<char>),
    ResolutionFailed(Seq<char>),
    NoResults(Seq<char>),
}

impl DnsErrorView {
    /// The description that the error carries.
    pub open spec fn detail(self) -> Seq<char> {
        match self {
            DnsErrorView::UnsupportedDomain(d) => d,
            DnsErrorView::ConnectionError(d) => d,
            DnsErrorView::NodeError(d) => d,
            DnsErrorView::InvalidResponse(d) => d,
            DnsErrorView::ResolutionFailed(d) => d,
            DnsErrorView::NoResults(d) => d,
        }
    }

    /// What stands before the description in the error's message.
    pub open spec fn label(self) -> Seq<char> {
        match self {
            DnsErrorView::UnsupportedDomain(_) => "Unsupported domain: "@,
            DnsErrorView::ConnectionError(_) => "Connection error: "@,
            DnsErrorView::NodeError(_) => "Node error: "@,
            DnsErrorView::InvalidResponse(_) => "Invalid response: "@,
            DnsErrorView::ResolutionFailed(_) => "Resolution failed: "@,
            DnsErrorView::NoResults(_) => "No results for domain: "@,
        }
    }

    /// The error's message: its label, then its description.
    pub open spec fn message(self) -> Seq<char> {
        self.label() + self.detail()
    }
}

impl View for DnsError {
    type V = DnsErrorView;

    open spec fn view(&self) -> DnsErrorView {
        match self {
            DnsError::UnsupportedDomain(d) => DnsErrorView::UnsupportedDomain(d@),
            DnsError::ConnectionError(d) => DnsErrorView::ConnectionError(d@),
            DnsError::NodeError(d) => DnsErrorView::NodeError(d@),
            DnsError::InvalidResponse(d) => DnsErrorView::InvalidResponse(d@),
            DnsError::ResolutionFailed(d) => DnsErrorView::ResolutionFailed(d@),
            DnsError::NoResults(d) => DnsErrorView::NoResults(d@),
        }
    }
}

impl Clone for DnsError {
    fn clone(&self) -> (r: Self)
        ensures
            r@ == self@,
    {
        match self {
            DnsError::UnsupportedDomain(d) => DnsError::UnsupportedDomain(d.clone()),
            DnsError::ConnectionError(d) => DnsError::ConnectionError(d.clone()),
            DnsError::NodeError(d) => DnsError::NodeError(d.clone()),
            DnsError::InvalidResponse(d) => DnsError::InvalidResponse(d.clone()),
            DnsError::ResolutionFailed(d) => DnsError::ResolutionFailed(d.clone()),
            DnsError::NoResults(d) => DnsError::NoResults(d.clone()),
        }
    }
}

impl DnsError {
    /// The description that the error carries.
    pub fn detail(&self) -> (d: &String)
        ensures
            d@ == self@.detail(),
    {
        match self {
            DnsError::UnsupportedDomain(d) => d,
            DnsError::ConnectionError(d) => d,
            DnsError::NodeError(d) => d,
            DnsError::InvalidResponse(d) => d,
            DnsError::ResolutionFailed(d) => d,
            DnsError::NoResults(d) => d,
        }
    }

    /// The message shown for the error.
    pub fn message(&self) -> (m: String)
        ensures
            m@ == self@.message(),
    {
        let label = match self {
            DnsError::UnsupportedDomain(_) => "Unsupported domain: ",
            DnsError::ConnectionError(_) => "Connection error: ",
            DnsError::NodeError(_) => "Node error: ",
            DnsError::InvalidResponse(_) => "Invalid response: ",
            DnsError::ResolutionFailed(_) => "Resolution failed: ",
            DnsError::NoResults(_) => "No results for domain: ",
        };
        let mut m = String::from_str(label);
        m.append(self.detail().as_str());
        m
    }
}

} // verus!
