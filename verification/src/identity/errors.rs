//! Errors of DID resolution.
use vstd::prelude::*;

verus! {

/// A failure to resolve or read a DID.
#[derive(Debug)]
pub enum Error {
    DidNotFoundError(String),
    PoorlyFormattedDidError(String),
    UnsupportedDidMethodError(String),
    /// The document as it was received, in Rust's pretty debug notation.
    PoorlyFormattedDidDocumentError(String),
    UnsupportedDidWebPathError(String),
}

impl Error {
    /// The human-readable text of the error.
    pub open spec fn spec_message(&self) -> Seq<char> {
        match self {
            Error::DidNotFoundError(d) => "Could not resolve DID: `"@ + d@ + "`"@,
            Error::PoorlyFormattedDidError(d) => "Poorly formatted DID: `"@ + d@ + "`"@,
            Error::UnsupportedDidMethodError(d) => "Unsupported DID method: `"@ + d@ + "`"@,
            Error::PoorlyFormattedDidDocumentError(d) => "Poorly formatted DID Document: `"@ + d@ + "`"@,
            Error::UnsupportedDidWebPathError(d) => "Unsupported did:web paths: `"@ + d@ + "`"@,
        }
    }

    /// The human-readable text of the error.
    pub fn message(&self) -> (m: String)
        ensures
            m@ == self.spec_message(),
    {
        let (mut m, subject) = match self {
            Error::DidNotFoundError(d) => (String::from_str("Could not resolve DID: `"), d),
            Error::PoorlyFormattedDidError(d) => (String::from_str("Poorly formatted DID: `"), d),
            Error::UnsupportedDidMethodError(d) => (String::from_str("Unsupported DID method: `"), d),
            Error::PoorlyFormattedDidDocumentError(d) => (String::from_str("Poorly formatted DID Document: `"), d),
            Error::UnsupportedDidWebPathError(d) => (String::from_str("Unsupported did:web paths: `"), d),
        };
        m.append(subject.as_str());
        m.append("`");
        m
    }

    /// The name of the error's variant.
    pub fn variant_name(&self) -> (n: &'static str)
        ensures
            n@ == match self {
                Error::DidNotFoundError(_) => "DidNotFoundError"@,
                Error::PoorlyFormattedDidError(_) => "PoorlyFormattedDidError"@,
                Error::UnsupportedDidMethodError(_) => "UnsupportedDidMethodError"@,
                Error::PoorlyFormattedDidDocumentError(_) => "PoorlyFormattedDidDocumentError"@,
                Error::UnsupportedDidWebPathError(_) => "UnsupportedDidWebPathError"@,
            },
    {
        match self {
            Error::DidNotFoundError(_) => "DidNotFoundError",
            Error::PoorlyFormattedDidError(_) => "PoorlyFormattedDidError",
            Error::UnsupportedDidMethodError(_) => "UnsupportedDidMethodError",
            Error::PoorlyFormattedDidDocumentError(_) => "PoorlyFormattedDidDocumentError",
            Error::UnsupportedDidWebPathError(_) => "UnsupportedDidWebPathError",
        }
    }
}

} // verus!
