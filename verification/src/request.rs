//! A request for one run, checked once when it is made.

use crate::error::{Failure, FailureKind, FailureView};
use crate::text::{contains_separator, has_separator, join};
use vstd::prelude::*;

verus! {

/// What a run is asked to leave behind.
#[derive(Clone, Copy, Debug, PartialEq, Eq, Structural)]
pub enum OutputKind {
    /// A video re-encoded for broad compatibility.
    VideoOnly,
    /// The audio track alone.
    AudioOnly,
}

/// The failure that rejects an empty source URL.
pub open spec fn missing_url() -> FailureView {
    FailureView { kind: FailureKind::ConfigurationError, detail: "Source URL is empty"@ }
}

/// The failure that rejects a base name holding a path separator.
pub open spec fn unsafe_base_name(base_name: Seq<char>) -> FailureView {
    FailureView {
        kind: FailureKind::ConfigurationError,
        detail: "Base name contains a path separator: "@ + base_name,
    }
}

/// Why a request with this URL and base name is refused, if it is: the URL
/// is looked at first.
pub open spec fn rejection(source_url: Seq<char>, base_name: Seq<char>) -> Option<FailureView> {
    if source_url.len() == 0 {
        Some(missing_url())
    } else if has_separator(base_name) {
        Some(unsafe_base_name(base_name))
    } else {
        None
    }
}

/// A `Request` as a mathematical value.
pub ghost struct RequestView {
    pub source_url: Seq<char>,
    pub base_name: Seq<char>,
    pub output_directory: Seq<char>,
    pub output_kind: OutputKind,
}

impl RequestView {
    /// A request is valid when it names a source and its base name cannot
    /// lead out of the output directory.
    pub open spec fn valid(self) -> bool {
        rejection(self.source_url, self.base_name) is None
    }
}

/// A valid request. It cannot be changed once made.
#[derive(Debug, PartialEq, Eq)]
pub struct Request {
    source_url: String,
    base_name: String,
    output_directory: String,
    output_kind: OutputKind,
}

impl View for Request {
    type V = RequestView;

    closed spec fn view(&self) -> RequestView {
        RequestView {
            source_url: self.source_url@,
            base_name: self.base_name@,
            output_directory: self.output_directory@,
            output_kind: self.output_kind,
        }
    }
}

impl Clone for Request {
    fn clone(&self) -> (copy: Self)
        ensures
            copy@ == self@,
    {
        proof {
            use_type_invariant(self);
        }
        Request {
            source_url: self.source_url.clone(),
            base_name: self.base_name.clone(),
            output_directory: self.output_directory.clone(),
            output_kind: self.output_kind,
        }
    }
}

/// Builds the failure that rejects `base_name`.
pub fn reject_base_name(base_name: &str) -> (failure: Failure)
    ensures
        failure@ == unsafe_base_name(base_name@),
{
    Failure {
        kind: FailureKind::ConfigurationError,
        detail: join("Base name contains a path separator: ", base_name),
    }
}

impl Request {
    #[verifier::type_invariant]
    pub open spec fn well_formed(self) -> bool {
        self@.valid()
    }

    /// Checks the parts of a request and keeps them if they are valid.
    pub fn new(
        source_url: &str,
        base_name: &str,
        output_directory: &str,
        output_kind: OutputKind,
    ) -> (made: Result<Request, Failure>)
        ensures
            match made {
                Ok(request) => rejection(source_url@, base_name@) is None && request@
                    == (RequestView {
                    source_url: source_url@,
                    base_name: base_name@,
                    output_directory: output_directory@,
                    output_kind,
                }),
                Err(failure) => rejection(source_url@, base_name@) == Some(failure@),
            },
    {
        if source_url.is_empty() {
            return Err(
                Failure {
                    kind: FailureKind::ConfigurationError,
                    detail: String::from_str("Source URL is empty"),
                },
            );
        }
        if contains_separator(base_name) {
            return Err(reject_base_name(base_name));
        }
        Ok(
            Request {
                source_url: String::from_str(source_url),
                base_name: String::from_str(base_name),
                output_directory: String::from_str(output_directory),
                output_kind,
            },
        )
    }

    /// The address of the media to fetch.
    pub fn source_url(&self) -> (url: &str)
        ensures
            url@ == self@.source_url,
    {
        self.source_url.as_str()
    }

    /// The name, without extension, that the produced files share.
    pub fn base_name(&self) -> (name: &str)
        ensures
            name@ == self@.base_name,
    {
        self.base_name.as_str()
    }

    /// The directory that receives the produced files.
    pub fn output_directory(&self) -> (directory: &str)
        ensures
            directory@ == self@.output_directory,
    {
        self.output_directory.as_str()
    }

    /// What the run is to leave behind.
    pub fn output_kind(&self) -> (kind: OutputKind)
        ensures
            kind == self@.output_kind,
    {
        self.output_kind
    }
}

} // verus!
