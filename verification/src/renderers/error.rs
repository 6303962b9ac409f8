use vstd::prelude::*;

use crate::graphics_device::{feature_debug_text, Feature};

verus! {

/// Defines the errors that may occur while using the renderer.
#[derive(Debug, Clone)]
pub enum RendererError {
    /// An invalid app name is entered when initializing the renderer.
    InvalidAppName,
    /// An invalid argument was provided to a renderer function.
    InvalidArgument(String),
    /// An invalid or unsupported operation was attempted.
    InvalidOperation(String),
    /// A general error or failure occurred during a renderer operation.
    Fail(String),
    /// A requested feature marked as required is not supported by the physical
    /// device.
    UnsupportedRequiredFeature(Feature),
}

/// Whether two errors are of the same kind, whatever they carry.
pub open spec fn same_kind(a: RendererError, b: RendererError) -> bool {
    match (a, b) {
        (RendererError::InvalidAppName, RendererError::InvalidAppName) => true,
        (RendererError::InvalidArgument(_), RendererError::InvalidArgument(_)) => true,
        (RendererError::InvalidOperation(_), RendererError::InvalidOperation(_)) => true,
        (RendererError::Fail(_), RendererError::Fail(_)) => true,
        (
            RendererError::UnsupportedRequiredFeature(_),
            RendererError::UnsupportedRequiredFeature(_),
        ) => true,
        _ => false,
    }
}

impl PartialEq for RendererError {
    fn eq(&self, other: &Self) -> (r: bool) {
        match (self, other) {
            (RendererError::InvalidAppName, RendererError::InvalidAppName) => true,
            (RendererError::InvalidArgument(_), RendererError::InvalidArgument(_)) => true,
            (RendererError::InvalidOperation(_), RendererError::InvalidOperation(_)) => true,
            (RendererError::Fail(_), RendererError::Fail(_)) => true,
            (
                RendererError::UnsupportedRequiredFeature(_),
                RendererError::UnsupportedRequiredFeature(_),
            ) => true,
            _ => false,
        }
    }
}

impl vstd::std_specs::cmp::PartialEqSpecImpl for RendererError {
    open spec fn obeys_eq_spec() -> bool {
        true
    }

    open spec fn eq_spec(&self, other: &RendererError) -> bool {
        same_kind(*self, *other)
    }
}

/// The message of an error.
pub open spec fn error_text(e: RendererError) -> Seq<char> {
    match e {
        RendererError::InvalidAppName => "Invalid application name provided."@,
        RendererError::InvalidArgument(err) => "Invalid argument: "@ + err@,
        RendererError::InvalidOperation(err) => "Invalid operation: "@ + err@,
        RendererError::Fail(err) => err@,
        RendererError::UnsupportedRequiredFeature(feature) => "Required hardware feature is not supported: "@
            + feature_debug_text(feature),
    }
}

impl RendererError {
    /// The message of the error.
    pub fn to_string(&self) -> (s: String)
        ensures
            s@ == error_text(*self),
    {
        match self {
            RendererError::InvalidAppName => String::from_str("Invalid application name provided."),
            RendererError::InvalidArgument(err) => {
                let mut s = String::from_str("Invalid argument: ");
                crate::text::push_str(&mut s, err.as_str());
                s
            },
            RendererError::InvalidOperation(err) => {
                let mut s = String::from_str("Invalid operation: ");
                crate::text::push_str(&mut s, err.as_str());
                s
            },
            RendererError::Fail(err) => err.clone(),
            RendererError::UnsupportedRequiredFeature(feature) => {
                let mut s = String::from_str("Required hardware feature is not supported: ");
                crate::text::push_str(&mut s, feature.debug_name());
                s
            },
        }
    }

    /// Creates a new `InvalidArgument` error from the provided message.
    pub fn invalid_argument(msg: &str) -> (e: Self)
        ensures
            e matches RendererError::InvalidArgument(m) && m@ == msg@,
    {
        RendererError::InvalidArgument(String::from_str(msg))
    }

    /// Creates a new `InvalidOperation` error from the provided message.
    pub fn invalid_operation(msg: &str) -> (e: Self)
        ensures
            e matches RendererError::InvalidOperation(m) && m@ == msg@,
    {
        RendererError::InvalidOperation(String::from_str(msg))
    }

    /// Creates a new `Fail` error from the provided message.
    pub fn fail(msg: &str) -> (e: Self)
        ensures
            e matches RendererError::Fail(m) && m@ == msg@,
    {
        RendererError::Fail(String::from_str(msg))
    }
}

} // verus!
