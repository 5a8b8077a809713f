//! The errors of a dispatch and of a credential exchange.
//!
//! Every error is a value handed to the caller: nothing here is fatal.

use vstd::prelude::*;
use crate::text::{decimal, decimal_text};

verus! {

/// Why a dispatch produced no record.
#[derive(Debug, Clone, PartialEq, Eq)]
pub enum DispatchError {
    /// The backend could not be reached at all.
    Transport { detail: String },
    /// The backend ran and reported failure: a non-success HTTP status with
    /// the response body, or a non-zero exit (no status) with the captured
    /// error output.
    Backend { status: Option<u16>, body: String },
    /// The backend answered, but not with a document of the expected shape.
    Decode { detail: String },
    /// A prerequisite of the local backend is missing.
    Unavailable { detail: String },
}

/// Why a credential exchange produced no token.
#[derive(Debug, Clone, PartialEq, Eq)]
pub enum AuthError {
    /// The backend refused the credentials, or its answer held no usable
    /// token.
    Rejected { detail: String },
    /// The backend could not be reached at all.
    Transport { detail: String },
}

/// Mathematical model of a [`DispatchError`].
pub enum DispatchErrorView {
    Transport { detail: Seq<char> },
    Backend { status: Option<u16>, body: Seq<char> },
    Decode { detail: Seq<char> },
    Unavailable { detail: Seq<char> },
}

/// Mathematical model of an [`AuthError`].
pub enum AuthErrorView {
    Rejected { detail: Seq<char> },
    Transport { detail: Seq<char> },
}

impl View for DispatchError {
    type V = DispatchErrorView;

    open spec fn view(&self) -> DispatchErrorView {
        match *self {
            DispatchError::Transport { detail } => DispatchErrorView::Transport { detail: detail@ },
            DispatchError::Backend { status, body } => DispatchErrorView::Backend {
                status,
                body: body@,
            },
            DispatchError::Decode { detail } => DispatchErrorView::Decode { detail: detail@ },
            DispatchError::Unavailable { detail } => DispatchErrorView::Unavailable {
                detail: detail@,
            },
        }
    }
}

impl View for AuthError {
    type V = AuthErrorView;

    open spec fn view(&self) -> AuthErrorView {
        match *self {
            AuthError::Rejected { detail } => AuthErrorView::Rejected { detail: detail@ },
            AuthError::Transport { detail } => AuthErrorView::Transport { detail: detail@ },
        }
    }
}

impl DispatchErrorView {
    /// The message shown for the error. A backend failure with a status reads
    /// `API error <status>: <body>`; every other error reads as its own text.
    pub open spec fn message(self) -> Seq<char> {
        match self {
            DispatchErrorView::Transport { detail } => detail,
            DispatchErrorView::Backend { status: Some(code), body } => "API error "@
                + decimal_text(code as nat) + ": "@ + body,
            DispatchErrorView::Backend { status: None, body } => body,
            DispatchErrorView::Decode { detail } => detail,
            DispatchErrorView::Unavailable { detail } => detail,
        }
    }
}

impl AuthErrorView {
    /// The message shown for the error: its own text.
    pub open spec fn message(self) -> Seq<char> {
        match self {
            AuthErrorView::Rejected { detail } => detail,
            AuthErrorView::Transport { detail } => detail,
        }
    }
}

impl DispatchError {
    /// The message shown for the error.
    pub fn message(&self) -> (r: String)
        ensures
            r@ == self@.message(),
    {
        match self {
            DispatchError::Transport { detail } => detail.clone(),
            DispatchError::Backend { status: Some(code), body } => {
                let mut out = String::from_str("API error ");
                out.append(decimal(*code).as_str());
                out.append(": ");
                out.append(body.as_str());
                out
            },
            DispatchError::Backend { status: None, body } => body.clone(),
            DispatchError::Decode { detail } => detail.clone(),
            DispatchError::Unavailable { detail } => detail.clone(),
        }
    }
}

impl AuthError {
    /// The message shown for the error.
    pub fn message(&self) -> (r: String)
        ensures
            r@ == self@.message(),
    {
        match self {
            AuthError::Rejected { detail } => detail.clone(),
            AuthError::Transport { detail } => detail.clone(),
        }
    }
}

} // verus!
