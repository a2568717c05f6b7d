//! Error values of the control-plane logic.

use vstd::prelude::*;

verus! {

/// Category of a refused control-plane operation.
#[derive(Debug, Clone, Copy, PartialEq, Eq, Structural)]
pub enum AdminErrorKind {
    Invalid,
    Unauthorized,
    Forbidden,
    Conflict,
    NotFound,
    RateLimited,
    Unavailable,
    Internal,
}

/// A refused control-plane operation with its user-facing message.
#[derive(Debug, Clone, Copy, PartialEq, Eq)]
pub struct AdminError {
    pub kind: AdminErrorKind,
    pub message: &'static str,
}

impl AdminError {
    pub fn new(kind: AdminErrorKind, message: &'static str) -> (e: AdminError)
        ensures
            e.kind == kind,
            e.message == message,
    {
        AdminError { kind, message }
    }

    pub fn invalid(message: &'static str) -> (e: AdminError)
        ensures
            e.kind == AdminErrorKind::Invalid,
            e.message == message,
    {
        AdminError { kind: AdminErrorKind::Invalid, message }
    }

    pub fn conflict(message: &'static str) -> (e: AdminError)
        ensures
            e.kind == AdminErrorKind::Conflict,
            e.message == message,
    {
        AdminError { kind: AdminErrorKind::Conflict, message }
    }

    pub fn not_found(message: &'static str) -> (e: AdminError)
        ensures
            e.kind == AdminErrorKind::NotFound,
            e.message == message,
    {
        AdminError { kind: AdminErrorKind::NotFound, message }
    }

    pub fn internal(message: &'static str) -> (e: AdminError)
        ensures
            e.kind == AdminErrorKind::Internal,
            e.message == message,
    {
        AdminError { kind: AdminErrorKind::Internal, message }
    }
}

/// A store that could not answer: a lost connection, a timeout, a failed query.
#[derive(Debug, Clone, Copy, PartialEq, Eq)]
pub struct StoreOutage;

/// A store outage while reading or writing `entity`, as the services report
/// it: `Unavailable`, naming the entity. It is never read as an absent value.
pub fn store_unavailable(entity: &'static str) -> (e: AdminError)
    ensures
        e.kind == AdminErrorKind::Unavailable,
        e.message == entity,
{
    AdminError { kind: AdminErrorKind::Unavailable, message: entity }
}

/// A wire field that failed validation.
#[derive(Debug, Clone, Copy, PartialEq, Eq)]
pub struct WireValidationError {
    pub field: &'static str,
}

impl WireValidationError {
    pub fn new(field: &'static str) -> (e: WireValidationError)
        ensures
            e.field == field,
    {
        WireValidationError { field }
    }
}

} // verus!
