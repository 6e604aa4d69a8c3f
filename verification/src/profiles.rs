//! The profile resource's decision logic: the payload shapes, the
//! storage-failure kinds with their transport mapping, and the small
//! decisions the handlers make. The SQL itself stays outside the
//! library; it hands back plain values (row counts, presence) that are
//! classified here.

use vstd::prelude::*;

use crate::identity::UserRole;

verus! {

/// Payload for creating the authenticated user's profile.
#[derive(Debug, Clone)]
pub struct CreateProfilePayload {
    pub username: Option<String>,
}

/// Payload for updating the authenticated user's profile.
#[derive(Debug, Clone)]
pub struct UpdateProfilePayload {
    pub username: Option<String>,
}

/// Every failure kind of the storage layer that the handlers
/// distinguish.
#[derive(Debug, Clone, Copy, PartialEq, Eq, Structural)]
pub enum DbErrorKind {
    /// The database URL is absent from the configuration.
    DatabaseUrlNotSet,
    /// The connection pool could not be created.
    PoolCreationFailed,
    /// The database connection failed.
    ConnectionError,
    /// No profile row exists for the requested user.
    ProfileNotFound,
    /// A query failed.
    QueryError,
    /// The profile row could not be inserted.
    ProfileCreationError,
    /// The profile row could not be updated.
    ProfileUpdateError,
    /// The profile row could not be deleted.
    ProfileDeleteError,
}

/// The HTTP status a storage failure maps to.
pub open spec fn spec_db_http_status(k: DbErrorKind) -> u16 {
    match k {
        DbErrorKind::DatabaseUrlNotSet => 500,
        DbErrorKind::PoolCreationFailed => 500,
        DbErrorKind::ConnectionError => 500,
        DbErrorKind::ProfileNotFound => 404,
        DbErrorKind::QueryError => 500,
        DbErrorKind::ProfileCreationError => 400,
        DbErrorKind::ProfileUpdateError => 400,
        DbErrorKind::ProfileDeleteError => 500,
    }
}

impl DbErrorKind {
    /// The HTTP status this failure maps to: a missing profile is 404,
    /// rejected create and update payloads are 400, everything else is
    /// a server-side 500.
    pub fn http_status(&self) -> (r: u16)
        ensures
            r == spec_db_http_status(*self),
    {
        match self {
            DbErrorKind::DatabaseUrlNotSet => 500,
            DbErrorKind::PoolCreationFailed => 500,
            DbErrorKind::ConnectionError => 500,
            DbErrorKind::ProfileNotFound => 404,
            DbErrorKind::QueryError => 500,
            DbErrorKind::ProfileCreationError => 400,
            DbErrorKind::ProfileUpdateError => 400,
            DbErrorKind::ProfileDeleteError => 500,
        }
    }
}

/// Classifies the row count a delete reported: deleting no rows means
/// the profile did not exist.
pub fn classify_delete(rows_affected: u64) -> (r: Result<(), DbErrorKind>)
    ensures
        rows_affected == 0 ==> r == Err::<(), DbErrorKind>(DbErrorKind::ProfileNotFound),
        rows_affected > 0 ==> r == Ok::<(), DbErrorKind>(()),
{
    if rows_affected == 0 {
        Err(DbErrorKind::ProfileNotFound)
    } else {
        Ok(())
    }
}

/// Whether a caller may read another user's profile: admins only.
pub fn may_view_other_profile(role: UserRole) -> (r: bool)
    ensures
        r == (role == UserRole::Admin),
{
    match role {
        UserRole::Admin => true,
        _ => false,
    }
}

} // verus!
