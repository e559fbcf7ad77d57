//! Refresh-token records as persisted in PostgreSQL.

use vstd::prelude::*;

use crate::error::AppError;
use crate::identity::user_id::UserId;
use crate::time::Timestamp;

verus! {

/// A row of `identity.refresh_tokens`, with UUIDs as 128-bit values.
#[derive(Debug, Clone)]
pub struct RefreshTokenRow {
    pub id: u128,
    pub family_id: u128,
    pub user_id: u128,
    pub token_hash: String,
    pub created_at: Timestamp,
    pub expires_at: Timestamp,
    pub used_at: Option<Timestamp>,
    pub revoked_at: Option<Timestamp>,
    pub replaced_by_id: Option<u128>,
}

/// A stored refresh token as the application sees it.
#[derive(Debug, Clone)]
pub struct RefreshTokenRecord {
    pub id: u128,
    pub family_id: u128,
    pub user_id: UserId,
    pub token_hash: String,
    pub created_at: Timestamp,
    pub expires_at: Timestamp,
    pub used_at: Option<Timestamp>,
    pub revoked_at: Option<Timestamp>,
    pub replaced_by_id: Option<u128>,
}

/// A refresh token to be inserted (not yet used, revoked or replaced).
#[derive(Debug, Clone)]
pub struct NewRefreshTokenRecord {
    pub id: u128,
    pub family_id: u128,
    pub user_id: UserId,
    pub token_hash: String,
    pub created_at: Timestamp,
    pub expires_at: Timestamp,
}

/// The record a row describes: every column carried over, the user id
/// wrapped as a `UserId`.
pub fn assemble_refresh_token(row: RefreshTokenRow) -> (r: RefreshTokenRecord)
    ensures
        r.id == row.id,
        r.family_id == row.family_id,
        r.user_id@ == row.user_id,
        r.token_hash == row.token_hash,
        r.created_at == row.created_at,
        r.expires_at == row.expires_at,
        r.used_at == row.used_at,
        r.revoked_at == row.revoked_at,
        r.replaced_by_id == row.replaced_by_id,
{
    RefreshTokenRecord {
        id: row.id,
        family_id: row.family_id,
        user_id: UserId::from_uuid(row.user_id),
        token_hash: row.token_hash,
        created_at: row.created_at,
        expires_at: row.expires_at,
        used_at: row.used_at,
        revoked_at: row.revoked_at,
        replaced_by_id: row.replaced_by_id,
    }
}

/// A rotation must mark exactly one live token as used; any other number
/// of updated rows is an infrastructure error.
pub fn check_rotation(rows_affected: u64) -> (r: Result<(), AppError>)
    ensures
        rows_affected == 1 ==> r is Ok,
        rows_affected != 1 ==> (r matches Err(AppError::Infrastructure(m)) && m@
            == "Refresh token rotation affected an unexpected number of rows"@),
{
    if rows_affected != 1 {
        return Err(
            AppError::Infrastructure(
                "Refresh token rotation affected an unexpected number of rows".to_owned(),
            ),
        );
    }
    Ok(())
}

/// The PostgreSQL-backed refresh-token store (its queries run at the edge).
#[derive(Debug, Default)]
pub struct PostgresRefreshTokenStore;

impl PostgresRefreshTokenStore {
    pub fn new() -> Self {
        PostgresRefreshTokenStore
    }
}

} // verus!
