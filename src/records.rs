//! Rows of the relational store that sit beside the provisioner's own tables.
use vstd::prelude::*;
use crate::domain::{check_domain, domain_ok};

verus! {

/// A custom domain of an app.
#[derive(Debug)]
pub struct Domain {
    pub id: i32,
    pub domain: String,
    pub verified: bool,
    pub app_id: i32,
}

#[derive(Debug)]
pub struct NewDomain {
    pub domain: String,
    pub verified: bool,
    pub app_id: i32,
}

/// Whether `domain` may be registered as a custom domain: labels of 1 to 63
/// letters, digits or `-` joined by dots, then a dot and a top-level domain of
/// two to six letters.
pub fn validate_domain(domain: &str) -> (r: bool)
    ensures
        r == domain_ok(domain@, Some(6)),
{
    check_domain(domain, Some(6))
}

/// An invitation of a user into a team.
#[derive(Debug)]
pub struct Invite {
    pub user_id: i32,
    pub team_id: i32,
}

#[derive(Debug)]
pub struct NewInvite {
    pub user_id: i32,
    pub team_id: i32,
}

/// A registered OAuth client.
#[derive(Debug)]
pub struct OauthApp {
    pub client_id: String,
    pub name: String,
}

#[derive(Debug)]
pub struct NewOauthDeviceRequest {
    pub oauth_app_id: String,
    pub device_code: String,
    pub user_code: String,
}

/// The team fields an update may change.
#[derive(Debug)]
pub struct UpdatedTeam {
    pub name: Option<String>,
    pub slug: Option<String>,
    pub avatar: Option<String>,
}

#[derive(Debug)]
pub struct NewToken {
    pub token: String,
    pub user_id: i32,
}

/// A user allowed to sign up.
#[derive(Debug)]
pub struct WhitelistEntry {
    pub slack_user_id: String,
}

/// Membership of a user in a team.
#[derive(Debug)]
pub struct TeamUser {
    pub user_id: i32,
    pub team_id: i32,
}

/// The identity claims of a signed-in user.
#[derive(Debug)]
pub struct UserInfo {
    pub name: String,
    pub picture: String,
    pub user_id: String,
}

/// A build row: times in microseconds since the Unix epoch (UTC); `ended_at`
/// is `None` while the build runs; `events` holds the serialized journal.
#[derive(Debug)]
pub struct Build {
    pub id: i32,
    pub started_at: i64,
    pub ended_at: Option<i64>,
    pub events: Vec<String>,
    pub app_id: i32,
}

#[derive(Debug)]
pub struct NewBuild {
    pub app_id: i32,
}

/// A team. `created_at` is in microseconds since the Unix epoch (UTC).
#[derive(Debug)]
pub struct Team {
    pub id: i32,
    pub created_at: i64,
    pub name: Option<String>,
    pub avatar: Option<String>,
    pub personal: bool,
    pub slug: String,
    pub invite: String,
}

#[derive(Debug)]
pub struct NewTeam {
    pub name: Option<String>,
    pub avatar: Option<String>,
    pub personal: bool,
    pub slug: String,
}

/// A user. `created_at` is in microseconds since the Unix epoch (UTC).
#[derive(Debug)]
pub struct User {
    pub id: i32,
    pub created_at: i64,
    pub slack_user_id: String,
    pub name: String,
    pub avatar: Option<String>,
}

#[derive(Debug)]
pub struct NewUser {
    pub slack_user_id: String,
    pub name: String,
    pub avatar: Option<String>,
}

/// A session token; times in microseconds since the Unix epoch (UTC).
#[derive(Debug)]
pub struct Token {
    pub token: String,
    pub created_at: i64,
    pub expires_at: i64,
    pub user_id: i32,
}

/// A pending OAuth device authorization; times in microseconds since the
/// Unix epoch (UTC).
#[derive(Debug)]
pub struct OauthDeviceRequest {
    pub id: i32,
    pub created_at: i64,
    pub expires_at: i64,
    pub oauth_app_id: String,
    pub token: Option<String>,
    pub device_code: String,
    pub user_code: String,
}

} // verus!
