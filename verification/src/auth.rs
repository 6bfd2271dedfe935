//! Credential verification against the two stored Argon2id hashes:
//! a console secret with an expiry timestamp, and a recovery secret.

use vstd::prelude::*;

use crate::db::{get_setting, setting_of, wf_settings, PolicyCache};
use crate::numparse::{parse_u32, parse_u32_spec};
use crate::rows::SettingRow;

verus! {

/// Whether `candidate` verifies against the Argon2id hash string
/// `hash`.  False whenever `hash` is not a well-formed hash.
pub uninterp spec fn argon2_matches(candidate: Seq<char>, hash: Seq<char>) -> bool;

/// Relies on argon2's `PasswordVerifier::<str>::verify_password`
/// under `Argon2::default()`: it returns `Ok` exactly when `hash` is
/// a well-formed PHC hash string and `candidate` verifies against
/// it, and `Err` on a malformed hash or a mismatch.  The outcome is a
/// function of the two strings alone.
#[verifier::external_body]
fn argon2_verify(candidate: &str, hash: &str) -> (r: bool)
    ensures
        r == argon2_matches(candidate@, hash@),
{
    let hasher = argon2::Argon2::default();
    <argon2::Argon2 as argon2::PasswordVerifier<str>>::verify_password(
        &hasher,
        candidate.as_bytes(),
        hash,
    ).is_ok()
}

/// Whether `candidate` is accepted at time `now`: it matches a
/// console secret whose expiry parses and has not passed (zero
/// meaning no expiry), or failing that it matches the recovery
/// secret.  A malformed stored hash matches nothing.
pub open spec fn auth_ok(settings: Seq<SettingRow>, candidate: Seq<char>, now: u32) -> bool {
    let console = setting_of(settings, "ConsoleSecret"@);
    let recovery = setting_of(settings, "RecoverySecret"@);
    let expiry = parse_u32_spec(setting_of(settings, "ConsoleSecretExpiry"@));
    ||| {
        &&& expiry is Some
        &&& (expiry.unwrap() == 0 || expiry.unwrap() >= now)
        &&& argon2_matches(candidate, console)
    }
    ||| argon2_matches(candidate, recovery)
}

/// Decides whether a caller-supplied secret is accepted at time
/// `now`.
pub fn get_valid_auth_string(cache: &PolicyCache, auth: &str, now: u32) -> (r: bool)
    requires
        wf_settings(cache.settings@),
    ensures
        r == auth_ok(cache.settings@, auth@, now),
{
    let console_secret = get_setting(cache, "ConsoleSecret");
    let recovery_secret = get_setting(cache, "RecoverySecret");
    let expiry_setting = get_setting(cache, "ConsoleSecretExpiry");
    let console_secret_expiry = parse_u32(expiry_setting.as_str());
    match console_secret_expiry {
        Some(expiry) => {
            if expiry == 0 || expiry >= now {
                if argon2_verify(auth, console_secret.as_str()) {
                    return true;
                }
            }
        },
        None => {},
    }
    argon2_verify(auth, recovery_secret.as_str())
}

/// The bypass credential as the host process sees it: the value of
/// the `WB_AUTH` environment variable, if set, and the clock reading
/// the decision is made at.
pub struct AuthFacts {
    pub wb_auth: Option<String>,
    pub now: u32,
}

/// Whether the environment-supplied credential is accepted: an unset
/// variable is accepted never.
pub open spec fn env_auth_ok(settings: Seq<SettingRow>, facts: AuthFacts) -> bool {
    match facts.wb_auth {
        Some(s) => auth_ok(settings, s@, facts.now),
        None => false,
    }
}

/// Decides whether the environment-supplied credential is accepted.
pub fn get_valid_auth_env(cache: &PolicyCache, facts: &AuthFacts) -> (r: bool)
    requires
        wf_settings(cache.settings@),
    ensures
        r == env_auth_ok(cache.settings@, *facts),
{
    match &facts.wb_auth {
        Some(s) => get_valid_auth_string(cache, s.as_str(), facts.now),
        None => false,
    }
}

} // verus!
