//! The client secret: which part of the console's secret file the harvest
//! signs in with.
//!
//! The file is read by `serde_json` into the OAuth crate's own types. What
//! is in a secret stays opaque here; only the shape of the file is decided
//! on: whether it reads at all, and whether it holds the secret of an
//! installed application, the only kind that is used.

use google_youtube3::oauth2::ApplicationSecret;
use vstd::prelude::*;

verus! {

#[verifier::external_type_specification]
#[verifier::external_body]
pub struct ExApplicationSecret(ApplicationSecret);

#[verifier::external_type_specification]
#[verifier::external_body]
pub struct ExJsonError(serde_json::Error);

/// What a secret file holds, as far as the harvest cares.
#[derive(Debug, Clone, Copy, PartialEq, Eq, Structural)]
pub enum SecretShape {
    /// The text does not read as a console secret.
    Unreadable,
    /// The text is a console secret without an installed application.
    NotInstalled,
    /// The text is a console secret with an installed application.
    Installed,
}

/// Why no secret could be taken from a secret file.
#[derive(Debug)]
pub enum SecretError {
    /// The text does not read as a console secret; the parser's error says
    /// where and why.
    Unreadable(serde_json::Error),
    /// The secret is not that of an installed application.
    NotInstalled,
}

/// What to tell the user about a secret that is not that of an installed
/// application.
pub fn not_installed_message() -> (message: &'static str)
    ensures
        message@ == "Unable to read client secret"@,
{
    "Unable to read client secret"
}

/// The shape of what the parser made of a secret file.
pub open spec fn spec_parsed_shape(
    parsed: Result<Option<ApplicationSecret>, serde_json::Error>,
) -> SecretShape {
    match parsed {
        Err(_) => SecretShape::Unreadable,
        Ok(None) => SecretShape::NotInstalled,
        Ok(Some(_)) => SecretShape::Installed,
    }
}

/// The shape that the parser finds in the text of a secret file.
pub uninterp spec fn spec_secret_shape(json: Seq<char>) -> SecretShape;

/// Reads a secret file with `serde_json::from_str`, at the type
/// `ConsoleApplicationSecret` of the OAuth crate, and hands out the
/// `installed` field of what was read. Trusted: that the outcome depends on
/// the text alone, so that its shape is the shape of the text.
#[verifier::external_body]
fn parse_installed(json: &str) -> (parsed: Result<Option<ApplicationSecret>, serde_json::Error>)
    ensures
        spec_parsed_shape(parsed) == spec_secret_shape(json@),
{
    serde_json::from_str::<google_youtube3::oauth2::ConsoleApplicationSecret>(json).map(
        |secret| secret.installed,
    )
}

/// The secret to sign in with, given what the parser made of the file: the
/// installed application's secret, untouched. A parser's error is handed on
/// as it is.
pub fn require_installed(parsed: Result<Option<ApplicationSecret>, serde_json::Error>) -> (result:
    Result<ApplicationSecret, SecretError>)
    ensures
        match parsed {
            Ok(Some(secret)) => result matches Ok(taken) && taken == secret,
            Ok(None) => result matches Err(SecretError::NotInstalled),
            Err(error) => result matches Err(SecretError::Unreadable(cause)) && cause == error,
        },
{
    match parsed {
        Ok(Some(secret)) => Ok(secret),
        Ok(None) => Err(SecretError::NotInstalled),
        Err(error) => Err(SecretError::Unreadable(error)),
    }
}

/// The secret to sign in with, from the text of a secret file.
pub fn installed_secret(json: &str) -> (result: Result<ApplicationSecret, SecretError>)
    ensures
        match spec_secret_shape(json@) {
            SecretShape::Installed => result is Ok,
            SecretShape::NotInstalled => result matches Err(SecretError::NotInstalled),
            SecretShape::Unreadable => result matches Err(SecretError::Unreadable(_)),
        },
{
    require_installed(parse_installed(json))
}

} // verus!
