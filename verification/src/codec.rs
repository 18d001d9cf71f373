//! The text form of a credential: a YAML document with the fields of an
//! OAuth2 token response, written and read by `serde_yaml` through the
//! `oauth2` crate's own response type.

use crate::credential::{Credential, CredentialView};
use oauth2::basic::{BasicTokenResponse, BasicTokenType};
use oauth2::{AccessToken, EmptyExtraTokenFields, RefreshToken, TokenResponse};
use std::time::Duration;
use vstd::prelude::*;

verus! {

/// The YAML document that `serde_yaml::to_string` gives for a token response
/// with these fields, or `None` where it reports an error.
pub uninterp spec fn token_document(credential: CredentialView) -> Option<Seq<char>>;

/// The fields of the token response that `serde_yaml::from_str` reads from a
/// text, or `None` where it reports an error.
pub uninterp spec fn token_record(text: Seq<char>) -> Option<CredentialView>;

/// Calls `serde_yaml::to_string` on a `BasicTokenResponse` built from the
/// credential's fields, the token type carried as an extension type, which is
/// written out as the string itself. Nothing is claimed of the text but that
/// it depends on the fields alone.
#[verifier::external_body]
pub(crate) fn write_document(credential: &Credential) -> (text: Option<String>)
    ensures
        match text {
            Some(t) => token_document(credential@) == Some(t@),
            None => token_document(credential@).is_none(),
        },
{
    let kind = BasicTokenType::Extension(credential.token_type.clone());
    let access = AccessToken::new(credential.access_token.clone());
    let mut response = BasicTokenResponse::new(access, kind, EmptyExtraTokenFields {});
    response.set_refresh_token(credential.refresh_token.clone().map(RefreshToken::new));
    response.set_expires_in(credential.expiry.map(Duration::from_secs).as_ref());
    serde_yaml::to_string(&response).ok()
}

/// Calls `serde_yaml::from_str` for a `BasicTokenResponse` and hands its
/// fields out. Nothing is claimed of the fields but that they depend on the
/// text alone.
#[verifier::external_body]
pub(crate) fn read_document(text: &str) -> (credential: Option<Credential>)
    ensures
        match credential {
            Some(c) => token_record(text@) == Some(c@),
            None => token_record(text@).is_none(),
        },
{
    let response: BasicTokenResponse = serde_yaml::from_str(text).ok()?;
    Some(Credential {
        access_token: response.access_token().secret().clone(),
        refresh_token: response.refresh_token().map(|r| r.secret().clone()),
        expiry: response.expires_in().map(|d| d.as_secs()),
        token_type: response.token_type().as_ref().to_owned(),
    })
}

} // verus!
