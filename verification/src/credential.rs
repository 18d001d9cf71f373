//! The credential that the identity provider issued.

use crate::text::optional_text;
use vstd::prelude::*;
use vstd::string::StringExecFns;

verus! {

/// What a [`Credential`] holds, as mathematical values.
pub struct CredentialView {
    pub access_token: Seq<char>,
    pub refresh_token: Option<Seq<char>>,
    pub expiry: Option<u64>,
    pub token_type: Seq<char>,
}

/// The token set that the provider returned for one user.
#[derive(Debug)]
pub struct Credential {
    /// The secret presented to the task service.
    pub access_token: String,
    /// The secret that buys a new access token, where the provider granted one.
    pub refresh_token: Option<String>,
    /// The lifetime of the access token in whole seconds, where the provider stated one.
    pub expiry: Option<u64>,
    /// The kind of token, as the provider named it.
    pub token_type: String,
}

impl View for Credential {
    type V = CredentialView;

    open spec fn view(&self) -> CredentialView {
        CredentialView {
            access_token: self.access_token@,
            refresh_token: optional_text(self.refresh_token),
            expiry: self.expiry,
            token_type: self.token_type@,
        }
    }
}

/// The view of an optional credential.
pub open spec fn optional_credential(value: Option<Credential>) -> Option<CredentialView> {
    match value {
        Some(credential) => Some(credential@),
        None => None,
    }
}

impl CredentialView {
    /// The credential after a refresh that returned `fresh`: the fresh token
    /// set, which keeps the refresh token held so far where the provider
    /// issued no new one.
    pub open spec fn renewed(self, fresh: CredentialView) -> CredentialView {
        CredentialView {
            access_token: fresh.access_token,
            refresh_token: if fresh.refresh_token.is_some() {
                fresh.refresh_token
            } else {
                self.refresh_token
            },
            expiry: fresh.expiry,
            token_type: fresh.token_type,
        }
    }

    /// The value of the `Authorization` header that presents the access token.
    pub open spec fn authorization(self) -> Seq<char> {
        "Bearer "@ + self.access_token
    }
}

impl Credential {
    /// The credential to keep after a refresh that returned `fresh`. A
    /// credential that could be refreshed before can be refreshed after.
    pub fn renewed(&self, fresh: Credential) -> (kept: Credential)
        ensures
            kept@ == self@.renewed(fresh@),
            self@.refresh_token.is_some() ==> kept@.refresh_token.is_some(),
    {
        let Credential { access_token, refresh_token, expiry, token_type } = fresh;
        let refresh_token = match refresh_token {
            Some(token) => Some(token),
            None => match &self.refresh_token {
                Some(token) => Some(token.clone()),
                None => None,
            },
        };
        Credential { access_token, refresh_token, expiry, token_type }
    }

    /// The value of the `Authorization` header that presents the access token.
    pub fn authorization(&self) -> (header: String)
        ensures
            header@ == self@.authorization(),
    {
        let mut header = String::from_str("Bearer ");
        header.append(self.access_token.as_str());
        header
    }
}

impl Clone for Credential {
    fn clone(&self) -> (copy: Credential)
        ensures
            copy@ == self@,
    {
        Credential {
            access_token: self.access_token.clone(),
            refresh_token: match &self.refresh_token {
                Some(r) => Some(r.clone()),
                None => None,
            },
            expiry: self.expiry,
            token_type: self.token_type.clone(),
        }
    }
}

impl PartialEq for Credential {
    fn eq(&self, other: &Credential) -> (same: bool) {
        let refresh_same = match (&self.refresh_token, &other.refresh_token) {
            (Some(a), Some(b)) => *a == *b,
            (None, None) => true,
            _ => false,
        };
        let expiry_same = match (self.expiry, other.expiry) {
            (Some(a), Some(b)) => a == b,
            (None, None) => true,
            _ => false,
        };
        self.access_token == other.access_token && refresh_same && expiry_same
            && self.token_type == other.token_type
    }
}

impl vstd::std_specs::cmp::PartialEqSpecImpl for Credential {
    open spec fn obeys_eq_spec() -> bool {
        true
    }

    open spec fn eq_spec(&self, other: &Credential) -> bool {
        self@ == other@
    }
}

impl Eq for Credential {}

} // verus!
