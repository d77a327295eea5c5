use vstd::prelude::*;
use crate::errors::PreparationError;

verus! {

/// Passed in from js-side, will be validated before being converted to proper tuta sdk credentials.
#[derive(Debug, Clone)]
pub struct TutaCredentials {
    pub api_url: String,
    pub client_version: String,
    pub login: String,
    pub user_id: String,
    pub access_token: String,
    pub encrypted_passphrase_key: Vec<u8>,
    pub is_internal_credential: bool,
}

/// Whether the user logs in with an internal account or as an external one.
#[derive(Debug, Clone, Copy, PartialEq, Eq, Structural)]
pub enum CredentialType {
    Internal,
    External,
}

/// The credentials with which the sdk logs in.
#[derive(Debug)]
pub struct Credentials {
    pub login: String,
    pub user_id: String,
    pub access_token: String,
    pub encrypted_passphrase_key: Vec<u8>,
    pub credential_type: CredentialType,
}

/// The credentials passed in can be used to log in: the login, the user id
/// and the access token are all given.
pub open spec fn credentials_valid(c: TutaCredentials) -> bool {
    &&& c.login@.len() > 0
    &&& c.user_id@.len() > 0
    &&& c.access_token@.len() > 0
}

/// The sdk credentials made of the credentials passed in: the same login,
/// user id, access token and key, of the internal type exactly when the
/// passed credentials say so.
pub open spec fn credentials_from(c: TutaCredentials) -> Credentials {
    Credentials {
        login: c.login,
        user_id: c.user_id,
        access_token: c.access_token,
        encrypted_passphrase_key: c.encrypted_passphrase_key,
        credential_type: if c.is_internal_credential {
            CredentialType::Internal
        } else {
            CredentialType::External
        },
    }
}

/// Credentials are valid exactly when the login, the user id and the access
/// token are all given; converting them keeps those, and the passphrase key,
/// as they are, and makes internal credentials internal and all others
/// external.
pub proof fn lemma_credentials_conversion(c: TutaCredentials)
    ensures
        credentials_valid(c) <==> (c.login@.len() > 0 && c.user_id@.len() > 0 && c.access_token@.len() > 0),
        credentials_from(c).login == c.login,
        credentials_from(c).user_id == c.user_id,
        credentials_from(c).access_token == c.access_token,
        credentials_from(c).encrypted_passphrase_key == c.encrypted_passphrase_key,
        c.is_internal_credential <==> credentials_from(c).credential_type == CredentialType::Internal,
        !c.is_internal_credential <==> credentials_from(c).credential_type == CredentialType::External,
{
}

/// Credentials are validated before they are converted: invalid ones are a
/// credential validation error, valid ones become the sdk credentials.
impl TryFrom<TutaCredentials> for Credentials {
    type Error = PreparationError;

    fn try_from(tuta_credentials: TutaCredentials) -> (r: Result<Credentials, PreparationError>) {
        if tuta_credentials.login.as_str().is_empty() || tuta_credentials.user_id.as_str().is_empty()
            || tuta_credentials.access_token.as_str().is_empty() {
            return Err(PreparationError::CredentialValidationError);
        }
        let credential_type = if tuta_credentials.is_internal_credential {
            CredentialType::Internal
        } else {
            CredentialType::External
        };
        Ok(
            Credentials {
                login: tuta_credentials.login,
                user_id: tuta_credentials.user_id,
                access_token: tuta_credentials.access_token,
                encrypted_passphrase_key: tuta_credentials.encrypted_passphrase_key,
                credential_type,
            },
        )
    }
}

impl vstd::std_specs::convert::TryFromSpecImpl<TutaCredentials> for Credentials {
    open spec fn obeys_try_from_spec() -> bool {
        true
    }

    open spec fn try_from_spec(c: TutaCredentials) -> Result<Credentials, PreparationError> {
        if credentials_valid(c) {
            Ok(credentials_from(c))
        } else {
            Err(PreparationError::CredentialValidationError)
        }
    }
}

} // verus!
