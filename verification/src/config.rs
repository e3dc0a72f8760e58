//! What a connect request carries, and how a stored session becomes one.

use vstd::prelude::*;
use vstd::string::*;
use crate::auth::AuthenticationMethod;
use crate::Session;

verus! {

/// How a connect request authenticates.
#[derive(Debug, Clone, PartialEq, Eq)]
pub enum AuthMethod {
    Password { password: String },
    PublicKey { private_key_path: String },
    Agent,
}

/// A connect request: where to connect, as whom, and with what.
#[derive(Debug, Clone, PartialEq, Eq)]
pub struct SshConfig {
    pub host: String,
    pub port: u16,
    pub username: String,
    pub auth_method: AuthMethod,
}

/// Whether `config` is the connect request of the stored session
/// `session`: the same host, port and user, and the same way to
/// authenticate, with the empty password for a password session.
pub open spec fn is_config_of(config: SshConfig, session: Session) -> bool {
    &&& config.host@ == session.host@
    &&& config.port == session.port
    &&& config.username@ == session.username@
    &&& match session.auth_method {
        crate::AuthMethod::Password => config.auth_method matches AuthMethod::Password {
            password,
        } && password@.len() == 0,
        crate::AuthMethod::PublicKey { key_path } => config.auth_method
            matches AuthMethod::PublicKey { private_key_path } && private_key_path@ == key_path@,
        crate::AuthMethod::Agent => config.auth_method is Agent,
    }
}

/// The connect request of a stored session. A stored session holds no
/// password, so a password session starts with the empty one; the password
/// that the user types is put in with [`with_password`].
pub fn ssh_config_for(session: &Session) -> (config: SshConfig)
    ensures
        is_config_of(config, *session),
{
    SshConfig {
        host: session.host.clone(),
        port: session.port,
        username: session.username.clone(),
        auth_method: match &session.auth_method {
            crate::AuthMethod::Password => AuthMethod::Password { password: String::new() },
            crate::AuthMethod::PublicKey { key_path } => AuthMethod::PublicKey {
                private_key_path: key_path.clone(),
            },
            crate::AuthMethod::Agent => AuthMethod::Agent,
        },
    }
}

/// `config` with password authentication in place of what it had.
pub fn with_password(config: SshConfig, password: String) -> (changed: SshConfig)
    ensures
        changed.host == config.host,
        changed.port == config.port,
        changed.username == config.username,
        changed.auth_method == (AuthMethod::Password { password }),
{
    SshConfig {
        host: config.host,
        port: config.port,
        username: config.username,
        auth_method: AuthMethod::Password { password },
    }
}

/// What the authenticator is asked for on behalf of `method`. A request for
/// a key file carries no passphrase.
pub fn authentication_request(method: &AuthMethod) -> (request: AuthenticationMethod)
    ensures
        match method {
            AuthMethod::Password { password } => request matches AuthenticationMethod::Password(
                secret,
            ) && secret@ == password@,
            AuthMethod::PublicKey { private_key_path } => request
                matches AuthenticationMethod::PublicKey { private_key_path: path, passphrase }
                && path@ == private_key_path@ && passphrase is None,
            AuthMethod::Agent => request is Agent,
        },
{
    match method {
        AuthMethod::Password { password } => AuthenticationMethod::Password(password.clone()),
        AuthMethod::PublicKey { private_key_path } => AuthenticationMethod::PublicKey {
            private_key_path: private_key_path.clone(),
            passphrase: None,
        },
        AuthMethod::Agent => AuthenticationMethod::Agent,
    }
}

} // verus!
