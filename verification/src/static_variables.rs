//! The configuration of a process: where its certificates lie, whom it talks
//! to, and the key that its payloads are encrypted under.
//!
//! The values are read elsewhere. Here they are checked once, and what passes
//! is a configuration that does not change.

use crate::crypto::to_block;
use crate::error::ErrorKind;
use vstd::prelude::*;
use vstd::string::*;
use vstd::utf8::*;

verus! {

/// The number of bytes of a cipher key.
pub const KEY_BYTES: usize = 16;

/// The values as the environment holds them, each under the name of its
/// variable; `None` where the variable is not set.
pub struct Environment {
    pub client_cert_path: Option<String>,
    pub server_root_path: Option<String>,
    pub client_key_path: Option<String>,
    pub server_url: Option<String>,
    pub server_domain_name: Option<String>,
    pub server_cert_path: Option<String>,
    pub server_key_path: Option<String>,
    pub server_client_path: Option<String>,
    pub aes_key: Option<String>,
}

/// A checked configuration.
pub struct Global {
    pub cert_file_path: String,
    pub server_root_file_path: String,
    pub key_file_path: String,
    pub server_url: String,
    pub server_domain_name: String,
    pub server_cert_path: String,
    pub server_key_path: String,
    pub server_client_path: String,
    pub aes_key: [u8; 16],
}

impl Environment {
    /// Whether every variable is set.
    pub open spec fn is_complete(self) -> bool {
        &&& self.client_cert_path is Some
        &&& self.server_root_path is Some
        &&& self.client_key_path is Some
        &&& self.server_url is Some
        &&& self.server_domain_name is Some
        &&& self.server_cert_path is Some
        &&& self.server_key_path is Some
        &&& self.server_client_path is Some
        &&& self.aes_key is Some
    }

    /// The bytes of the key as it is written in the environment.
    pub open spec fn key_bytes(self) -> Seq<u8>
        recommends
            self.aes_key is Some,
    {
        encode_utf8(self.aes_key->0@)
    }

    /// Whether a configuration can be made of these values: all are there,
    /// and the key is sixteen bytes long.
    pub open spec fn is_usable(self) -> bool {
        self.is_complete() && self.key_bytes().len() == KEY_BYTES
    }

    /// The name of the first variable that is not set, in the order in which
    /// the variables are listed.
    pub open spec fn first_missing(self) -> Option<Seq<char>> {
        if self.client_cert_path is None {
            Some("CLIENT_CERT_PATH"@)
        } else if self.server_root_path is None {
            Some("SERVER_ROOT_PATH"@)
        } else if self.client_key_path is None {
            Some("CLIENT_KEY_PATH"@)
        } else if self.server_url is None {
            Some("SERVER_URL"@)
        } else if self.server_domain_name is None {
            Some("SERVER_DOMAIN_NAME"@)
        } else if self.server_cert_path is None {
            Some("SERVER_CERT_PATH"@)
        } else if self.server_key_path is None {
            Some("SERVER_KEY_PATH"@)
        } else if self.server_client_path is None {
            Some("SERVER_CLIENT_PATH"@)
        } else if self.aes_key is None {
            Some("AES_KEY"@)
        } else {
            None
        }
    }

    /// Names the first variable that is not set, for the message that tells
    /// an operator why the process did not start.
    pub fn missing(&self) -> (name: Option<&'static str>)
        ensures
            name is Some <==> !self.is_complete(),
            match name {
                Some(variable) => self.first_missing() == Some(variable@),
                None => self.first_missing() is None,
            },
    {
        if self.client_cert_path.is_none() {
            Some("CLIENT_CERT_PATH")
        } else if self.server_root_path.is_none() {
            Some("SERVER_ROOT_PATH")
        } else if self.client_key_path.is_none() {
            Some("CLIENT_KEY_PATH")
        } else if self.server_url.is_none() {
            Some("SERVER_URL")
        } else if self.server_domain_name.is_none() {
            Some("SERVER_DOMAIN_NAME")
        } else if self.server_cert_path.is_none() {
            Some("SERVER_CERT_PATH")
        } else if self.server_key_path.is_none() {
            Some("SERVER_KEY_PATH")
        } else if self.server_client_path.is_none() {
            Some("SERVER_CLIENT_PATH")
        } else if self.aes_key.is_none() {
            Some("AES_KEY")
        } else {
            None
        }
    }
}

impl Global {
    /// Whether this configuration holds the values of `environment`.
    pub open spec fn holds(self, environment: Environment) -> bool {
        &&& self.cert_file_path@ == environment.client_cert_path->0@
        &&& self.server_root_file_path@ == environment.server_root_path->0@
        &&& self.key_file_path@ == environment.client_key_path->0@
        &&& self.server_url@ == environment.server_url->0@
        &&& self.server_domain_name@ == environment.server_domain_name->0@
        &&& self.server_cert_path@ == environment.server_cert_path->0@
        &&& self.server_key_path@ == environment.server_key_path->0@
        &&& self.server_client_path@ == environment.server_client_path->0@
        &&& self.aes_key@ == environment.key_bytes()
    }

    /// Checks the values of the environment and makes the configuration of
    /// them. A variable that is not set, or a key that is not sixteen bytes
    /// long, is `ConfigurationFatal`: the process must not serve.
    pub fn new(environment: Environment) -> (config: Result<Global, ErrorKind>)
        ensures
            config is Ok <==> environment.is_usable(),
            config matches Ok(global) ==> global.holds(environment),
            config matches Err(kind) ==> kind == ErrorKind::ConfigurationFatal,
    {
        let Environment {
            client_cert_path,
            server_root_path,
            client_key_path,
            server_url,
            server_domain_name,
            server_cert_path,
            server_key_path,
            server_client_path,
            aes_key,
        } = environment;
        match (
            client_cert_path,
            server_root_path,
            client_key_path,
            server_url,
            server_domain_name,
            server_cert_path,
            server_key_path,
            server_client_path,
            aes_key,
        ) {
            (
                Some(cert_file_path),
                Some(server_root_file_path),
                Some(key_file_path),
                Some(server_url),
                Some(server_domain_name),
                Some(server_cert_path),
                Some(server_key_path),
                Some(server_client_path),
                Some(key_text),
            ) => {
                let key = key_text.as_str().as_bytes();
                if key.len() != KEY_BYTES {
                    return Err(ErrorKind::ConfigurationFatal);
                }
                Ok(
                    Global {
                        cert_file_path,
                        server_root_file_path,
                        key_file_path,
                        server_url,
                        server_domain_name,
                        server_cert_path,
                        server_key_path,
                        server_client_path,
                        aes_key: to_block(key),
                    },
                )
            },
            _ => Err(ErrorKind::ConfigurationFatal),
        }
    }
}

} // verus!
