//! How the sample application reaches its server: an explicit
//! configuration, handed to whatever makes the connection.

use vstd::prelude::*;
use vstd::string::*;

verus! {

/// The name of the database of the sample application.
pub const DB_NAME: &'static str = "sample_app_db";

/// The address of the server of the sample application.
pub const SERVER_ADDR: &'static str = "127.0.0.1:1729";

/// The user of the sample application.
pub const USERNAME: &'static str = "admin";

/// The password of that user.
pub const PASSWORD: &'static str = "password";

/// The two editions of the server. A cloud server is a set of machines
/// that is spoken to over TLS; a core server is one machine.
#[derive(Clone, Copy, Debug, PartialEq, Eq, Structural)]
pub enum Edition {
    Core,
    Cloud,
}

#[derive(Debug, PartialEq, Eq)]
pub struct Credentials {
    pub username: String,
    pub password: String,
}

/// All that a connection is made from.
#[derive(Debug, PartialEq, Eq)]
pub struct ConnectionConfig {
    pub edition: Edition,
    pub addresses: Vec<String>,
    pub credentials: Option<Credentials>,
    /// Whether the channel is encrypted.
    pub tls: bool,
    /// The file with the root certificate, where the system's own are not used.
    pub tls_root_ca: Option<String>,
}

impl ConnectionConfig {
    /// The configuration names one address, `addr`.
    pub open spec fn reaches(self, addr: Seq<char>) -> bool {
        self.addresses@.len() == 1 && self.addresses@[0]@ == addr
    }

    /// The configuration logs in as this user with this password.
    pub open spec fn logs_in_as(self, username: Seq<char>, password: Seq<char>) -> bool {
        self.credentials matches Some(c) && c.username@ == username && c.password@ == password
    }
}

/// The configuration for a server at one address, without a login of the
/// caller's own. A core server is reached in the clear and without
/// credentials; a cloud server over TLS, as the user of the sample
/// application.
pub fn connect_to_typedb(edition: Edition, addr: &str) -> (r: ConnectionConfig)
    ensures
        r.edition == edition,
        r.reaches(addr@),
        r.tls_root_ca is None,
        edition is Core ==> r.credentials is None && !r.tls,
        edition is Cloud ==> r.logs_in_as(USERNAME@, PASSWORD@) && r.tls,
{
    let mut addresses: Vec<String> = Vec::new();
    addresses.push(String::from_str(addr));
    match edition {
        Edition::Core => ConnectionConfig {
            edition,
            addresses,
            credentials: None,
            tls: false,
            tls_root_ca: None,
        },
        Edition::Cloud => ConnectionConfig {
            edition,
            addresses,
            credentials: Some(
                Credentials { username: String::from_str(USERNAME), password: String::from_str(PASSWORD) },
            ),
            tls: true,
            tls_root_ca: None,
        },
    }
}

/// The configuration for a server at one address, with the caller's
/// login. A core server is reached in the clear, a cloud server over TLS.
pub fn driver_connect(edition: Edition, uri: &str, username: &str, password: &str) -> (r:
    ConnectionConfig)
    ensures
        r.edition == edition,
        r.reaches(uri@),
        r.logs_in_as(username@, password@),
        r.tls == (edition is Cloud),
        r.tls_root_ca is None,
{
    let mut addresses: Vec<String> = Vec::new();
    addresses.push(String::from_str(uri));
    let tls: bool = match edition {
        Edition::Core => false,
        Edition::Cloud => true,
    };
    ConnectionConfig {
        edition,
        addresses,
        credentials: Some(
            Credentials { username: String::from_str(username), password: String::from_str(password) },
        ),
        tls,
        tls_root_ca: None,
    }
}

} // verus!
