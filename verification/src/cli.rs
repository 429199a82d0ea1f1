//! The command-line settings, the connection settings derived from them,
//! and the Oracle connect descriptor.

use vstd::prelude::*;
use vstd::string::StringExecFns;

use crate::text::push_char;

verus! {

broadcast use vstd::string::group_string_axioms;

/// The command-line settings of an export.
#[derive(Debug, Clone, PartialEq, Eq)]
pub struct Cli {
    /// Database host.
    pub host: String,
    /// Listener port.
    pub port: u16,
    /// Database user.
    pub user: String,
    /// The user's password.
    pub password: String,
    /// Oracle SID (exclusive with `service_name`).
    pub sid: Option<String>,
    /// Oracle service name (exclusive with `sid`).
    pub service_name: Option<String>,
    /// Schema whose objects are exported.
    pub schema: String,
    /// Output directory.
    pub output: String,
    /// Keep double quotes around identifiers.
    pub keep_quotes: bool,
    /// Number of objects exported at the same time.
    pub concurrency: usize,
    /// Object-kind selectors to add to the core set.
    pub includes: Vec<String>,
    /// Object-kind selectors to remove.
    pub excludes: Vec<String>,
    /// Keep environment details (segment attributes, schema names, quotes).
    pub lossless: bool,
}

/// How the database is named in the connect descriptor.
#[derive(Debug, Clone, PartialEq, Eq)]
pub enum DatabaseName {
    Sid(String),
    ServiceName(String),
}

/// Everything needed to open a connection.
#[derive(Debug, Clone, PartialEq, Eq)]
pub struct ConnectionConfig {
    pub host: String,
    pub port: u16,
    pub user: String,
    pub password: String,
    pub database: DatabaseName,
}

impl Cli {
    /// The connection settings: host, port, user and password as given, and
    /// the SID or the service name, whichever was given.
    pub fn connection_config(&self) -> (r: ConnectionConfig)
        requires
            self.sid is Some != self.service_name is Some,
        ensures
            r.host@ == self.host@,
            r.port == self.port,
            r.user@ == self.user@,
            r.password@ == self.password@,
            match self.sid {
                Some(sid) => r.database matches DatabaseName::Sid(s) && s@ == sid@,
                None => r.database matches DatabaseName::ServiceName(s) && s@
                    == self.service_name.unwrap()@,
            },
    {
        let database = match &self.sid {
            Some(sid) => DatabaseName::Sid(sid.clone()),
            None => match &self.service_name {
                Some(service_name) => DatabaseName::ServiceName(service_name.clone()),
                None => DatabaseName::ServiceName(String::new()),
            },
        };
        ConnectionConfig {
            host: self.host.clone(),
            port: self.port,
            user: self.user.clone(),
            password: self.password.clone(),
            database,
        }
    }
}

/// The decimal digit character for `d`.
pub open spec fn digit_char(d: nat) -> char {
    ((d as int) + 48) as char
}

/// The decimal representation of `n`, without leading zeros.
pub open spec fn decimal(n: nat) -> Seq<char>
    decreases n,
{
    if n < 10 {
        seq![digit_char(n)]
    } else {
        decimal(n / 10).push(digit_char(n % 10))
    }
}

fn push_decimal(out: &mut String, n: u16)
    ensures
        final(out)@ == old(out)@ + decimal(n as nat),
    decreases n,
{
    if n >= 10 {
        push_decimal(out, n / 10);
    }
    let d: u8 = (n % 10) as u8;
    let c = (d + 48) as char;
    assert(c == digit_char((n % 10) as nat));
    push_char(out, c);
    assert(out@ =~= old(out)@ + decimal(n as nat));
}

/// The `CONNECT_DATA` entry for a database name.
pub open spec fn connect_data_spec(database: DatabaseName) -> Seq<char> {
    match database {
        DatabaseName::Sid(sid) => "SID="@ + sid@,
        DatabaseName::ServiceName(name) => "SERVICE_NAME="@ + name@,
    }
}

/// The connect descriptor for a configuration.
pub open spec fn connect_descriptor_spec(config: ConnectionConfig) -> Seq<char> {
    "(DESCRIPTION=(ADDRESS=(PROTOCOL=TCP)(HOST="@ + config.host@ + ")(PORT="@ + decimal(
        config.port as nat,
    ) + "))(CONNECT_DATA=("@ + connect_data_spec(config.database) + ")))"@
}

impl ConnectionConfig {
    /// The TCP connect descriptor for this host, port and database name,
    /// independent of any `tnsnames.ora`.
    pub fn connect_descriptor(&self) -> (r: String)
        ensures
            r@ == connect_descriptor_spec(*self),
    {
        let mut d = String::new();
        d.append("(DESCRIPTION=(ADDRESS=(PROTOCOL=TCP)(HOST=");
        d.append(self.host.as_str());
        d.append(")(PORT=");
        push_decimal(&mut d, self.port);
        d.append("))(CONNECT_DATA=(");
        match &self.database {
            DatabaseName::Sid(sid) => {
                d.append("SID=");
                d.append(sid.as_str());
            },
            DatabaseName::ServiceName(name) => {
                d.append("SERVICE_NAME=");
                d.append(name.as_str());
            },
        }
        d.append(")))");
        assert(d@ =~= connect_descriptor_spec(*self));
        d
    }
}

} // verus!
