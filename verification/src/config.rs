//! Server settings: the values read from the environment and their checks.

use crate::paths::{is_absolute, is_absolute_path, join_path, joined_path};
use crate::text::{decimal, decimal_string, parse_u16, parsed_u16, str_eq};
use vstd::prelude::*;

verus! {

/// One setting of the server.
pub enum ConfigValue {
    StringValue(String),
    NumberValue(u16),
    PathValue(String),
}

impl ConfigValue {
    /// The setting as text: a number in decimal, a path as it is written.
    pub fn to_string(&self) -> (r: String)
        ensures
            match self {
                ConfigValue::StringValue(s) => r@ == s@,
                ConfigValue::NumberValue(n) => r@ == decimal(*n as nat),
                ConfigValue::PathValue(p) => r@ == p@,
            },
    {
        match self {
            ConfigValue::StringValue(s) => s.clone(),
            ConfigValue::NumberValue(n) => decimal_string(*n as u64),
            ConfigValue::PathValue(p) => p.clone(),
        }
    }

    /// The text of a text setting.
    pub fn as_str(&self) -> (r: &str)
        requires
            self is StringValue,
        ensures
            r@ == self->StringValue_0@,
    {
        match self {
            ConfigValue::StringValue(s) => s.as_str(),
            _ => {
                proof {
                    assert(false);
                }
                ""
            },
        }
    }

    /// The path of a path setting.
    pub fn as_path_buf(&self) -> (r: String)
        requires
            self is PathValue,
        ensures
            r@ == self->PathValue_0@,
    {
        match self {
            ConfigValue::PathValue(p) => p.clone(),
            _ => {
                proof {
                    assert(false);
                }
                String::new()
            },
        }
    }

    /// The number of a number setting.
    pub fn as_num(&self) -> (r: u16)
        requires
            self is NumberValue,
        ensures
            r == self->NumberValue_0,
    {
        match self {
            ConfigValue::NumberValue(n) => *n,
            _ => {
                proof {
                    assert(false);
                }
                0
            },
        }
    }
}

/// Why an environment variable could not be read (as `std::env::VarError`).
#[derive(PartialEq, Eq, Structural, Clone, Copy, Debug)]
pub enum EnvVarError {
    NotPresent,
    NotUnicode,
}

/// The settings the server starts with.
pub struct ServerConfig {
    pub host: String,
    pub port: u16,
    pub db: String,
    pub pwd: String,
    pub root_dir: String,
}

/// Where the database lies: an absolute path as given, a relative one under
/// the root directory.
pub open spec fn db_location(root_dir: Seq<char>, db: Seq<char>) -> Seq<char> {
    if is_absolute(db) {
        db
    } else {
        joined_path(root_dir, db)
    }
}

/// The error of the first variable that could not be read, in the order
/// `HOST`, `PORT`, `DB`, `APP_PASSWORD`.
pub open spec fn first_env_error(
    host: Result<String, EnvVarError>,
    port: Result<String, EnvVarError>,
    db: Result<String, EnvVarError>,
    pwd: Result<String, EnvVarError>,
) -> Option<EnvVarError> {
    match (host, port, db, pwd) {
        (Err(e), _, _, _) => Some(e),
        (Ok(_), Err(e), _, _) => Some(e),
        (Ok(_), Ok(_), Err(e), _) => Some(e),
        (Ok(_), Ok(_), Ok(_), Err(e)) => Some(e),
        _ => None,
    }
}

/// The settings made of the variables `HOST`, `PORT`, `DB` and `APP_PASSWORD`
/// (as read from the environment) and the working directory. The first
/// variable that could not be read is the error. `PORT` must read as a
/// 16-bit number (the server cannot start otherwise); the database path is
/// taken under the working directory unless it is absolute.
pub fn server_config(
    host: Result<String, EnvVarError>,
    port: Result<String, EnvVarError>,
    db: Result<String, EnvVarError>,
    pwd: Result<String, EnvVarError>,
    root_dir: String,
) -> (res: Result<ServerConfig, EnvVarError>)
    requires
        host is Ok && port is Ok ==> parsed_u16(port->Ok_0@) is Some,
    ensures
        match first_env_error(host, port, db, pwd) {
            Some(e) => res == Err::<ServerConfig, EnvVarError>(e),
            None => res matches Ok(c) && {
                &&& c.host@ == host->Ok_0@
                &&& Some(c.port) == parsed_u16(port->Ok_0@)
                &&& c.db@ == db_location(root_dir@, db->Ok_0@)
                &&& c.pwd@ == pwd->Ok_0@
                &&& c.root_dir@ == root_dir@
            },
        },
{
    let host = match host {
        Ok(h) => h,
        Err(e) => return Err(e),
    };
    let port_text = match port {
        Ok(p) => p,
        Err(e) => return Err(e),
    };
    let port = match parse_u16(port_text.as_str()) {
        Some(p) => p,
        None => {
            proof {
                assert(false);
            }
            0
        },
    };
    let db_path = match db {
        Ok(d) => d,
        Err(e) => return Err(e),
    };
    let db = if is_absolute_path(db_path.as_str()) {
        db_path
    } else {
        join_path(root_dir.as_str(), db_path.as_str())
    };
    let pwd = match pwd {
        Ok(p) => p,
        Err(e) => return Err(e),
    };
    Ok(ServerConfig { host, port, db, pwd, root_dir })
}

impl ServerConfig {
    /// The setting of a name: `host`, `port`, `db`, `pwd` or `root_dir`.
    pub fn get(&self, key: &str) -> (r: Option<ConfigValue>)
        ensures
            key@ == "host"@ ==> (r matches Some(ConfigValue::StringValue(s)) && s@ == self.host@),
            key@ == "port"@ ==> r == Some(ConfigValue::NumberValue(self.port)),
            key@ == "db"@ ==> (r matches Some(ConfigValue::PathValue(p)) && p@ == self.db@),
            key@ == "pwd"@ ==> (r matches Some(ConfigValue::StringValue(s)) && s@ == self.pwd@),
            key@ == "root_dir"@ ==> (r matches Some(ConfigValue::PathValue(p)) && p@
                == self.root_dir@),
            key@ != "host"@ && key@ != "port"@ && key@ != "db"@ && key@ != "pwd"@ && key@
                != "root_dir"@ ==> r is None,
    {
        proof {
            reveal_strlit("host");
            reveal_strlit("port");
            reveal_strlit("db");
            reveal_strlit("pwd");
            reveal_strlit("root_dir");
            assert("host"@[0] != "port"@[0]);
            assert("host"@.len() == 4 && "port"@.len() == 4 && "db"@.len() == 2);
            assert("pwd"@.len() == 3 && "root_dir"@.len() == 8);
        }
        if str_eq(key, "host") {
            Some(ConfigValue::StringValue(self.host.clone()))
        } else if str_eq(key, "port") {
            Some(ConfigValue::NumberValue(self.port))
        } else if str_eq(key, "db") {
            Some(ConfigValue::PathValue(self.db.clone()))
        } else if str_eq(key, "pwd") {
            Some(ConfigValue::StringValue(self.pwd.clone()))
        } else if str_eq(key, "root_dir") {
            Some(ConfigValue::PathValue(self.root_dir.clone()))
        } else {
            None
        }
    }
}

} // verus!
