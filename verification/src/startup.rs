//! What the server needs from its environment before it starts.
use vstd::prelude::*;
use crate::params::FromParam;

verus! {

/// Why the environment does not let the server start.
#[derive(Clone, Copy, Debug, PartialEq, Eq, Structural)]
pub enum EnvError {
    PortNotSet,
    PortNotInteger,
    DatabaseUrlNotSet,
}

impl EnvError {
    pub open spec fn message_spec(self) -> Seq<char> {
        match self {
            EnvError::PortNotSet => "Environment variable 'PORT' is not set!"@,
            EnvError::PortNotInteger => "Environment variable 'PORT' is not an integer!"@,
            EnvError::DatabaseUrlNotSet => "Environment variable 'DATABASE_URL' is not set!"@,
        }
    }

    /// The message that reports the error.
    pub fn message(&self) -> (r: &'static str)
        ensures
            r@ == self.message_spec(),
    {
        match self {
            EnvError::PortNotSet => "Environment variable 'PORT' is not set!",
            EnvError::PortNotInteger => "Environment variable 'PORT' is not an integer!",
            EnvError::DatabaseUrlNotSet => "Environment variable 'DATABASE_URL' is not set!",
        }
    }
}

/// The port and database URL to start with, from the values of the
/// environment variables `PORT` and `DATABASE_URL` (`None` where one is not
/// set). The port is checked first.
pub fn check_env(port: Option<String>, database_url: Option<String>) -> (r: Result<(u16, String), EnvError>)
    ensures
        match port {
            None => r == Err::<(u16, String), EnvError>(EnvError::PortNotSet),
            Some(p) => match u16::parse_spec(p@) {
                None => r == Err::<(u16, String), EnvError>(EnvError::PortNotInteger),
                Some(n) => match database_url {
                    None => r == Err::<(u16, String), EnvError>(EnvError::DatabaseUrlNotSet),
                    Some(u) => r matches Ok(c) && c.0 == n && c.1@ == u@,
                },
            },
        },
{
    let port_number = match port {
        None => return Err(EnvError::PortNotSet),
        Some(p) => match u16::from_param(p.as_str()) {
            None => return Err(EnvError::PortNotInteger),
            Some(n) => n,
        },
    };
    match database_url {
        None => Err(EnvError::DatabaseUrlNotSet),
        Some(u) => Ok((port_number, u)),
    }
}

} // verus!
