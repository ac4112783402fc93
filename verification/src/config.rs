//! Configuration: the prioritized lookup chains for the access token and the
//! remote name, and the key under which this program stores its Git
//! configuration. The surrounding program performs the actual lookups
//! (arguments, Git configuration, environment) and hands their outcomes in.

use vstd::prelude::*;
use vstd::string::StringExecFns;

use crate::owner_repo;
use crate::owner_repo::OwnerRepo;

verus! {

/// Configuration errors.
#[derive(Debug)]
pub enum Error {
    /// The environment variable named by the payload was needed and not
    /// usable.
    EnvVar { var: String },
    /// The version-control layer reported a failure reading configuration;
    /// the payload is its message.
    Git(String),
}

/// Outcome of looking one key up in the version-control configuration.
#[derive(Debug)]
pub enum ConfigLookup {
    /// The key is set to this value.
    Value(String),
    /// The key is not set.
    Missing,
    /// The lookup itself failed; the payload is the reported message.
    Failed(String),
}

/// Configuration extracted from command-line arguments, Git configuration
/// and environment variables.
pub struct Config {
    pub github_token: String,
    pub o_r: Result<OwnerRepo, owner_repo::Error>,
    pub suggestions: Vec<String>,
}

impl Config {
    /// The access token, checked in order: the command-line flag, the Git
    /// configuration key, the `GITHUB_TOKEN` environment variable. A failed
    /// configuration lookup is an error, and so is reaching an unusable
    /// environment variable.
    pub fn github_token(
        flag: Option<String>,
        config_value: ConfigLookup,
        env_value: Option<String>,
    ) -> (r: Result<String, Error>)
        ensures
            flag matches Some(t) ==> r == Ok::<String, Error>(t),
            flag is None ==> match config_value {
                ConfigLookup::Value(v) => r == Ok::<String, Error>(v),
                ConfigLookup::Missing => match env_value {
                    Some(e) => r == Ok::<String, Error>(e),
                    None => r matches Err(Error::EnvVar { var }) && var@ == "GITHUB_TOKEN"@,
                },
                ConfigLookup::Failed(m) => r == Err::<String, Error>(Error::Git(m)),
            },
    {
        match flag {
            Some(t) => Ok(t),
            None => match config_value {
                ConfigLookup::Value(v) => Ok(v),
                ConfigLookup::Missing => match env_value {
                    Some(e) => Ok(e),
                    None => Err(Error::EnvVar { var: "GITHUB_TOKEN".to_owned() }),
                },
                ConfigLookup::Failed(m) => Err(Error::Git(m)),
            },
        }
    }

    /// The remote name, checked in order: the command-line flag, the Git
    /// configuration key. Unset in both places is no error: the caller then
    /// falls back to its default remote.
    pub fn remote(flag: Option<String>, config_value: ConfigLookup) -> (r: Result<
        Option<String>,
        Error,
    >)
        ensures
            flag matches Some(t) ==> r == Ok::<Option<String>, Error>(Some(t)),
            flag is None ==> match config_value {
                ConfigLookup::Value(v) => r == Ok::<Option<String>, Error>(Some(v)),
                ConfigLookup::Missing => r == Ok::<Option<String>, Error>(None),
                ConfigLookup::Failed(m) => r == Err::<Option<String>, Error>(Error::Git(m)),
            },
    {
        match flag {
            Some(t) => Ok(Some(t)),
            None => match config_value {
                ConfigLookup::Value(v) => Ok(Some(v)),
                ConfigLookup::Missing => Ok(None),
                ConfigLookup::Failed(m) => Err(Error::Git(m)),
            },
        }
    }
}

/// Build a Git configuration key from the program-specific prefix and a
/// subkey.
pub fn git_config_key(key: &str) -> (r: String)
    ensures
        r@ == "githubSuggestion."@ + "."@ + key@,
{
    let mut s = "githubSuggestion.".to_owned();
    s.append(".");
    s.append(key);
    s
}

} // verus!
