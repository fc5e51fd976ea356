//! The environments a node can be started for.

use vstd::prelude::*;
use crate::text::{lowercase_of, reads_as, to_lowercase};

verus! {

/// The deployment a chain specification is made for.
#[derive(Debug, Clone, Copy, PartialEq, Eq, Structural)]
pub enum Environment {
    /// A single developer node.
    Development,
    /// A local test network.
    Local,
    /// The staging network.
    Staging,
    /// The production network.
    Production,
}

/// The environment that a lower-case name stands for, if it stands for one.
pub open spec fn named_environment(lower: Seq<char>) -> Option<Environment> {
    if lower == "dev"@ || lower == "development"@ {
        Some(Environment::Development)
    } else if lower == "local"@ {
        Some(Environment::Local)
    } else if lower == "staging"@ {
        Some(Environment::Staging)
    } else if lower == "prod"@ || lower == "production"@ {
        Some(Environment::Production)
    } else {
        None
    }
}

/// What is said of a name that stands for no environment.
pub open spec fn unknown_environment(name: Seq<char>) -> Seq<char> {
    "Unknown environment: "@ + name
        + ". Valid options: dev, local, staging, production"@
}

/// The environment that `lower`, already in lower case, stands for.
pub fn environment_named(lower: &String) -> (found: Option<Environment>)
    ensures
        found == named_environment(lower@),
{
    if reads_as(lower, "dev") || reads_as(lower, "development") {
        Some(Environment::Development)
    } else if reads_as(lower, "local") {
        Some(Environment::Local)
    } else if reads_as(lower, "staging") {
        Some(Environment::Staging)
    } else if reads_as(lower, "prod") || reads_as(lower, "production") {
        Some(Environment::Production)
    } else {
        None
    }
}

/// The message for a name that stands for no environment.
pub fn unknown_environment_message(name: &str) -> (message: String)
    ensures
        message@ == unknown_environment(name@),
{
    let mut message = String::from_str("Unknown environment: ");
    message.append(name);
    message.append(". Valid options: dev, local, staging, production");
    message
}

/// Parses the name of an environment, in any case of letters.
pub fn parse_environment(env: &str) -> (parsed: Result<Environment, String>)
    ensures
        match named_environment(lowercase_of(env@)) {
            Some(environment) => parsed == Ok::<Environment, String>(environment),
            None => parsed matches Err(message) && message@ == unknown_environment(env@),
        },
{
    let lower = to_lowercase(env);
    match environment_named(&lower) {
        Some(environment) => Ok(environment),
        None => Err(unknown_environment_message(env)),
    }
}

} // verus!
