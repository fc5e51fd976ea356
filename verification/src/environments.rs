//! Environment-specific configuration parameters for different deployment contexts.

use vstd::prelude::*;
use crate::text::{decimal, decimal_text, lowercase_of, reads_as, to_lowercase, truth, truth_text};

verus! {

/// Environment types for configuration selection.
#[derive(Debug, Clone, Copy, PartialEq, Eq, Structural)]
pub enum Environment {
    /// A single developer node.
    Development,
    /// A local test network.
    Local,
    /// The staging network.
    Staging,
    /// The production network.
    Production,
}

/// The environment that a lower-case name stands for, if it stands for one.
pub open spec fn named_environment(lower: Seq<char>) -> Option<Environment> {
    if lower == "dev"@ || lower == "development"@ {
        Some(Environment::Development)
    } else if lower == "local"@ {
        Some(Environment::Local)
    } else if lower == "staging"@ {
        Some(Environment::Staging)
    } else if lower == "prod"@ || lower == "production"@ {
        Some(Environment::Production)
    } else {
        None
    }
}

/// What is said of a name that stands for no environment.
pub open spec fn unknown_environment(name: Seq<char>) -> Seq<char> {
    "Unknown environment: "@ + name
        + ". Valid options: dev, local, staging, production"@
}

impl Environment {
    /// The environment that `lower`, already in lower case, stands for.
    pub fn named(lower: &String) -> (found: Option<Environment>)
        ensures
            found == named_environment(lower@),
    {
        if reads_as(lower, "dev") || reads_as(lower, "development") {
            Some(Environment::Development)
        } else if reads_as(lower, "local") {
            Some(Environment::Local)
        } else if reads_as(lower, "staging") {
            Some(Environment::Staging)
        } else if reads_as(lower, "prod") || reads_as(lower, "production") {
            Some(Environment::Production)
        } else {
            None
        }
    }

    /// Parse environment from string (case-insensitive).
    pub fn from_str(s: &str) -> (parsed: Result<Environment, String>)
        ensures
            match named_environment(lowercase_of(s@)) {
                Some(environment) => parsed == Ok::<Environment, String>(environment),
                None => parsed matches Err(message) && message@ == unknown_environment(s@),
            },
    {
        let lower = to_lowercase(s);
        match Environment::named(&lower) {
            Some(environment) => Ok(environment),
            None => {
                let mut message = String::from_str("Unknown environment: ");
                message.append(s);
                message.append(". Valid options: dev, local, staging, production");
                Err(message)
            },
        }
    }

    /// The environment this library is built for: development.
    pub fn from_env() -> (environment: Environment)
        ensures
            environment == Environment::Development,
    {
        Environment::Development
    }

    /// The name of the environment.
    pub open spec fn name(self) -> Seq<char> {
        match self {
            Environment::Development => "Development"@,
            Environment::Local => "Local"@,
            Environment::Staging => "Staging"@,
            Environment::Production => "Production"@,
        }
    }

    /// Writes the name of the environment.
    pub fn name_text(&self) -> (text: String)
        ensures
            text@ == self.name(),
    {
        match self {
            Environment::Development => String::from_str("Development"),
            Environment::Local => String::from_str("Local"),
            Environment::Staging => String::from_str("Staging"),
            Environment::Production => String::from_str("Production"),
        }
    }
}

/// Environment-specific rate limiting parameters.
#[derive(Debug, Clone, Copy, PartialEq, Eq, Structural)]
pub struct RateLimitParams {
    /// Transactions per block that an account may submit by default.
    pub default_transactions_per_block: u32,
    /// Transactions per minute that an account may submit by default.
    pub default_transactions_per_minute: u32,
    /// Most pending transactions of one account.
    pub max_transactions_per_account: u32,
    /// Most bytes that the pending transactions of one account may take.
    pub max_bytes_per_account: u32,
    /// Most transactions per minute of one account.
    pub max_transactions_per_minute: u32,
}

impl RateLimitParams {
    /// The rate limiting parameters of each environment.
    pub open spec fn of(env: Environment) -> RateLimitParams {
        match env {
            Environment::Development => RateLimitParams {
                default_transactions_per_block: 1000,
                default_transactions_per_minute: 6000,
                max_transactions_per_account: 1000,
                max_bytes_per_account: 2097152,
                max_transactions_per_minute: 600,
            },
            Environment::Local => RateLimitParams {
                default_transactions_per_block: 500,
                default_transactions_per_minute: 3000,
                max_transactions_per_account: 500,
                max_bytes_per_account: 1048576,
                max_transactions_per_minute: 300,
            },
            Environment::Staging => RateLimitParams {
                default_transactions_per_block: 200,
                default_transactions_per_minute: 1200,
                max_transactions_per_account: 200,
                max_bytes_per_account: 524288,
                max_transactions_per_minute: 120,
            },
            Environment::Production => RateLimitParams {
                default_transactions_per_block: 100,
                default_transactions_per_minute: 600,
                max_transactions_per_account: 100,
                max_bytes_per_account: 524288,
                max_transactions_per_minute: 60,
            },
        }
    }

    /// Get rate limiting parameters for the environment.
    pub fn for_environment(env: &Environment) -> (params: Self)
        ensures
            params == Self::of(*env),
    {
        match env {
            Environment::Development => RateLimitParams {
                default_transactions_per_block: 1000,
                default_transactions_per_minute: 6000,
                max_transactions_per_account: 1000,
                max_bytes_per_account: 2 * 1024 * 1024,
                max_transactions_per_minute: 600,
            },
            Environment::Local => RateLimitParams {
                default_transactions_per_block: 500,
                default_transactions_per_minute: 3000,
                max_transactions_per_account: 500,
                max_bytes_per_account: 1024 * 1024,
                max_transactions_per_minute: 300,
            },
            Environment::Staging => RateLimitParams {
                default_transactions_per_block: 200,
                default_transactions_per_minute: 1200,
                max_transactions_per_account: 200,
                max_bytes_per_account: 512 * 1024,
                max_transactions_per_minute: 120,
            },
            Environment::Production => RateLimitParams {
                default_transactions_per_block: 100,
                default_transactions_per_minute: 600,
                max_transactions_per_account: 100,
                max_bytes_per_account: 512 * 1024,
                max_transactions_per_minute: 60,
            },
        }
    }
}

/// Environment-specific consensus parameters.
#[derive(Debug, Clone, Copy, PartialEq, Eq, Structural)]
pub struct ConsensusParams {
    /// The most authorities the chain can have.
    pub max_authorities: u32,
    /// Whether an author may create several blocks in one slot.
    pub allow_multiple_blocks_per_slot: bool,
    /// The number of block hashes that are kept.
    pub block_hash_count: u32,
}

impl ConsensusParams {
    /// The consensus parameters of each environment.
    pub open spec fn of(env: Environment) -> ConsensusParams {
        match env {
            Environment::Development => ConsensusParams {
                max_authorities: 10,
                allow_multiple_blocks_per_slot: true,
                block_hash_count: 250,
            },
            Environment::Local => ConsensusParams {
                max_authorities: 10,
                allow_multiple_blocks_per_slot: false,
                block_hash_count: 1200,
            },
            Environment::Staging => ConsensusParams {
                max_authorities: 21,
                allow_multiple_blocks_per_slot: false,
                block_hash_count: 2400,
            },
            Environment::Production => ConsensusParams {
                max_authorities: 32,
                allow_multiple_blocks_per_slot: false,
                block_hash_count: 7200,
            },
        }
    }

    /// Get consensus parameters for the environment.
    pub fn for_environment(env: &Environment) -> (params: Self)
        ensures
            params == Self::of(*env),
    {
        match env {
            Environment::Development => ConsensusParams {
                max_authorities: 10,
                allow_multiple_blocks_per_slot: true,
                block_hash_count: 250,
            },
            Environment::Local => ConsensusParams {
                max_authorities: 10,
                allow_multiple_blocks_per_slot: false,
                block_hash_count: 1200,
            },
            Environment::Staging => ConsensusParams {
                max_authorities: 21,
                allow_multiple_blocks_per_slot: false,
                block_hash_count: 2400,
            },
            Environment::Production => ConsensusParams {
                max_authorities: 32,
                allow_multiple_blocks_per_slot: false,
                block_hash_count: 7200,
            },
        }
    }
}

/// Environment-specific network parameters.
#[derive(Debug, Clone, Copy, PartialEq, Eq, Structural)]
pub struct NetworkParams {
    /// The address prefix of the network.
    pub ss58_prefix: u8,
    /// The factor on the standard existential deposit.
    pub existential_deposit_multiplier: u128,
    /// The most consumers of an account.
    pub max_consumers: u32,
}

impl NetworkParams {
    /// The network parameters of each environment.
    pub open spec fn of(env: Environment) -> NetworkParams {
        match env {
            Environment::Development => NetworkParams {
                ss58_prefix: 42,
                existential_deposit_multiplier: 1,
                max_consumers: 16,
            },
            Environment::Local => NetworkParams {
                ss58_prefix: 42,
                existential_deposit_multiplier: 1,
                max_consumers: 16,
            },
            Environment::Staging => NetworkParams {
                ss58_prefix: 42,
                existential_deposit_multiplier: 10,
                max_consumers: 32,
            },
            Environment::Production => NetworkParams {
                ss58_prefix: 42,
                existential_deposit_multiplier: 100,
                max_consumers: 32,
            },
        }
    }

    /// Get network parameters for the environment.
    pub fn for_environment(env: &Environment) -> (params: Self)
        ensures
            params == Self::of(*env),
    {
        match env {
            Environment::Development => NetworkParams {
                ss58_prefix: 42,
                existential_deposit_multiplier: 1,
                max_consumers: 16,
            },
            Environment::Local => NetworkParams {
                ss58_prefix: 42,
                existential_deposit_multiplier: 1,
                max_consumers: 16,
            },
            Environment::Staging => NetworkParams {
                ss58_prefix: 42,
                existential_deposit_multiplier: 10,
                max_consumers: 32,
            },
            Environment::Production => NetworkParams {
                ss58_prefix: 42,
                existential_deposit_multiplier: 100,
                max_consumers: 32,
            },
        }
    }
}

/// Default transactions per block.
pub const RATE_LIMIT_DEFAULT_TXS_PER_BLOCK: u32 = 1000;

/// Default transactions per minute.
pub const RATE_LIMIT_DEFAULT_TXS_PER_MINUTE: u32 = 6000;

/// Most pending transactions of one account.
pub const RATE_LIMIT_MAX_TXS_PER_ACCOUNT: u32 = 1000;

/// Most bytes of the pending transactions of one account.
pub const RATE_LIMIT_MAX_BYTES_PER_ACCOUNT: u32 = 2097152;

/// Most transactions per minute of one account.
pub const RATE_LIMIT_MAX_TXS_PER_MINUTE: u32 = 600;

/// The most authorities.
pub const CONSENSUS_MAX_AUTHORITIES: u32 = 10;

/// Whether several blocks per slot are allowed.
pub const CONSENSUS_ALLOW_MULTIPLE_BLOCKS: bool = true;

/// The number of block hashes that are kept.
pub const CONSENSUS_BLOCK_HASH_COUNT: u32 = 250;

/// The address prefix of the network.
pub const NETWORK_SS58_PREFIX: u8 = 42;

/// The most consumers of an account.
pub const NETWORK_MAX_CONSUMERS: u32 = 16;

/// The parameters that a build of the runtime carries.
#[derive(Debug, Clone, Copy, PartialEq, Eq, Structural)]
pub struct BuildParams {
    /// The rate limiting parameters.
    pub rate_limit: RateLimitParams,
    /// The consensus parameters.
    pub consensus: ConsensusParams,
    /// The address prefix of the network.
    pub ss58_prefix: u8,
    /// The most consumers of an account.
    pub max_consumers: u32,
}

impl BuildParams {
    /// The parameters of this build.
    pub open spec fn current() -> BuildParams {
        BuildParams {
            rate_limit: RateLimitParams {
                default_transactions_per_block: RATE_LIMIT_DEFAULT_TXS_PER_BLOCK,
                default_transactions_per_minute: RATE_LIMIT_DEFAULT_TXS_PER_MINUTE,
                max_transactions_per_account: RATE_LIMIT_MAX_TXS_PER_ACCOUNT,
                max_bytes_per_account: RATE_LIMIT_MAX_BYTES_PER_ACCOUNT,
                max_transactions_per_minute: RATE_LIMIT_MAX_TXS_PER_MINUTE,
            },
            consensus: ConsensusParams {
                max_authorities: CONSENSUS_MAX_AUTHORITIES,
                allow_multiple_blocks_per_slot: CONSENSUS_ALLOW_MULTIPLE_BLOCKS,
                block_hash_count: CONSENSUS_BLOCK_HASH_COUNT,
            },
            ss58_prefix: NETWORK_SS58_PREFIX,
            max_consumers: NETWORK_MAX_CONSUMERS,
        }
    }

    /// The parameters of this build.
    pub fn of_this_build() -> (params: BuildParams)
        ensures
            params == BuildParams::current(),
    {
        BuildParams {
            rate_limit: RateLimitParams {
                default_transactions_per_block: RATE_LIMIT_DEFAULT_TXS_PER_BLOCK,
                default_transactions_per_minute: RATE_LIMIT_DEFAULT_TXS_PER_MINUTE,
                max_transactions_per_account: RATE_LIMIT_MAX_TXS_PER_ACCOUNT,
                max_bytes_per_account: RATE_LIMIT_MAX_BYTES_PER_ACCOUNT,
                max_transactions_per_minute: RATE_LIMIT_MAX_TXS_PER_MINUTE,
            },
            consensus: ConsensusParams {
                max_authorities: CONSENSUS_MAX_AUTHORITIES,
                allow_multiple_blocks_per_slot: CONSENSUS_ALLOW_MULTIPLE_BLOCKS,
                block_hash_count: CONSENSUS_BLOCK_HASH_COUNT,
            },
            ss58_prefix: NETWORK_SS58_PREFIX,
            max_consumers: NETWORK_MAX_CONSUMERS,
        }
    }
}

/// A rule that a build can break.
#[derive(Debug, Clone, Copy, PartialEq, Eq, Structural)]
pub enum Violation {
    /// Production uses the generic address prefix 42.
    GenericPrefix,
    /// Production allows more than 200 transactions per block.
    BlockLimitTooHigh,
    /// Production allows several blocks per slot.
    MultipleBlocksPerSlot,
    /// Production has fewer than three authorities.
    TooFewProductionAuthorities,
    /// Staging has fewer than two authorities.
    TooFewStagingAuthorities,
}

/// The rules that `params` break in `env`, in the order in which they are checked.
pub open spec fn violations(env: Environment, params: BuildParams) -> Seq<Violation> {
    match env {
        Environment::Production => {
            let a = if params.ss58_prefix == 42 {
                seq![Violation::GenericPrefix]
            } else {
                Seq::empty()
            };
            let b = if params.rate_limit.default_transactions_per_block > 200 {
                a.push(Violation::BlockLimitTooHigh)
            } else {
                a
            };
            let c = if params.consensus.allow_multiple_blocks_per_slot {
                b.push(Violation::MultipleBlocksPerSlot)
            } else {
                b
            };
            if params.consensus.max_authorities < 3 {
                c.push(Violation::TooFewProductionAuthorities)
            } else {
                c
            }
        },
        Environment::Staging => if params.consensus.max_authorities < 2 {
            seq![Violation::TooFewStagingAuthorities]
        } else {
            Seq::empty()
        },
        Environment::Local => Seq::empty(),
        Environment::Development => Seq::empty(),
    }
}

/// What is said of a broken rule.
pub open spec fn violation_message(violation: Violation) -> Seq<char> {
    match violation {
        Violation::GenericPrefix =>
            "Production SS58 prefix must not be 42 (generic Substrate prefix)"@,
        Violation::BlockLimitTooHigh => "Production transaction per block limit is too high"@,
        Violation::MultipleBlocksPerSlot =>
            "Production should not allow multiple blocks per slot"@,
        Violation::TooFewProductionAuthorities =>
            "Production should have at least 3 authorities for security"@,
        Violation::TooFewStagingAuthorities =>
            "Staging should have at least 2 authorities for testing"@,
    }
}

/// The messages of `broken`, each on a line of its own.
pub open spec fn joined_messages(broken: Seq<Violation>) -> Seq<char>
    decreases broken.len(),
{
    if broken.len() == 0 {
        Seq::empty()
    } else if broken.len() == 1 {
        violation_message(broken[0])
    } else {
        joined_messages(broken.drop_last()) + "\n"@ + violation_message(broken.last())
    }
}

/// What a failed validation says.
pub open spec fn failure_message(env: Environment, broken: Seq<Violation>) -> Seq<char> {
    env.name() + " environment validation failed:\n"@ + joined_messages(broken)
}

/// Writes what is said of a broken rule.
fn violation_text(violation: Violation) -> (text: &'static str)
    ensures
        text@ == violation_message(violation),
{
    match violation {
        Violation::GenericPrefix =>
            "Production SS58 prefix must not be 42 (generic Substrate prefix)",
        Violation::BlockLimitTooHigh => "Production transaction per block limit is too high",
        Violation::MultipleBlocksPerSlot => "Production should not allow multiple blocks per slot",
        Violation::TooFewProductionAuthorities =>
            "Production should have at least 3 authorities for security",
        Violation::TooFewStagingAuthorities =>
            "Staging should have at least 2 authorities for testing",
    }
}

/// Validation for production environment configuration.
pub struct EnvironmentValidator;

impl EnvironmentValidator {
    /// The rules that `params` break in `env`.
    pub fn check(env: &Environment, params: &BuildParams) -> (broken: Vec<Violation>)
        ensures
            broken@ == violations(*env, *params),
    {
        let mut broken: Vec<Violation> = Vec::new();
        match env {
            Environment::Production => {
                if params.ss58_prefix == 42 {
                    broken.push(Violation::GenericPrefix);
                }
                if params.rate_limit.default_transactions_per_block > 200 {
                    broken.push(Violation::BlockLimitTooHigh);
                }
                if params.consensus.allow_multiple_blocks_per_slot {
                    broken.push(Violation::MultipleBlocksPerSlot);
                }
                if params.consensus.max_authorities < 3 {
                    broken.push(Violation::TooFewProductionAuthorities);
                }
            },
            Environment::Staging => {
                if params.consensus.max_authorities < 2 {
                    broken.push(Violation::TooFewStagingAuthorities);
                }
            },
            Environment::Local => {},
            Environment::Development => {},
        }
        proof {
            assert(broken@ =~= violations(*env, *params));
        }
        broken
    }

    /// Validates `params` for `env`: all is well if no rule is broken, else
    /// the message names the environment and every broken rule.
    pub fn validate_for(env: &Environment, params: &BuildParams) -> (outcome: Result<(), String>)
        ensures
            violations(*env, *params).len() == 0 ==> outcome == Ok::<(), String>(()),
            violations(*env, *params).len() > 0 ==> (outcome matches Err(message) && message@
                == failure_message(*env, violations(*env, *params))),
    {
        let broken = Self::check(env, params);
        if broken.len() == 0 {
            return Ok(());
        }
        let mut message = env.name_text();
        message.append(" environment validation failed:\n");
        let ghost head = message@;
        let mut i: usize = 0;
        while i < broken.len()
            invariant
                i <= broken.len(),
                message@ == head + joined_messages(broken@.take(i as int)),
            decreases broken.len() - i,
        {
            proof {
                assert(broken@.take(i + 1).drop_last() =~= broken@.take(i as int));
                assert(broken@.take(i + 1).last() == broken@[i as int]);
            }
            if i > 0 {
                message.append("\n");
            }
            message.append(violation_text(broken[i]));
            proof {
                let next = broken@.take(i + 1);
                if i == 0 {
                    assert(joined_messages(broken@.take(0)) =~= Seq::<char>::empty());
                    assert(joined_messages(next) == violation_message(broken@[0]));
                    assert(message@ =~= head + joined_messages(next));
                } else {
                    assert(message@ =~= head + joined_messages(next));
                }
            }
            i += 1;
        }
        proof {
            assert(broken@.take(i as int) =~= broken@);
        }
        Err(message)
    }

    /// Validate configuration parameters for the current environment.
    ///
    /// This build is the development build, and its parameters break no rule
    /// of that environment: the validation always passes.
    pub fn validate() -> (outcome: Result<(), String>)
        ensures
            outcome == Ok::<(), String>(()),
    {
        let env = Environment::from_env();
        let params = BuildParams::of_this_build();
        proof {
            assert(violations(env, params) =~= Seq::empty());
        }
        Self::validate_for(&env, &params)
    }

    /// The summary of `params` for `env`.
    pub open spec fn summary(env: Environment, params: BuildParams) -> Seq<char> {
        "Environment: "@ + env.name() + "\nRate Limiting:\n- Default Transactions Per Block: "@
            + decimal(params.rate_limit.default_transactions_per_block as nat)
            + "\n- Default Transactions Per Minute: "@ + decimal(
            params.rate_limit.default_transactions_per_minute as nat,
        ) + "\n- Max Transactions Per Account: "@ + decimal(
            params.rate_limit.max_transactions_per_account as nat,
        ) + "\n- Max Bytes Per Account: "@ + decimal(
            params.rate_limit.max_bytes_per_account as nat,
        ) + " bytes\n- Max Transactions Per Minute: "@ + decimal(
            params.rate_limit.max_transactions_per_minute as nat,
        ) + "\nConsensus:\n- Max Authorities: "@ + decimal(params.consensus.max_authorities as nat)
            + "\n- Allow Multiple Blocks Per Slot: "@ + truth(
            params.consensus.allow_multiple_blocks_per_slot,
        ) + "\n- Block Hash Count: "@ + decimal(params.consensus.block_hash_count as nat)
            + "\nNetwork:\n- SS58 Prefix: "@ + decimal(params.ss58_prefix as nat)
            + "\n- Max Consumers: "@ + decimal(params.max_consumers as nat)
    }

    /// Writes the summary of `params` for `env`.
    pub fn summary_of(env: &Environment, params: &BuildParams) -> (text: String)
        ensures
            text@ == Self::summary(*env, *params),
    {
        let mut text = String::from_str("Environment: ");
        text.append(env.name_text().as_str());
        text.append("\nRate Limiting:\n- Default Transactions Per Block: ");
        text.append(decimal_text(params.rate_limit.default_transactions_per_block as u64).as_str());
        text.append("\n- Default Transactions Per Minute: ");
        text.append(
            decimal_text(params.rate_limit.default_transactions_per_minute as u64).as_str(),
        );
        text.append("\n- Max Transactions Per Account: ");
        text.append(decimal_text(params.rate_limit.max_transactions_per_account as u64).as_str());
        text.append("\n- Max Bytes Per Account: ");
        text.append(decimal_text(params.rate_limit.max_bytes_per_account as u64).as_str());
        text.append(" bytes\n- Max Transactions Per Minute: ");
        text.append(decimal_text(params.rate_limit.max_transactions_per_minute as u64).as_str());
        text.append("\nConsensus:\n- Max Authorities: ");
        text.append(decimal_text(params.consensus.max_authorities as u64).as_str());
        text.append("\n- Allow Multiple Blocks Per Slot: ");
        text.append(truth_text(params.consensus.allow_multiple_blocks_per_slot).as_str());
        text.append("\n- Block Hash Count: ");
        text.append(decimal_text(params.consensus.block_hash_count as u64).as_str());
        text.append("\nNetwork:\n- SS58 Prefix: ");
        text.append(decimal_text(params.ss58_prefix as u64).as_str());
        text.append("\n- Max Consumers: ");
        text.append(decimal_text(params.max_consumers as u64).as_str());
        text
    }

    /// Get a summary of current environment configuration.
    pub fn get_config_summary() -> (text: String)
        ensures
            text@ == Self::summary(Environment::Development, BuildParams::current()),
    {
        Self::summary_of(&Environment::from_env(), &BuildParams::of_this_build())
    }
}

} // verus!
