//! Rate limiting of accounts: the rules by which transactions are let into
//! the pool.

use vstd::prelude::*;
use crate::bounded::{
    stamps_len, stamps_new, stamps_of, stamps_retain_after, stamps_try_push, StampList,
    SESSION_CAPACITY,
};

verus! {

/// The blocks of one minute, at two blocks per second.
pub const BLOCKS_PER_MINUTE: u32 = 120;

/// One minute in milliseconds.
pub const MINUTE_MS: u64 = 60_000;

/// The index of the pallet whose calls are never rate limited.
pub const EXEMPT_PALLET_INDEX: u8 = 5;

/// Whether a timestamp lies after `cutoff`.
pub open spec fn is_after(stamp: u64, cutoff: u64) -> bool {
    stamp > cutoff
}

/// Tells whether a timestamp lies after `cutoff`.
pub fn comes_after(stamp: u64, cutoff: u64) -> (after: bool)
    ensures
        after == is_after(stamp, cutoff),
{
    stamp > cutoff
}

/// The instant one minute before `now`, and the start of time at the earliest.
pub open spec fn minute_cutoff(now: u64) -> u64 {
    if now >= MINUTE_MS {
        (now - MINUTE_MS) as u64
    } else {
        0
    }
}

/// The timestamps of the last minute before `now`.
pub open spec fn within_minute(stamps: Seq<u64>, now: u64) -> Seq<u64> {
    stamps.filter(|stamp: u64| is_after(stamp, minute_cutoff(now)))
}

/// A count grown by one, held at the largest count.
pub open spec fn counted(count: u32) -> u32 {
    if count < u32::MAX {
        (count + 1) as u32
    } else {
        count
    }
}

/// Two counts added, held at the largest count.
pub open spec fn summed(a: u32, b: u32) -> u32 {
    if a + b <= u32::MAX {
        (a + b) as u32
    } else {
        u32::MAX
    }
}

/// Rate limit of an account.
pub struct RateLimit {
    /// Most transactions in one block.
    pub max_per_block: u32,
    /// Most transactions in one minute.
    pub max_per_minute: u32,
    /// Transactions in the current block.
    pub current_block_count: u32,
    /// Timestamps of the recent transactions, in milliseconds.
    pub recent_transactions: StampList,
    /// The block in which the count was last reset.
    pub last_reset_block: u32,
}

/// A rate limit, as a mathematical value.
pub struct RateLimitModel {
    /// Most transactions in one block.
    pub max_per_block: u32,
    /// Most transactions in one minute.
    pub max_per_minute: u32,
    /// Transactions in the current block.
    pub current_block_count: u32,
    /// Timestamps of the recent transactions, in milliseconds.
    pub recent_transactions: Seq<u64>,
    /// The block in which the count was last reset.
    pub last_reset_block: u32,
}

impl View for RateLimit {
    type V = RateLimitModel;

    open spec fn view(&self) -> RateLimitModel {
        RateLimitModel {
            max_per_block: self.max_per_block,
            max_per_minute: self.max_per_minute,
            current_block_count: self.current_block_count,
            recent_transactions: stamps_of(self.recent_transactions),
            last_reset_block: self.last_reset_block,
        }
    }
}

impl RateLimitModel {
    /// The rate limit of an account for which none was set.
    pub open spec fn unset() -> RateLimitModel {
        RateLimitModel {
            max_per_block: 5,
            max_per_minute: 20,
            current_block_count: 0,
            recent_transactions: Seq::empty(),
            last_reset_block: 0,
        }
    }

    /// Whether no rate limit was set.
    pub open spec fn is_unset(self) -> bool {
        self.max_per_block == 5 && self.max_per_minute == 20 && self.current_block_count == 0
            && self.recent_transactions.len() == 0 && self.last_reset_block == 0
    }

    /// The rate limit that holds for an account: its own if one is set,
    /// else the global one if one is set, else the defaults.
    pub open spec fn effective(
        self,
        global: RateLimitModel,
        default_per_block: u32,
        default_per_minute: u32,
    ) -> RateLimitModel {
        if !self.is_unset() {
            self
        } else if !global.is_unset() {
            global
        } else {
            RateLimitModel {
                max_per_block: default_per_block,
                max_per_minute: default_per_minute,
                ..self
            }
        }
    }

    /// The rate limit in block `current_block`: the count starts anew in a new block.
    pub open spec fn at_block(self, current_block: u32) -> RateLimitModel {
        if self.last_reset_block != current_block {
            RateLimitModel { current_block_count: 0, last_reset_block: current_block, ..self }
        } else {
            self
        }
    }

    /// The rate limit after a transaction at `now` in block `current_block`.
    pub open spec fn recorded(self, current_block: u32, now: u64) -> RateLimitModel {
        let current = self.at_block(current_block);
        let pushed = if current.recent_transactions.len() < SESSION_CAPACITY {
            current.recent_transactions.push(now)
        } else {
            current.recent_transactions
        };
        RateLimitModel {
            current_block_count: counted(current.current_block_count),
            recent_transactions: within_minute(pushed, now),
            ..current
        }
    }
}

impl Default for RateLimit {
    /// Five transactions per block and twenty per minute; nothing counted.
    fn default() -> (limit: Self)
        ensures
            limit@ == RateLimitModel::unset(),
    {
        RateLimit {
            max_per_block: 5,
            max_per_minute: 20,
            current_block_count: 0,
            recent_transactions: stamps_new(),
            last_reset_block: 0,
        }
    }
}

impl RateLimit {
    /// A rate limit that was just set, in block `current_block`.
    pub fn new(max_per_block: u32, max_per_minute: u32, current_block: u32) -> (limit: Self)
        ensures
            limit@ == (RateLimitModel {
                max_per_block,
                max_per_minute,
                current_block_count: 0,
                recent_transactions: Seq::empty(),
                last_reset_block: current_block,
            }),
    {
        RateLimit {
            max_per_block,
            max_per_minute,
            current_block_count: 0,
            recent_transactions: stamps_new(),
            last_reset_block: current_block,
        }
    }

    /// Tells whether no rate limit was set.
    pub fn is_unset(&self) -> (unset: bool)
        ensures
            unset == self@.is_unset(),
    {
        self.max_per_block == 5 && self.max_per_minute == 20 && self.current_block_count == 0
            && stamps_len(&self.recent_transactions) == 0 && self.last_reset_block == 0
    }
}

/// Whether limits can be set: both above zero, and the minute allows at
/// least what a block allows.
pub open spec fn limits_valid(max_per_block: u32, max_per_minute: u32) -> bool {
    max_per_block > 0 && max_per_minute > 0 && max_per_minute >= max_per_block
}

/// Tells whether limits can be set.
pub fn valid_rate_limit(max_per_block: u32, max_per_minute: u32) -> (valid: bool)
    ensures
        valid == limits_valid(max_per_block, max_per_minute),
{
    max_per_block > 0 && max_per_minute > 0 && max_per_minute >= max_per_block
}

/// Why a transaction is not let in.
#[derive(Debug, Clone, Copy, PartialEq, Eq, Structural)]
pub enum RateLimitError {
    /// System is in emergency pause mode.
    SystemPaused,
    /// Account has insufficient balance for transactions.
    InsufficientBalance {
        /// The balance that is required.
        required: u128,
        /// The balance of the account.
        actual: u128,
    },
    /// Rate limit exceeded for this block.
    RateLimitExceededPerBlock {
        /// The transactions of the account in this block.
        current_count: u32,
        /// The most it may have.
        limit: u32,
    },
    /// Rate limit exceeded for this minute.
    RateLimitExceededPerMinute {
        /// The transactions of the account in the last minute.
        current_count: u32,
        /// The most it may have.
        limit: u32,
    },
    /// Too many pending transactions for this account.
    TooManyPendingTransactions {
        /// The pending transactions of the account.
        pending_count: u32,
        /// The bytes that they take.
        byte_usage: u32,
    },
    /// Account pool byte limit exceeded.
    AccountPoolLimitExceeded {
        /// The pending transactions of the account.
        pending_count: u32,
        /// The bytes that they take.
        byte_usage: u32,
    },
    /// Per-minute transaction rate limit exceeded.
    MinuteRateLimitExceeded {
        /// The transactions of the account in this minute.
        current_rate: u32,
        /// The most it may have.
        limit: u32,
    },
}

/// What the runtime knows when an account submits a transaction.
#[derive(Debug, Clone, Copy, PartialEq, Eq, Structural)]
pub struct Submission {
    /// Whether the emergency pause is on.
    pub paused: bool,
    /// The free balance of the account.
    pub balance: u128,
    /// The balance that submitting requires.
    pub minimum_balance: u128,
    /// The number of the current block.
    pub current_block: u32,
    /// The timestamp of the current block, in milliseconds.
    pub current_timestamp: u64,
}

/// The outcome of the check of a rate limit.
pub open spec fn rate_check(
    submission: Submission,
    stored: RateLimitModel,
    global: RateLimitModel,
    default_per_block: u32,
    default_per_minute: u32,
) -> Result<(), RateLimitError> {
    let limit = stored.effective(global, default_per_block, default_per_minute).at_block(
        submission.current_block,
    );
    let recent = within_minute(limit.recent_transactions, submission.current_timestamp);
    if submission.paused {
        Err(RateLimitError::SystemPaused)
    } else if submission.balance < submission.minimum_balance {
        Err(
            RateLimitError::InsufficientBalance {
                required: submission.minimum_balance,
                actual: submission.balance,
            },
        )
    } else if limit.current_block_count >= limit.max_per_block {
        Err(
            RateLimitError::RateLimitExceededPerBlock {
                current_count: limit.current_block_count,
                limit: limit.max_per_block,
            },
        )
    } else if recent.len() >= limit.max_per_minute {
        Err(
            RateLimitError::RateLimitExceededPerMinute {
                current_count: recent.len() as u32,
                limit: limit.max_per_minute,
            },
        )
    } else {
        Ok(())
    }
}

/// The rate limit that holds for an account.
fn effective_limit(
    stored: RateLimit,
    global: RateLimit,
    default_per_block: u32,
    default_per_minute: u32,
) -> (limit: RateLimit)
    ensures
        limit@ == stored@.effective(global@, default_per_block, default_per_minute),
{
    if !stored.is_unset() {
        stored
    } else if !global.is_unset() {
        global
    } else {
        let mut limit = stored;
        limit.max_per_block = default_per_block;
        limit.max_per_minute = default_per_minute;
        limit
    }
}

/// The rate limit in block `current_block`.
fn limit_at_block(limit: RateLimit, current_block: u32) -> (current: RateLimit)
    ensures
        current@ == limit@.at_block(current_block),
{
    let mut current = limit;
    if current.last_reset_block != current_block {
        current.current_block_count = 0;
        current.last_reset_block = current_block;
    }
    current
}

/// The instant one minute before `now`.
fn cutoff_before(now: u64) -> (cutoff: u64)
    ensures
        cutoff == minute_cutoff(now),
{
    now.saturating_sub(MINUTE_MS)
}

/// Check if an account can submit a transaction based on rate limits.
pub fn check_rate_limit(
    submission: &Submission,
    stored: RateLimit,
    global: RateLimit,
    default_per_block: u32,
    default_per_minute: u32,
) -> (outcome: Result<(), RateLimitError>)
    ensures
        outcome == rate_check(
            *submission,
            stored@,
            global@,
            default_per_block,
            default_per_minute,
        ),
{
    if submission.paused {
        return Err(RateLimitError::SystemPaused);
    }
    if submission.balance < submission.minimum_balance {
        return Err(
            RateLimitError::InsufficientBalance {
                required: submission.minimum_balance,
                actual: submission.balance,
            },
        );
    }
    let limit = effective_limit(stored, global, default_per_block, default_per_minute);
    let mut limit = limit_at_block(limit, submission.current_block);
    if limit.current_block_count >= limit.max_per_block {
        return Err(
            RateLimitError::RateLimitExceededPerBlock {
                current_count: limit.current_block_count,
                limit: limit.max_per_block,
            },
        );
    }
    let ghost before = stamps_of(limit.recent_transactions);
    stamps_retain_after(&mut limit.recent_transactions, cutoff_before(submission.current_timestamp));
    let recent = stamps_len(&limit.recent_transactions);
    proof {
        assert(stamps_of(limit.recent_transactions) == within_minute(
            before,
            submission.current_timestamp,
        ));
    }
    if recent >= limit.max_per_minute as usize {
        return Err(
            RateLimitError::RateLimitExceededPerMinute {
                current_count: recent as u32,
                limit: limit.max_per_minute,
            },
        );
    }
    Ok(())
}

/// Record a transaction for rate limiting purposes: the rate limit to store.
pub fn record_transaction(
    stored: RateLimit,
    global: RateLimit,
    default_per_block: u32,
    default_per_minute: u32,
    current_block: u32,
    current_timestamp: u64,
) -> (updated: RateLimit)
    ensures
        updated@ == stored@.effective(global@, default_per_block, default_per_minute).recorded(
            current_block,
            current_timestamp,
        ),
{
    let limit = effective_limit(stored, global, default_per_block, default_per_minute);
    let mut limit = limit_at_block(limit, current_block);
    limit.current_block_count = limit.current_block_count.saturating_add(1);
    let _ = stamps_try_push(&mut limit.recent_transactions, current_timestamp);
    stamps_retain_after(&mut limit.recent_transactions, cutoff_before(current_timestamp));
    limit
}

/// Get current rate limit configuration for an account.
pub fn get_rate_limit_info(
    stored: RateLimit,
    global: RateLimit,
    default_per_block: u32,
    default_per_minute: u32,
) -> (limit: RateLimit)
    ensures
        limit@ == stored@.effective(global@, default_per_block, default_per_minute),
{
    effective_limit(stored, global, default_per_block, default_per_minute)
}

/// What the pool holds of an account.
#[derive(Debug, Clone, Copy, PartialEq, Eq, Structural)]
pub struct AccountPoolData {
    /// Pending transactions of the account.
    pub pending_transactions: u32,
    /// Bytes that they take.
    pub total_bytes_used: u32,
    /// The block of the last transaction.
    pub last_transaction_block: u32,
    /// Transactions in the current minute.
    pub transactions_per_minute: u32,
    /// The block in which the minute began.
    pub minute_reset_block: u32,
}

impl Default for AccountPoolData {
    /// Nothing pending, nothing counted.
    fn default() -> (data: Self)
        ensures
            data == (AccountPoolData {
                pending_transactions: 0,
                total_bytes_used: 0,
                last_transaction_block: 0,
                transactions_per_minute: 0,
                minute_reset_block: 0,
            }),
    {
        AccountPoolData {
            pending_transactions: 0,
            total_bytes_used: 0,
            last_transaction_block: 0,
            transactions_per_minute: 0,
            minute_reset_block: 0,
        }
    }
}

/// The limits of the pool for one account.
#[derive(Debug, Clone, Copy, PartialEq, Eq, Structural)]
pub struct PoolLimits {
    /// Most pending transactions of one account.
    pub max_transactions_per_account: u32,
    /// Most bytes of the pending transactions of one account.
    pub max_bytes_per_account: u32,
    /// Most transactions per minute of one account.
    pub max_transactions_per_minute: u32,
}

/// The usage of an account in block `current_block`: the minute starts anew
/// after 120 blocks.
pub open spec fn usage_at_block(usage: AccountPoolData, current_block: u32) -> AccountPoolData {
    if current_block >= usage.minute_reset_block && current_block - usage.minute_reset_block
        >= BLOCKS_PER_MINUTE {
        AccountPoolData { transactions_per_minute: 0, minute_reset_block: current_block, ..usage }
    } else {
        usage
    }
}

/// The outcome of a submission to the pool: the usage to store, or why the
/// transaction is not let in.
pub open spec fn pool_check(
    submission: Submission,
    usage: AccountPoolData,
    transaction_bytes: u32,
    limits: PoolLimits,
) -> Result<AccountPoolData, RateLimitError> {
    let current = usage_at_block(usage, submission.current_block);
    if submission.paused {
        Err(RateLimitError::SystemPaused)
    } else if submission.balance < submission.minimum_balance {
        Err(
            RateLimitError::InsufficientBalance {
                required: submission.minimum_balance,
                actual: submission.balance,
            },
        )
    } else if current.pending_transactions >= limits.max_transactions_per_account {
        Err(
            RateLimitError::TooManyPendingTransactions {
                pending_count: current.pending_transactions,
                byte_usage: current.total_bytes_used,
            },
        )
    } else if summed(current.total_bytes_used, transaction_bytes)
        >= limits.max_bytes_per_account {
        Err(
            RateLimitError::AccountPoolLimitExceeded {
                pending_count: current.pending_transactions,
                byte_usage: current.total_bytes_used,
            },
        )
    } else if current.transactions_per_minute >= limits.max_transactions_per_minute {
        Err(
            RateLimitError::MinuteRateLimitExceeded {
                current_rate: current.transactions_per_minute,
                limit: limits.max_transactions_per_minute,
            },
        )
    } else {
        Ok(
            AccountPoolData {
                pending_transactions: counted(current.pending_transactions),
                total_bytes_used: summed(current.total_bytes_used, transaction_bytes),
                last_transaction_block: submission.current_block,
                transactions_per_minute: counted(current.transactions_per_minute),
                ..current
            },
        )
    }
}

/// Enhanced transaction pool validation for per-account limits.
pub fn can_submit_transaction(
    submission: &Submission,
    usage: AccountPoolData,
    transaction_bytes: u32,
    limits: &PoolLimits,
) -> (outcome: Result<AccountPoolData, RateLimitError>)
    ensures
        outcome == pool_check(*submission, usage, transaction_bytes, *limits),
{
    if submission.paused {
        return Err(RateLimitError::SystemPaused);
    }
    if submission.balance < submission.minimum_balance {
        return Err(
            RateLimitError::InsufficientBalance {
                required: submission.minimum_balance,
                actual: submission.balance,
            },
        );
    }
    let mut usage = usage;
    if submission.current_block.saturating_sub(usage.minute_reset_block) >= BLOCKS_PER_MINUTE {
        usage.transactions_per_minute = 0;
        usage.minute_reset_block = submission.current_block;
    }
    if usage.pending_transactions >= limits.max_transactions_per_account {
        return Err(
            RateLimitError::TooManyPendingTransactions {
                pending_count: usage.pending_transactions,
                byte_usage: usage.total_bytes_used,
            },
        );
    }
    if usage.total_bytes_used.saturating_add(transaction_bytes) >= limits.max_bytes_per_account {
        return Err(
            RateLimitError::AccountPoolLimitExceeded {
                pending_count: usage.pending_transactions,
                byte_usage: usage.total_bytes_used,
            },
        );
    }
    if usage.transactions_per_minute >= limits.max_transactions_per_minute {
        return Err(
            RateLimitError::MinuteRateLimitExceeded {
                current_rate: usage.transactions_per_minute,
                limit: limits.max_transactions_per_minute,
            },
        );
    }
    usage.pending_transactions = usage.pending_transactions.saturating_add(1);
    usage.total_bytes_used = usage.total_bytes_used.saturating_add(transaction_bytes);
    usage.last_transaction_block = submission.current_block;
    usage.transactions_per_minute = usage.transactions_per_minute.saturating_add(1);
    Ok(usage)
}

/// Clean up pool usage when transaction is removed from pool.
pub fn on_transaction_removed(usage: AccountPoolData, transaction_bytes: u32) -> (updated:
    AccountPoolData)
    ensures
        updated == (AccountPoolData {
            pending_transactions: if usage.pending_transactions > 0 {
                (usage.pending_transactions - 1) as u32
            } else {
                0
            },
            total_bytes_used: if usage.total_bytes_used >= transaction_bytes {
                (usage.total_bytes_used - transaction_bytes) as u32
            } else {
                0
            },
            ..usage
        }),
{
    let mut usage = usage;
    usage.pending_transactions = usage.pending_transactions.saturating_sub(1);
    usage.total_bytes_used = usage.total_bytes_used.saturating_sub(transaction_bytes);
    usage
}

/// The pending transactions, their bytes and the number of accounts with
/// pending transactions, over all accounts; each sum is held at the largest count.
pub open spec fn pool_metrics(usages: Seq<AccountPoolData>) -> (u32, u32, u32)
    decreases usages.len(),
{
    if usages.len() == 0 {
        (0, 0, 0)
    } else {
        let so_far = pool_metrics(usages.drop_last());
        let data = usages.last();
        if data.pending_transactions > 0 {
            (
                summed(so_far.0, data.pending_transactions),
                summed(so_far.1, data.total_bytes_used),
                counted(so_far.2),
            )
        } else {
            so_far
        }
    }
}

/// Get global pool metrics.
pub fn get_pool_metrics(usages: &Vec<AccountPoolData>) -> (metrics: (u32, u32, u32))
    ensures
        metrics == pool_metrics(usages@),
{
    let mut total_pending: u32 = 0;
    let mut total_bytes: u32 = 0;
    let mut active_accounts: u32 = 0;
    let mut i: usize = 0;
    while i < usages.len()
        invariant
            i <= usages.len(),
            (total_pending, total_bytes, active_accounts) == pool_metrics(usages@.take(i as int)),
        decreases usages.len() - i,
    {
        let data = usages[i];
        proof {
            assert(usages@.take(i + 1).drop_last() =~= usages@.take(i as int));
            assert(usages@.take(i + 1).last() == data);
        }
        if data.pending_transactions > 0 {
            active_accounts = active_accounts.saturating_add(1);
            total_pending = total_pending.saturating_add(data.pending_transactions);
            total_bytes = total_bytes.saturating_add(data.total_bytes_used);
        }
        i += 1;
    }
    proof {
        assert(usages@.take(i as int) =~= usages@);
    }
    (total_pending, total_bytes, active_accounts)
}

/// Whether the pool looks as if under attack: more than 1000 pending
/// transactions, more than 5 MB, or more than 100 accounts with pending
/// transactions.
pub open spec fn under_attack(metrics: (u32, u32, u32)) -> bool {
    metrics.0 > 1000 || metrics.1 > 5242880 || metrics.2 > 100
}

/// Check if system is under attack (high resource usage).
pub fn is_under_attack(usages: &Vec<AccountPoolData>) -> (attacked: bool)
    ensures
        attacked == under_attack(pool_metrics(usages@)),
{
    let (total_pending, total_bytes, active_accounts) = get_pool_metrics(usages);
    total_pending > 1000 || total_bytes > 5 * 1024 * 1024 || active_accounts > 100
}

/// Whether an encoded call is rate limited: every call but those of the
/// exempt pallet, which is named by the first byte.
pub open spec fn rate_limited(encoded_call: Seq<u8>) -> bool {
    !(encoded_call.len() > 0 && encoded_call[0] == EXEMPT_PALLET_INDEX)
}

/// Check if a call should be rate limited.
pub fn should_rate_limit(encoded_call: &Vec<u8>) -> (limited: bool)
    ensures
        limited == rate_limited(encoded_call@),
{
    if encoded_call.len() > 0 {
        if encoded_call[0] == EXEMPT_PALLET_INDEX {
            return false;
        }
    }
    true
}

/// Why a transaction is invalid.
#[derive(Debug, Clone, Copy, PartialEq, Eq, Structural)]
pub enum InvalidTransaction {
    /// The transaction would exhaust the resources of the account.
    ExhaustsResources,
    /// The call of the transaction is not expected.
    Call,
}

/// What validation says of a transaction.
#[derive(Debug, Clone, Copy, PartialEq, Eq, Structural)]
pub enum Validity {
    /// The transaction is not subject to rate limiting.
    Exempt,
    /// The transaction is valid.
    Valid {
        /// The priority of the transaction.
        priority: u64,
        /// The number of blocks for which it stays valid.
        longevity: u64,
        /// Whether it is passed on to other nodes.
        propagate: bool,
    },
    /// The transaction is invalid.
    Invalid(InvalidTransaction),
}

/// The outcome of validation: what is said of the transaction, and the pool
/// usage of the account to store, if it changed.
#[derive(Debug, Clone, Copy, PartialEq, Eq, Structural)]
pub struct Validation {
    /// What is said of the transaction.
    pub validity: Validity,
    /// The pool usage of the account to store, if it changed.
    pub usage: Option<AccountPoolData>,
}

/// The size of a call as the pool counts it: its length in 32 bits.
pub open spec fn counted_bytes(len: nat) -> u32 {
    (len % 0x1_0000_0000) as u32
}

/// The outcome of the validation of a transaction.
///
/// Unsigned transactions and exempt calls pass. Else the pool limits are
/// checked first, then the rate limit; either refusal exhausts resources.
/// The pool usage is stored as soon as the pool limits have passed.
pub open spec fn validation(
    signed: bool,
    encoded_call: Seq<u8>,
    submission: Submission,
    usage: AccountPoolData,
    limits: PoolLimits,
    stored: RateLimitModel,
    global: RateLimitModel,
    default_per_block: u32,
    default_per_minute: u32,
) -> Validation {
    if !signed || !rate_limited(encoded_call) {
        Validation { validity: Validity::Exempt, usage: None }
    } else {
        match pool_check(submission, usage, counted_bytes(encoded_call.len()), limits) {
            Err(_) => Validation {
                validity: Validity::Invalid(InvalidTransaction::ExhaustsResources),
                usage: None,
            },
            Ok(updated) => match rate_check(
                submission,
                stored,
                global,
                default_per_block,
                default_per_minute,
            ) {
                Ok(_) => Validation {
                    validity: Validity::Valid { priority: 0, longevity: 64, propagate: true },
                    usage: Some(updated),
                },
                Err(_) => Validation {
                    validity: Validity::Invalid(InvalidTransaction::ExhaustsResources),
                    usage: Some(updated),
                },
            },
        }
    }
}

/// Validates a transaction before it enters the pool.
pub fn validate(
    signed: bool,
    encoded_call: &Vec<u8>,
    submission: &Submission,
    usage: AccountPoolData,
    limits: &PoolLimits,
    stored: RateLimit,
    global: RateLimit,
    default_per_block: u32,
    default_per_minute: u32,
) -> (outcome: Validation)
    ensures
        outcome == validation(
            signed,
            encoded_call@,
            *submission,
            usage,
            *limits,
            stored@,
            global@,
            default_per_block,
            default_per_minute,
        ),
{
    if !signed {
        return Validation { validity: Validity::Exempt, usage: None };
    }
    if !should_rate_limit(encoded_call) {
        return Validation { validity: Validity::Exempt, usage: None };
    }
    let transaction_bytes = (encoded_call.len() as u64 % 0x1_0000_0000) as u32;
    let updated = match can_submit_transaction(submission, usage, transaction_bytes, limits) {
        Ok(updated) => updated,
        Err(_) => {
            return Validation {
                validity: Validity::Invalid(InvalidTransaction::ExhaustsResources),
                usage: None,
            };
        },
    };
    match check_rate_limit(submission, stored, global, default_per_block, default_per_minute) {
        Ok(_) => Validation {
            validity: Validity::Valid { priority: 0, longevity: 64, propagate: true },
            usage: Some(updated),
        },
        Err(_) => Validation {
            validity: Validity::Invalid(InvalidTransaction::ExhaustsResources),
            usage: Some(updated),
        },
    }
}

/// What is to be done after a transaction was dispatched.
#[derive(Debug, Clone, Copy, PartialEq, Eq, Structural)]
pub enum PostDispatch {
    /// Record the transaction of the account; charged with a weight of 10000.
    Record,
    /// Take the transaction of this many bytes out of the pool usage of the
    /// account; charged with a weight of 5000.
    CleanUp(u32),
    /// Nothing: the transaction was unsigned.
    Nothing,
}

impl PostDispatch {
    /// The weight that is charged.
    pub open spec fn charged(self) -> u64 {
        match self {
            PostDispatch::Record => 10_000,
            PostDispatch::CleanUp(_) => 5_000,
            PostDispatch::Nothing => 0,
        }
    }

    /// The weight that is charged.
    pub fn weight(&self) -> (weight: u64)
        ensures
            weight == self.charged(),
    {
        match self {
            PostDispatch::Record => 10_000,
            PostDispatch::CleanUp(_) => 5_000,
            PostDispatch::Nothing => 0,
        }
    }
}

/// What is to be done after a transaction of `len` bytes was dispatched.
pub fn post_dispatch_details(signed: bool, len: usize, succeeded: bool) -> (details: PostDispatch)
    ensures
        details == if !signed {
            PostDispatch::Nothing
        } else if succeeded {
            PostDispatch::Record
        } else {
            PostDispatch::CleanUp(counted_bytes(len as nat))
        },
{
    if !signed {
        PostDispatch::Nothing
    } else if succeeded {
        PostDispatch::Record
    } else {
        PostDispatch::CleanUp((len as u64 % 0x1_0000_0000) as u32)
    }
}

/// The priority that rate limited transactions get: the middle of the range.
pub fn get_priority() -> (priority: u64)
    ensures
        priority == 0x7fff_ffff_ffff_ffff,
{
    u64::MAX / 2
}

} // verus!
