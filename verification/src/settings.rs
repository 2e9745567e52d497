//! AWS, queue and topic settings, read from a snapshot of the environment.

use vstd::prelude::*;
use vstd::string::*;

use crate::errors::SettingsError;
use crate::models::{backoff_from_key, backoff_key, lemma_backoff_name_round_trip, BackoffFunction};
use crate::text::{
    decimal, decimal_string, is_digit, lemma_decimal_digits, lemma_decimal_parse_round_trip,
    parse_i32, parse_u32, parse_u64, parse_usize, signed_i32_parse, unsigned_parse, NumberErrorKind,
};
use crate::trusted::{debug_str, json_encode_str, json_str, str_debug};
use crate::utils::{get_var, EnvVars};

verus! {

/// The integer types that numeric settings are read as.
#[derive(Debug, Clone, Copy, PartialEq, Eq, Structural)]
pub enum NumberKind {
    U64,
    U32,
    Usize,
    I32,
}

/// What `str::parse` gives for `s` as a value of the given type: the
/// number, or the kind of its error.
pub open spec fn parse_number_result(s: Seq<char>, kind: NumberKind) -> Result<
    int,
    NumberErrorKind,
> {
    match kind {
        NumberKind::U64 => match unsigned_parse(s, u64::MAX as nat) {
            Ok(v) => Ok(v as int),
            Err(e) => Err(e),
        },
        NumberKind::U32 => match unsigned_parse(s, u32::MAX as nat) {
            Ok(v) => Ok(v as int),
            Err(e) => Err(e),
        },
        NumberKind::Usize => match unsigned_parse(s, usize::MAX as nat) {
            Ok(v) => Ok(v as int),
            Err(e) => Err(e),
        },
        NumberKind::I32 => signed_i32_parse(s),
    }
}

/// The number that `s` denotes as a value of the given type, as
/// `str::parse` reads it.
pub open spec fn parse_number(s: Seq<char>, kind: NumberKind) -> Option<int> {
    match parse_number_result(s, kind) {
        Ok(v) => Some(v),
        Err(_) => None,
    }
}

/// The number held by the variable `key`, if it is set and holds one.
pub open spec fn var_number(env: EnvVars, key: Seq<char>, kind: NumberKind) -> Option<int> {
    match env.spec_get(key) {
        Some(v) => parse_number(v, kind),
        None => None,
    }
}

/// Whether `e` is the error for the numeric variable `key`: missing when
/// it is not set, else an invalid number with the kind of error that
/// `str::parse` gives for its value.
pub open spec fn var_failure(
    env: EnvVars,
    key: Seq<char>,
    kind: NumberKind,
    e: SettingsError,
) -> bool {
    match env.spec_get(key) {
        None => match e {
            SettingsError::MissingVariable { key: k } => k@ == key,
            _ => false,
        },
        Some(v) => match e {
            SettingsError::InvalidNumber { key: k, value, reason } => k@ == key && value@ == v
                && parse_number_result(v, kind) == Err::<int, NumberErrorKind>(reason),
            _ => false,
        },
    }
}

/// Whether the first `n` of the numeric variables `keys` are set and hold
/// numbers.
pub open spec fn numbers_read(env: EnvVars, keys: Seq<(Seq<char>, NumberKind)>, n: int) -> bool
    decreases n,
{
    if n <= 0 {
        true
    } else {
        numbers_read(env, keys, n - 1) && var_number(env, keys[n - 1].0, keys[n - 1].1) is Some
    }
}

/// Whether `e` is the error for the first numeric variable of `keys` that is
/// missing or invalid.
pub open spec fn first_number_failure(
    env: EnvVars,
    keys: Seq<(Seq<char>, NumberKind)>,
    e: SettingsError,
) -> bool {
    exists|i: int|
        0 <= i < keys.len() && numbers_read(env, keys, i) && var_number(
            env,
            #[trigger] keys[i].0,
            keys[i].1,
        ) is None && var_failure(env, keys[i].0, keys[i].1, e)
}

proof fn lemma_numbers_read_each(env: EnvVars, keys: Seq<(Seq<char>, NumberKind)>, i: int, n: int)
    requires
        0 <= i < n,
        numbers_read(env, keys, n),
    ensures
        var_number(env, keys[i].0, keys[i].1) is Some,
    decreases n,
{
    if i < n - 1 {
        lemma_numbers_read_each(env, keys, i, n - 1);
    }
}

/// When variable `i` is the first to fail, its error is the error of the
/// whole list and the list is not read.
proof fn lemma_first_failure(
    env: EnvVars,
    keys: Seq<(Seq<char>, NumberKind)>,
    i: int,
    e: SettingsError,
)
    requires
        0 <= i < keys.len(),
        numbers_read(env, keys, i),
        var_number(env, keys[i].0, keys[i].1) is None,
        var_failure(env, keys[i].0, keys[i].1, e),
    ensures
        first_number_failure(env, keys, e),
        !numbers_read(env, keys, keys.len() as int),
{
    if numbers_read(env, keys, keys.len() as int) {
        lemma_numbers_read_each(env, keys, i, keys.len() as int);
    }
}

/// The value of variable `i` of `keys`.
pub open spec fn nth_number(env: EnvVars, keys: Seq<(Seq<char>, NumberKind)>, i: int) -> int {
    var_number(env, keys[i].0, keys[i].1).unwrap()
}

fn read_u64(env: &EnvVars, key: &str) -> (res: Result<u64, SettingsError>)
    ensures
        match var_number(*env, key@, NumberKind::U64) {
            Some(n) => res == Ok::<u64, SettingsError>(n as u64),
            None => res matches Err(e) && var_failure(*env, key@, NumberKind::U64, e),
        },
{
    match get_var(env, key) {
        Ok(v) => match parse_u64(v.as_str()) {
            Ok(n) => Ok(n),
            Err(reason) => Err(
                SettingsError::InvalidNumber { key: key.to_owned(), value: v, reason },
            ),
        },
        Err(e) => Err(e),
    }
}

fn read_u32(env: &EnvVars, key: &str) -> (res: Result<u32, SettingsError>)
    ensures
        match var_number(*env, key@, NumberKind::U32) {
            Some(n) => res == Ok::<u32, SettingsError>(n as u32),
            None => res matches Err(e) && var_failure(*env, key@, NumberKind::U32, e),
        },
{
    match get_var(env, key) {
        Ok(v) => match parse_u32(v.as_str()) {
            Ok(n) => Ok(n),
            Err(reason) => Err(
                SettingsError::InvalidNumber { key: key.to_owned(), value: v, reason },
            ),
        },
        Err(e) => Err(e),
    }
}

fn read_usize(env: &EnvVars, key: &str) -> (res: Result<usize, SettingsError>)
    ensures
        match var_number(*env, key@, NumberKind::Usize) {
            Some(n) => res == Ok::<usize, SettingsError>(n as usize),
            None => res matches Err(e) && var_failure(*env, key@, NumberKind::Usize, e),
        },
{
    match get_var(env, key) {
        Ok(v) => match parse_usize(v.as_str()) {
            Ok(n) => Ok(n),
            Err(reason) => Err(
                SettingsError::InvalidNumber { key: key.to_owned(), value: v, reason },
            ),
        },
        Err(e) => Err(e),
    }
}

fn read_i32(env: &EnvVars, key: &str) -> (res: Result<i32, SettingsError>)
    ensures
        match var_number(*env, key@, NumberKind::I32) {
            Some(n) => res == Ok::<i32, SettingsError>(n as i32),
            None => res matches Err(e) && var_failure(*env, key@, NumberKind::I32, e),
        },
{
    match get_var(env, key) {
        Ok(v) => match parse_i32(v.as_str()) {
            Ok(n) => Ok(n),
            Err(reason) => Err(
                SettingsError::InvalidNumber { key: key.to_owned(), value: v, reason },
            ),
        },
        Err(e) => Err(e),
    }
}


/// The variables that queue settings are read from, in the order they are
/// read, with the type of each.
pub open spec fn queue_setting_keys() -> Seq<(Seq<char>, NumberKind)> {
    seq![
        ("PUBSUB_QUEUE_MESSAGE_RETENTION_PERIOD_MS"@, NumberKind::U64),
        ("PUBSUB_QUEUE_RETRY_INTERVAL_MS"@, NumberKind::U64),
        ("PUBSUB_QUEUE_MAX_MESSAGE_COUNT"@, NumberKind::Usize),
        ("PUBSUB_QUEUE_RETRY_COUNT"@, NumberKind::Usize),
        ("PUBSUB_QUEUE_WAIT_TIME_SECONDS"@, NumberKind::I32),
        ("PUBSUB_QUEUE_VISIBILITY_TIMEOUT_SECS"@, NumberKind::U32),
    ]
}

/// How queues are polled and configured.
#[derive(Debug, Clone, Copy)]
pub struct QueueSettings {
    /// Most messages fetched by one receive call.
    pub max_message_count: usize,
    /// Attempts of a failing receive call before giving up for this poll.
    pub retry_count: usize,
    /// Base of the exponential backoff between attempts, in milliseconds.
    pub retry_interval_ms: u64,
    /// How long a queue keeps a message, in milliseconds.
    pub message_retention_ms: u64,
    /// Long-polling wait of a receive call, in seconds.
    pub wait_time_seconds: i32,
    /// How long a received message stays hidden from other receivers.
    pub visibility_timeout_secs: u32,
}

impl QueueSettings {
    pub fn new(
        max_message_count: usize,
        retry_count: usize,
        retry_interval_ms: u64,
        message_retention_ms: u64,
        wait_time_seconds: i32,
        visibility_timeout_secs: u32,
    ) -> (res: Self)
        ensures
            res.max_message_count == max_message_count,
            res.retry_count == retry_count,
            res.retry_interval_ms == retry_interval_ms,
            res.message_retention_ms == message_retention_ms,
            res.wait_time_seconds == wait_time_seconds,
            res.visibility_timeout_secs == visibility_timeout_secs,
    {
        QueueSettings {
            max_message_count,
            retry_count,
            retry_interval_ms,
            message_retention_ms,
            wait_time_seconds,
            visibility_timeout_secs,
        }
    }

    /// Reads the settings from the `PUBSUB_QUEUE_*` variables of
    /// `queue_setting_keys`. The first variable that is missing or does not
    /// hold a number of its type gives the error.
    pub fn from_env(env: &EnvVars) -> (res: Result<Self, SettingsError>)
        ensures
            ({
                let keys = queue_setting_keys();
                &&& res is Ok <==> numbers_read(*env, keys, 6)
                &&& res matches Ok(q) ==> q.message_retention_ms == nth_number(*env, keys, 0)
                    && q.retry_interval_ms == nth_number(*env, keys, 1) && q.max_message_count
                    == nth_number(*env, keys, 2) && q.retry_count == nth_number(*env, keys, 3)
                    && q.wait_time_seconds == nth_number(*env, keys, 4)
                    && q.visibility_timeout_secs == nth_number(*env, keys, 5)
                &&& res matches Ok(q) ==> var_number(
                    *env,
                    "PUBSUB_QUEUE_MESSAGE_RETENTION_PERIOD_MS"@,
                    NumberKind::U64,
                ) == Some(q.message_retention_ms as int) && var_number(
                    *env,
                    "PUBSUB_QUEUE_RETRY_INTERVAL_MS"@,
                    NumberKind::U64,
                ) == Some(q.retry_interval_ms as int) && var_number(
                    *env,
                    "PUBSUB_QUEUE_MAX_MESSAGE_COUNT"@,
                    NumberKind::Usize,
                ) == Some(q.max_message_count as int) && var_number(
                    *env,
                    "PUBSUB_QUEUE_RETRY_COUNT"@,
                    NumberKind::Usize,
                ) == Some(q.retry_count as int) && var_number(
                    *env,
                    "PUBSUB_QUEUE_WAIT_TIME_SECONDS"@,
                    NumberKind::I32,
                ) == Some(q.wait_time_seconds as int) && var_number(
                    *env,
                    "PUBSUB_QUEUE_VISIBILITY_TIMEOUT_SECS"@,
                    NumberKind::U32,
                ) == Some(q.visibility_timeout_secs as int)
                &&& res matches Err(e) ==> first_number_failure(*env, keys, e)
            }),
    {
        let ghost keys = queue_setting_keys();
        assert(numbers_read(*env, keys, 0));
        let message_retention_ms = match read_u64(env, "PUBSUB_QUEUE_MESSAGE_RETENTION_PERIOD_MS") {
            Ok(v) => v,
            Err(e) => {
                proof {
                    lemma_first_failure(*env, keys, 0, e);
                }
                return Err(e);
            },
        };
        assert(numbers_read(*env, keys, 1));
        let retry_interval_ms = match read_u64(env, "PUBSUB_QUEUE_RETRY_INTERVAL_MS") {
            Ok(v) => v,
            Err(e) => {
                proof {
                    lemma_first_failure(*env, keys, 1, e);
                }
                return Err(e);
            },
        };
        assert(numbers_read(*env, keys, 2));
        let max_message_count = match read_usize(env, "PUBSUB_QUEUE_MAX_MESSAGE_COUNT") {
            Ok(v) => v,
            Err(e) => {
                proof {
                    lemma_first_failure(*env, keys, 2, e);
                }
                return Err(e);
            },
        };
        assert(numbers_read(*env, keys, 3));
        let retry_count = match read_usize(env, "PUBSUB_QUEUE_RETRY_COUNT") {
            Ok(v) => v,
            Err(e) => {
                proof {
                    lemma_first_failure(*env, keys, 3, e);
                }
                return Err(e);
            },
        };
        assert(numbers_read(*env, keys, 4));
        let wait_time_seconds = match read_i32(env, "PUBSUB_QUEUE_WAIT_TIME_SECONDS") {
            Ok(v) => v,
            Err(e) => {
                proof {
                    lemma_first_failure(*env, keys, 4, e);
                }
                return Err(e);
            },
        };
        assert(numbers_read(*env, keys, 5));
        let visibility_timeout_secs = match read_u32(env, "PUBSUB_QUEUE_VISIBILITY_TIMEOUT_SECS") {
            Ok(v) => v,
            Err(e) => {
                proof {
                    lemma_first_failure(*env, keys, 5, e);
                }
                return Err(e);
            },
        };
        assert(numbers_read(*env, keys, 6));
        Ok(
            Self::new(
                max_message_count,
                retry_count,
                retry_interval_ms,
                message_retention_ms,
                wait_time_seconds,
                visibility_timeout_secs,
            ),
        )
    }
}


/// A value written in decimal is read back as a value of any type that
/// holds it.
proof fn lemma_decimal_number(n: nat, kind: NumberKind)
    requires
        match kind {
            NumberKind::U64 => n <= u64::MAX,
            NumberKind::U32 => n <= u32::MAX,
            NumberKind::Usize => n <= usize::MAX,
            NumberKind::I32 => n <= i32::MAX,
        },
    ensures
        parse_number(decimal(n), kind) == Some(n as int),
{
    match kind {
        NumberKind::U64 => lemma_decimal_parse_round_trip(n, u64::MAX as nat),
        NumberKind::U32 => lemma_decimal_parse_round_trip(n, u32::MAX as nat),
        NumberKind::Usize => lemma_decimal_parse_round_trip(n, usize::MAX as nat),
        NumberKind::I32 => {
            lemma_decimal_digits(n);
            assert(is_digit(decimal(n)[0]));
            lemma_decimal_parse_round_trip(n, 0x7fff_ffff);
        },
    }
}

/// Queue settings written to their variables in decimal are read back
/// unchanged (a negative wait time has no decimal form without a sign).
pub proof fn lemma_queue_settings_read_back(env: EnvVars, q: QueueSettings)
    requires
        q.wait_time_seconds >= 0,
        env.spec_get("PUBSUB_QUEUE_MESSAGE_RETENTION_PERIOD_MS"@) == Some(
            decimal(q.message_retention_ms as nat),
        ),
        env.spec_get("PUBSUB_QUEUE_RETRY_INTERVAL_MS"@) == Some(decimal(q.retry_interval_ms as nat)),
        env.spec_get("PUBSUB_QUEUE_MAX_MESSAGE_COUNT"@) == Some(decimal(q.max_message_count as nat)),
        env.spec_get("PUBSUB_QUEUE_RETRY_COUNT"@) == Some(decimal(q.retry_count as nat)),
        env.spec_get("PUBSUB_QUEUE_WAIT_TIME_SECONDS"@) == Some(decimal(q.wait_time_seconds as nat)),
        env.spec_get("PUBSUB_QUEUE_VISIBILITY_TIMEOUT_SECS"@) == Some(
            decimal(q.visibility_timeout_secs as nat),
        ),
    ensures
        var_number(env, "PUBSUB_QUEUE_MESSAGE_RETENTION_PERIOD_MS"@, NumberKind::U64) == Some(
            q.message_retention_ms as int,
        ),
        var_number(env, "PUBSUB_QUEUE_RETRY_INTERVAL_MS"@, NumberKind::U64) == Some(
            q.retry_interval_ms as int,
        ),
        var_number(env, "PUBSUB_QUEUE_MAX_MESSAGE_COUNT"@, NumberKind::Usize) == Some(
            q.max_message_count as int,
        ),
        var_number(env, "PUBSUB_QUEUE_RETRY_COUNT"@, NumberKind::Usize) == Some(
            q.retry_count as int,
        ),
        var_number(env, "PUBSUB_QUEUE_WAIT_TIME_SECONDS"@, NumberKind::I32) == Some(
            q.wait_time_seconds as int,
        ),
        var_number(env, "PUBSUB_QUEUE_VISIBILITY_TIMEOUT_SECS"@, NumberKind::U32) == Some(
            q.visibility_timeout_secs as int,
        ),
        numbers_read(env, queue_setting_keys(), 6),
        nth_number(env, queue_setting_keys(), 0) == q.message_retention_ms,
        nth_number(env, queue_setting_keys(), 1) == q.retry_interval_ms,
        nth_number(env, queue_setting_keys(), 2) == q.max_message_count,
        nth_number(env, queue_setting_keys(), 3) == q.retry_count,
        nth_number(env, queue_setting_keys(), 4) == q.wait_time_seconds,
        nth_number(env, queue_setting_keys(), 5) == q.visibility_timeout_secs,
{
    let keys = queue_setting_keys();
    lemma_decimal_number(q.message_retention_ms as nat, NumberKind::U64);
    lemma_decimal_number(q.retry_interval_ms as nat, NumberKind::U64);
    lemma_decimal_number(q.max_message_count as nat, NumberKind::Usize);
    lemma_decimal_number(q.retry_count as nat, NumberKind::Usize);
    lemma_decimal_number(q.wait_time_seconds as nat, NumberKind::I32);
    lemma_decimal_number(q.visibility_timeout_secs as nat, NumberKind::U32);
    assert(numbers_read(env, keys, 0));
    assert(numbers_read(env, keys, 1));
    assert(numbers_read(env, keys, 2));
    assert(numbers_read(env, keys, 3));
    assert(numbers_read(env, keys, 4));
    assert(numbers_read(env, keys, 5));
    assert(numbers_read(env, keys, 6));
}

/// The variables that the numeric topic settings are read from, in the
/// order they are read.
pub open spec fn topic_setting_keys() -> Seq<(Seq<char>, NumberKind)> {
    seq![
        ("PUBSUB_TOPIC_MIN_DELAY_TARGET_SECS"@, NumberKind::U32),
        ("PUBSUB_TOPIC_MAX_DELAY_TARGET_SECS"@, NumberKind::U32),
        ("PUBSUB_TOPIC_NUM_RETRIES"@, NumberKind::U32),
        ("PUBSUB_TOPIC_NUM_MAX_DELAY_RETRIES"@, NumberKind::U32),
        ("PUBSUB_TOPIC_NUM_NO_DELAY_RETRIES"@, NumberKind::U32),
        ("PUBSUB_TOPIC_NUM_MIN_DELAY_RETRIES"@, NumberKind::U32),
    ]
}

/// The variable that names the backoff function of topic settings.
pub open spec fn backoff_setting_key() -> Seq<char> {
    "PUBSUB_TOPIC_BACKOFF_FUNCTION"@
}

/// The backoff function that the environment names, if it names one.
pub open spec fn backoff_var(env: EnvVars) -> Option<BackoffFunction> {
    match env.spec_get(backoff_setting_key()) {
        Some(v) => backoff_from_key(backoff_key(v)),
        None => None,
    }
}

/// Whether `e` is the error for the backoff variable: missing when it is not
/// set, an unknown function (trimmed and lower-cased) when it is.
pub open spec fn backoff_failure(env: EnvVars, e: SettingsError) -> bool {
    match env.spec_get(backoff_setting_key()) {
        None => match e {
            SettingsError::MissingVariable { key } => key@ == backoff_setting_key(),
            _ => false,
        },
        Some(v) => match e {
            SettingsError::UnknownBackoffFunction { value } => value@ == backoff_key(v),
            _ => false,
        },
    }
}

/// The delivery policy text of an SNS topic, as `serde_json` writes the
/// object: keys in sorted order, no white space.
pub open spec fn delivery_policy_text(t: TopicSettings) -> Seq<char> {
    "{\"http\":{\"defaultHealthyRetryPolicy\":{\"backoffFunction\":"@ + json_str(
        t.backoff_function.spec_name(),
    ) + ",\"maxDelayTarget\":"@ + decimal(t.max_delay_target_secs as nat)
        + ",\"minDelayTarget\":"@ + decimal(t.min_delay_target_secs as nat)
        + ",\"numMaxDelayRetries\":"@ + decimal(t.num_max_delay_retries as nat)
        + ",\"numMinDelayRetries\":"@ + decimal(t.num_min_delay_retries as nat)
        + ",\"numNoDelayRetries\":"@ + decimal(t.num_no_delay_retries as nat)
        + ",\"numRetries\":"@ + decimal(t.num_retries as nat)
        + "},\"disableSubscriptionOverrides\":false}}"@
}

/// Topic settings written to the variables named after their fields, the
/// numbers in decimal and the backoff function by its name, are read back
/// unchanged: every numeric variable holds a number, the number in each
/// variable is the field of that name, and the backoff variable names the
/// settings' function.
pub proof fn lemma_topic_settings_read_back(env: EnvVars, t: TopicSettings)
    requires
        env.spec_get("PUBSUB_TOPIC_MIN_DELAY_TARGET_SECS"@) == Some(
            decimal(t.min_delay_target_secs as nat),
        ),
        env.spec_get("PUBSUB_TOPIC_MAX_DELAY_TARGET_SECS"@) == Some(
            decimal(t.max_delay_target_secs as nat),
        ),
        env.spec_get("PUBSUB_TOPIC_NUM_RETRIES"@) == Some(decimal(t.num_retries as nat)),
        env.spec_get("PUBSUB_TOPIC_NUM_MAX_DELAY_RETRIES"@) == Some(
            decimal(t.num_max_delay_retries as nat),
        ),
        env.spec_get("PUBSUB_TOPIC_NUM_NO_DELAY_RETRIES"@) == Some(
            decimal(t.num_no_delay_retries as nat),
        ),
        env.spec_get("PUBSUB_TOPIC_NUM_MIN_DELAY_RETRIES"@) == Some(
            decimal(t.num_min_delay_retries as nat),
        ),
        env.spec_get("PUBSUB_TOPIC_BACKOFF_FUNCTION"@) == Some(t.backoff_function.spec_name()),
    ensures
        numbers_read(env, topic_setting_keys(), 6),
        backoff_var(env) == Some(t.backoff_function),
        var_number(env, "PUBSUB_TOPIC_MIN_DELAY_TARGET_SECS"@, NumberKind::U32) == Some(
            t.min_delay_target_secs as int,
        ),
        var_number(env, "PUBSUB_TOPIC_MAX_DELAY_TARGET_SECS"@, NumberKind::U32) == Some(
            t.max_delay_target_secs as int,
        ),
        var_number(env, "PUBSUB_TOPIC_NUM_RETRIES"@, NumberKind::U32) == Some(
            t.num_retries as int,
        ),
        var_number(env, "PUBSUB_TOPIC_NUM_MAX_DELAY_RETRIES"@, NumberKind::U32) == Some(
            t.num_max_delay_retries as int,
        ),
        var_number(env, "PUBSUB_TOPIC_NUM_NO_DELAY_RETRIES"@, NumberKind::U32) == Some(
            t.num_no_delay_retries as int,
        ),
        var_number(env, "PUBSUB_TOPIC_NUM_MIN_DELAY_RETRIES"@, NumberKind::U32) == Some(
            t.num_min_delay_retries as int,
        ),
{
    let keys = topic_setting_keys();
    lemma_decimal_number(t.min_delay_target_secs as nat, NumberKind::U32);
    lemma_decimal_number(t.max_delay_target_secs as nat, NumberKind::U32);
    lemma_decimal_number(t.num_retries as nat, NumberKind::U32);
    lemma_decimal_number(t.num_max_delay_retries as nat, NumberKind::U32);
    lemma_decimal_number(t.num_no_delay_retries as nat, NumberKind::U32);
    lemma_decimal_number(t.num_min_delay_retries as nat, NumberKind::U32);
    lemma_backoff_name_round_trip(t.backoff_function);
    assert(numbers_read(env, keys, 0));
    assert(numbers_read(env, keys, 1));
    assert(numbers_read(env, keys, 2));
    assert(numbers_read(env, keys, 3));
    assert(numbers_read(env, keys, 4));
    assert(numbers_read(env, keys, 5));
    assert(numbers_read(env, keys, 6));
}

/// Whether `text` holds, somewhere, `key_part` directly followed by `value`
/// and then by `,` or `}`: the member `key_part` of a JSON object with the
/// value `value`.
pub open spec fn has_member(text: Seq<char>, key_part: Seq<char>, value: Seq<char>) -> bool {
    exists|i: int|
        0 <= i && i + key_part.len() + value.len() < text.len() && #[trigger] text.subrange(
            i,
            i + key_part.len() + value.len(),
        ) == key_part + value && (text[i + key_part.len() + value.len()] == ','
            || text[i + key_part.len() + value.len()] == '}')
}

proof fn lemma_member_at(a: Seq<char>, k: Seq<char>, v: Seq<char>, rest: Seq<char>)
    requires
        rest.len() > 0,
        rest[0] == ',' || rest[0] == '}',
    ensures
        has_member(a + k + v + rest, k, v),
{
    let text = a + k + v + rest;
    let i = a.len() as int;
    assert(text.subrange(i, i + k.len() + v.len()) =~= k + v);
    assert(text[i + k.len() + v.len()] == rest[0]);
}

/// The members of a text laid out as the delivery policy is: `l0` and `j`,
/// then `l1` to `l6` each followed by its value, then `l7`, where each of
/// `l1` to `l7` starts with `,` or `}`.
proof fn lemma_policy_layout(
    l0: Seq<char>,
    j: Seq<char>,
    l1: Seq<char>,
    d1: Seq<char>,
    l2: Seq<char>,
    d2: Seq<char>,
    l3: Seq<char>,
    d3: Seq<char>,
    l4: Seq<char>,
    d4: Seq<char>,
    l5: Seq<char>,
    d5: Seq<char>,
    l6: Seq<char>,
    d6: Seq<char>,
    l7: Seq<char>,
)
    requires
        l1.len() > 0 && l1[0] == ',',
        l2.len() > 0 && l2[0] == ',',
        l3.len() > 0 && l3[0] == ',',
        l4.len() > 0 && l4[0] == ',',
        l5.len() > 0 && l5[0] == ',',
        l6.len() > 0 && l6[0] == ',',
        l7.len() > 0 && l7[0] == '}',
    ensures
        ({
            let text = l0 + j + l1 + d1 + l2 + d2 + l3 + d3 + l4 + d4 + l5 + d5 + l6 + d6 + l7;
            &&& has_member(text, l0, j)
            &&& has_member(text, l1, d1)
            &&& has_member(text, l2, d2)
            &&& has_member(text, l3, d3)
            &&& has_member(text, l4, d4)
            &&& has_member(text, l5, d5)
            &&& has_member(text, l6, d6)
            &&& text.len() >= l7.len()
            &&& text.subrange(text.len() - l7.len(), text.len() as int) == l7
        }),
{
    let text = l0 + j + l1 + d1 + l2 + d2 + l3 + d3 + l4 + d4 + l5 + d5 + l6 + d6 + l7;
    let e = Seq::<char>::empty();
    assert(has_member(text, l0, j)) by {
        let rest = l1 + d1 + l2 + d2 + l3 + d3 + l4 + d4 + l5 + d5 + l6 + d6 + l7;
        assert(text =~= e + l0 + j + rest);
        lemma_member_at(e, l0, j, rest);
    }
    assert(has_member(text, l1, d1)) by {
        let rest = l2 + d2 + l3 + d3 + l4 + d4 + l5 + d5 + l6 + d6 + l7;
        assert(text =~= (l0 + j) + l1 + d1 + rest);
        lemma_member_at(l0 + j, l1, d1, rest);
    }
    assert(has_member(text, l2, d2)) by {
        let rest = l3 + d3 + l4 + d4 + l5 + d5 + l6 + d6 + l7;
        assert(text =~= (l0 + j + l1 + d1) + l2 + d2 + rest);
        lemma_member_at(l0 + j + l1 + d1, l2, d2, rest);
    }
    assert(has_member(text, l3, d3)) by {
        let rest = l4 + d4 + l5 + d5 + l6 + d6 + l7;
        assert(text =~= (l0 + j + l1 + d1 + l2 + d2) + l3 + d3 + rest);
        lemma_member_at(l0 + j + l1 + d1 + l2 + d2, l3, d3, rest);
    }
    assert(has_member(text, l4, d4)) by {
        let rest = l5 + d5 + l6 + d6 + l7;
        assert(text =~= (l0 + j + l1 + d1 + l2 + d2 + l3 + d3) + l4 + d4 + rest);
        lemma_member_at(l0 + j + l1 + d1 + l2 + d2 + l3 + d3, l4, d4, rest);
    }
    assert(has_member(text, l5, d5)) by {
        let rest = l6 + d6 + l7;
        assert(text =~= (l0 + j + l1 + d1 + l2 + d2 + l3 + d3 + l4 + d4) + l5 + d5 + rest);
        lemma_member_at(l0 + j + l1 + d1 + l2 + d2 + l3 + d3 + l4 + d4, l5, d5, rest);
    }
    assert(has_member(text, l6, d6)) by {
        let a6 = l0 + j + l1 + d1 + l2 + d2 + l3 + d3 + l4 + d4 + l5 + d5;
        lemma_member_at(a6, l6, d6, l7);
    }
    assert(text.subrange(text.len() - l7.len(), text.len() as int) =~= l7);
}

/// Each member of a topic's delivery policy carries the setting of its name:
/// the backoff function's name as a JSON string under `backoffFunction`, and
/// under `maxDelayTarget`, `minDelayTarget`, `numMaxDelayRetries`,
/// `numMinDelayRetries`, `numNoDelayRetries` and `numRetries` the decimal
/// form of the field of that name; the policy ends by leaving subscription
/// overrides enabled.
pub proof fn lemma_delivery_policy_members(t: TopicSettings)
    ensures
        has_member(
            delivery_policy_text(t),
            "{\"http\":{\"defaultHealthyRetryPolicy\":{\"backoffFunction\":"@,
            json_str(t.backoff_function.spec_name()),
        ),
        has_member(
            delivery_policy_text(t),
            ",\"maxDelayTarget\":"@,
            decimal(t.max_delay_target_secs as nat),
        ),
        has_member(
            delivery_policy_text(t),
            ",\"minDelayTarget\":"@,
            decimal(t.min_delay_target_secs as nat),
        ),
        has_member(
            delivery_policy_text(t),
            ",\"numMaxDelayRetries\":"@,
            decimal(t.num_max_delay_retries as nat),
        ),
        has_member(
            delivery_policy_text(t),
            ",\"numMinDelayRetries\":"@,
            decimal(t.num_min_delay_retries as nat),
        ),
        has_member(
            delivery_policy_text(t),
            ",\"numNoDelayRetries\":"@,
            decimal(t.num_no_delay_retries as nat),
        ),
        has_member(delivery_policy_text(t), ",\"numRetries\":"@, decimal(t.num_retries as nat)),
        delivery_policy_text(t).len() >= "},\"disableSubscriptionOverrides\":false}}"@.len()
            && delivery_policy_text(t).subrange(
            delivery_policy_text(t).len() - "},\"disableSubscriptionOverrides\":false}}"@.len(),
            delivery_policy_text(t).len() as int,
        ) == "},\"disableSubscriptionOverrides\":false}}"@,
{
    assert(",\"maxDelayTarget\":"@[0] == ',') by {
        reveal_strlit(",\"maxDelayTarget\":");
    }
    assert(",\"minDelayTarget\":"@[0] == ',') by {
        reveal_strlit(",\"minDelayTarget\":");
    }
    assert(",\"numMaxDelayRetries\":"@[0] == ',') by {
        reveal_strlit(",\"numMaxDelayRetries\":");
    }
    assert(",\"numMinDelayRetries\":"@[0] == ',') by {
        reveal_strlit(",\"numMinDelayRetries\":");
    }
    assert(",\"numNoDelayRetries\":"@[0] == ',') by {
        reveal_strlit(",\"numNoDelayRetries\":");
    }
    assert(",\"numRetries\":"@[0] == ',') by {
        reveal_strlit(",\"numRetries\":");
    }
    assert("},\"disableSubscriptionOverrides\":false}}"@[0] == '}') by {
        reveal_strlit("},\"disableSubscriptionOverrides\":false}}");
    }
    assert(",\"maxDelayTarget\":"@.len() > 0) by {
        reveal_strlit(",\"maxDelayTarget\":");
    }
    assert(",\"minDelayTarget\":"@.len() > 0) by {
        reveal_strlit(",\"minDelayTarget\":");
    }
    assert(",\"numMaxDelayRetries\":"@.len() > 0) by {
        reveal_strlit(",\"numMaxDelayRetries\":");
    }
    assert(",\"numMinDelayRetries\":"@.len() > 0) by {
        reveal_strlit(",\"numMinDelayRetries\":");
    }
    assert(",\"numNoDelayRetries\":"@.len() > 0) by {
        reveal_strlit(",\"numNoDelayRetries\":");
    }
    assert(",\"numRetries\":"@.len() > 0) by {
        reveal_strlit(",\"numRetries\":");
    }
    assert("},\"disableSubscriptionOverrides\":false}}"@.len() > 0) by {
        reveal_strlit("},\"disableSubscriptionOverrides\":false}}");
    }
    lemma_policy_layout(
        "{\"http\":{\"defaultHealthyRetryPolicy\":{\"backoffFunction\":"@,
        json_str(t.backoff_function.spec_name()),
        ",\"maxDelayTarget\":"@,
        decimal(t.max_delay_target_secs as nat),
        ",\"minDelayTarget\":"@,
        decimal(t.min_delay_target_secs as nat),
        ",\"numMaxDelayRetries\":"@,
        decimal(t.num_max_delay_retries as nat),
        ",\"numMinDelayRetries\":"@,
        decimal(t.num_min_delay_retries as nat),
        ",\"numNoDelayRetries\":"@,
        decimal(t.num_no_delay_retries as nat),
        ",\"numRetries\":"@,
        decimal(t.num_retries as nat),
        "},\"disableSubscriptionOverrides\":false}}"@,
    );
}

/// The delivery retry policy applied to new topics.
#[derive(Debug, Clone, Copy)]
pub struct TopicSettings {
    pub min_delay_target_secs: u32,
    pub max_delay_target_secs: u32,
    pub num_retries: u32,
    pub num_max_delay_retries: u32,
    pub num_no_delay_retries: u32,
    pub num_min_delay_retries: u32,
    pub backoff_function: BackoffFunction,
}

impl TopicSettings {
    pub fn new(
        min_delay_target_secs: u32,
        max_delay_target_secs: u32,
        num_retries: u32,
        num_max_delay_retries: u32,
        num_no_delay_retries: u32,
        num_min_delay_retries: u32,
        backoff_function: BackoffFunction,
    ) -> (res: Self)
        ensures
            res.min_delay_target_secs == min_delay_target_secs,
            res.max_delay_target_secs == max_delay_target_secs,
            res.num_retries == num_retries,
            res.num_max_delay_retries == num_max_delay_retries,
            res.num_no_delay_retries == num_no_delay_retries,
            res.num_min_delay_retries == num_min_delay_retries,
            res.backoff_function == backoff_function,
    {
        TopicSettings {
            min_delay_target_secs,
            max_delay_target_secs,
            num_retries,
            num_max_delay_retries,
            num_no_delay_retries,
            num_min_delay_retries,
            backoff_function,
        }
    }

    /// Reads the settings from the `PUBSUB_TOPIC_*` variables: the numbers
    /// of `topic_setting_keys` in order, then the backoff function. The first
    /// variable that is missing or invalid gives the error.
    pub fn from_env(env: &EnvVars) -> (res: Result<Self, SettingsError>)
        ensures
            ({
                let keys = topic_setting_keys();
                &&& res is Ok <==> numbers_read(*env, keys, 6) && backoff_var(*env) is Some
                &&& res matches Ok(t) ==> t.min_delay_target_secs == nth_number(*env, keys, 0)
                    && t.max_delay_target_secs == nth_number(*env, keys, 1) && t.num_retries
                    == nth_number(*env, keys, 2) && t.num_max_delay_retries == nth_number(
                    *env,
                    keys,
                    3,
                ) && t.num_no_delay_retries == nth_number(*env, keys, 4)
                    && t.num_min_delay_retries == nth_number(*env, keys, 5) && Some(
                    t.backoff_function,
                ) == backoff_var(*env)
                &&& res matches Ok(t) ==> var_number(
                    *env,
                    "PUBSUB_TOPIC_MIN_DELAY_TARGET_SECS"@,
                    NumberKind::U32,
                ) == Some(t.min_delay_target_secs as int) && var_number(
                    *env,
                    "PUBSUB_TOPIC_MAX_DELAY_TARGET_SECS"@,
                    NumberKind::U32,
                ) == Some(t.max_delay_target_secs as int) && var_number(
                    *env,
                    "PUBSUB_TOPIC_NUM_RETRIES"@,
                    NumberKind::U32,
                ) == Some(t.num_retries as int) && var_number(
                    *env,
                    "PUBSUB_TOPIC_NUM_MAX_DELAY_RETRIES"@,
                    NumberKind::U32,
                ) == Some(t.num_max_delay_retries as int) && var_number(
                    *env,
                    "PUBSUB_TOPIC_NUM_NO_DELAY_RETRIES"@,
                    NumberKind::U32,
                ) == Some(t.num_no_delay_retries as int) && var_number(
                    *env,
                    "PUBSUB_TOPIC_NUM_MIN_DELAY_RETRIES"@,
                    NumberKind::U32,
                ) == Some(t.num_min_delay_retries as int) && match env.spec_get(
                    "PUBSUB_TOPIC_BACKOFF_FUNCTION"@,
                ) {
                    Some(v) => backoff_from_key(backoff_key(v)) == Some(t.backoff_function),
                    None => false,
                }
                &&& res matches Err(e) ==> first_number_failure(*env, keys, e) || (numbers_read(
                    *env,
                    keys,
                    6,
                ) && backoff_failure(*env, e))
            }),
    {
        let ghost keys = topic_setting_keys();
        assert(numbers_read(*env, keys, 0));
        let min_delay_target_secs = match read_u32(env, "PUBSUB_TOPIC_MIN_DELAY_TARGET_SECS") {
            Ok(v) => v,
            Err(e) => {
                proof {
                    lemma_first_failure(*env, keys, 0, e);
                }
                return Err(e);
            },
        };
        assert(numbers_read(*env, keys, 1));
        let max_delay_target_secs = match read_u32(env, "PUBSUB_TOPIC_MAX_DELAY_TARGET_SECS") {
            Ok(v) => v,
            Err(e) => {
                proof {
                    lemma_first_failure(*env, keys, 1, e);
                }
                return Err(e);
            },
        };
        assert(numbers_read(*env, keys, 2));
        let num_retries = match read_u32(env, "PUBSUB_TOPIC_NUM_RETRIES") {
            Ok(v) => v,
            Err(e) => {
                proof {
                    lemma_first_failure(*env, keys, 2, e);
                }
                return Err(e);
            },
        };
        assert(numbers_read(*env, keys, 3));
        let num_max_delay_retries = match read_u32(env, "PUBSUB_TOPIC_NUM_MAX_DELAY_RETRIES") {
            Ok(v) => v,
            Err(e) => {
                proof {
                    lemma_first_failure(*env, keys, 3, e);
                }
                return Err(e);
            },
        };
        assert(numbers_read(*env, keys, 4));
        let num_no_delay_retries = match read_u32(env, "PUBSUB_TOPIC_NUM_NO_DELAY_RETRIES") {
            Ok(v) => v,
            Err(e) => {
                proof {
                    lemma_first_failure(*env, keys, 4, e);
                }
                return Err(e);
            },
        };
        assert(numbers_read(*env, keys, 5));
        let num_min_delay_retries = match read_u32(env, "PUBSUB_TOPIC_NUM_MIN_DELAY_RETRIES") {
            Ok(v) => v,
            Err(e) => {
                proof {
                    lemma_first_failure(*env, keys, 5, e);
                }
                return Err(e);
            },
        };
        assert(numbers_read(*env, keys, 6));
        let backoff_text = match get_var(env, "PUBSUB_TOPIC_BACKOFF_FUNCTION") {
            Ok(v) => v,
            Err(e) => {
                return Err(e);
            },
        };
        let backoff_function = match BackoffFunction::parse(backoff_text.as_str()) {
            Ok(b) => b,
            Err(e) => {
                return Err(e);
            },
        };
        Ok(
            Self::new(
                min_delay_target_secs,
                max_delay_target_secs,
                num_retries,
                num_max_delay_retries,
                num_no_delay_retries,
                num_min_delay_retries,
                backoff_function,
            ),
        )
    }

    /// The delivery policy JSON that is set on new topics.
    pub fn delivery_policy_json(&self) -> (res: String)
        ensures
            res@ == delivery_policy_text(*self),
    {
        let mut s = String::from_str("{\"http\":{\"defaultHealthyRetryPolicy\":{\"backoffFunction\":");
        let backoff = match json_encode_str(self.backoff_function.as_str()) {
            Ok(t) => t,
            Err(_) => {
                proof {
                    assert(false);
                }
                String::new()
            },
        };
        s.append(backoff.as_str());
        s.append(",\"maxDelayTarget\":");
        let n = decimal_string(self.max_delay_target_secs as u64);
        s.append(n.as_str());
        s.append(",\"minDelayTarget\":");
        let n = decimal_string(self.min_delay_target_secs as u64);
        s.append(n.as_str());
        s.append(",\"numMaxDelayRetries\":");
        let n = decimal_string(self.num_max_delay_retries as u64);
        s.append(n.as_str());
        s.append(",\"numMinDelayRetries\":");
        let n = decimal_string(self.num_min_delay_retries as u64);
        s.append(n.as_str());
        s.append(",\"numNoDelayRetries\":");
        let n = decimal_string(self.num_no_delay_retries as u64);
        s.append(n.as_str());
        s.append(",\"numRetries\":");
        let n = decimal_string(self.num_retries as u64);
        s.append(n.as_str());
        s.append("},\"disableSubscriptionOverrides\":false}}");
        s
    }
}

/// What the settings' `Debug` form prints: the region, with both keys
/// redacted.
pub open spec fn aws_settings_debug(region: Seq<char>) -> Seq<char> {
    "AwsSettings { region: "@ + str_debug(region)
        + ", access_key_id: \"[REDACTED]\", secret_access_key: \"[REDACTED]\" }"@
}

/// Whether `e` is the error for the first missing variable among `keys`.
pub open spec fn first_missing(env: EnvVars, keys: Seq<Seq<char>>, e: SettingsError) -> bool {
    exists|i: int|
        0 <= i < keys.len() && (forall|j: int| 0 <= j < i ==> env.spec_get(#[trigger] keys[j]) is Some)
            && env.spec_get(#[trigger] keys[i]) is None && match e {
            SettingsError::MissingVariable { key } => key@ == keys[i],
            _ => false,
        }
}

/// The variables that AWS settings are read from, in the order they are
/// read: the access key id, the secret access key and the region.
pub open spec fn aws_setting_keys() -> Seq<Seq<char>> {
    seq!["PUBSUB_AWS_ACCESS_KEY_ID"@, "PUBSUB_AWS_SECRET_ACCESS_KEY"@, "PUBSUB_AWS_REGION"@]
}

/// Credentials and region of the AWS account.
#[derive(Clone)]
pub struct AwsSettings {
    pub region: String,
    pub access_key_id: String,
    pub secret_access_key: String,
}

impl AwsSettings {
    pub fn new(region: &str, access_key_id: &str, secret_access_key: &str) -> (res: Self)
        ensures
            res.region@ == region@,
            res.access_key_id@ == access_key_id@,
            res.secret_access_key@ == secret_access_key@,
    {
        AwsSettings {
            region: region.to_owned(),
            access_key_id: access_key_id.to_owned(),
            secret_access_key: secret_access_key.to_owned(),
        }
    }

    /// Reads the settings from the `PUBSUB_AWS_*` variables of
    /// `aws_setting_keys`; the first one missing gives the error.
    pub fn from_env(env: &EnvVars) -> (res: Result<Self, SettingsError>)
        ensures
            ({
                let keys = aws_setting_keys();
                &&& res is Ok <==> env.spec_get(keys[0]) is Some && env.spec_get(keys[1]) is Some
                    && env.spec_get(keys[2]) is Some
                &&& res matches Ok(a) ==> Some(a.access_key_id@) == env.spec_get(keys[0]) && Some(
                    a.secret_access_key@,
                ) == env.spec_get(keys[1]) && Some(a.region@) == env.spec_get(keys[2])
                &&& res matches Err(e) ==> first_missing(*env, keys, e)
            }),
    {
        let ghost keys = aws_setting_keys();
        let access_key_id = match get_var(env, "PUBSUB_AWS_ACCESS_KEY_ID") {
            Ok(v) => v,
            Err(e) => {
                assert(env.spec_get(keys[0]) is None);
                return Err(e);
            },
        };
        let secret_access_key = match get_var(env, "PUBSUB_AWS_SECRET_ACCESS_KEY") {
            Ok(v) => v,
            Err(e) => {
                assert(env.spec_get(keys[0]) is Some);
                assert(env.spec_get(keys[1]) is None);
                return Err(e);
            },
        };
        let region = match get_var(env, "PUBSUB_AWS_REGION") {
            Ok(v) => v,
            Err(e) => {
                assert(env.spec_get(keys[0]) is Some);
                assert(env.spec_get(keys[1]) is Some);
                assert(env.spec_get(keys[2]) is None);
                return Err(e);
            },
        };
        Ok(Self::new(region.as_str(), access_key_id.as_str(), secret_access_key.as_str()))
    }

    /// The text of the settings' `Debug` form, which shows the region and
    /// hides both keys.
    pub fn debug_string(&self) -> (res: String)
        ensures
            res@ == aws_settings_debug(self.region@),
    {
        let mut s = String::from_str("AwsSettings { region: ");
        let region = debug_str(self.region.as_str());
        s.append(region.as_str());
        s.append(", access_key_id: \"[REDACTED]\", secret_access_key: \"[REDACTED]\" }");
        s
    }
}

/// The `Debug` text of AWS settings depends on the region alone: two
/// settings with the same region print the same, whatever their keys.
pub proof fn lemma_debug_hides_credentials(a: AwsSettings, b: AwsSettings)
    requires
        a.region@ == b.region@,
    ensures
        aws_settings_debug(a.region@) == aws_settings_debug(b.region@),
{
}

} // verus!
