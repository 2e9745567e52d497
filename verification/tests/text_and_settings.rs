use aws_pubsub_lite::errors::SettingsError;
use aws_pubsub_lite::models::{BackoffFunction, QueueDlq};
use aws_pubsub_lite::settings::{AwsSettings, QueueSettings, TopicSettings};
use aws_pubsub_lite::text::{
    decimal_string, parse_i32, parse_u32, parse_u64, parse_unsigned_bounded, parse_usize, str_eq,
    NumberErrorKind,
    to_ascii_lowercase, trim,
};
use aws_pubsub_lite::utils::{get_var, EnvVars};

fn kind_of(e: std::num::ParseIntError) -> NumberErrorKind {
    match e.kind() {
        std::num::IntErrorKind::Empty => NumberErrorKind::Empty,
        std::num::IntErrorKind::InvalidDigit => NumberErrorKind::InvalidDigit,
        std::num::IntErrorKind::PosOverflow => NumberErrorKind::PosOverflow,
        std::num::IntErrorKind::NegOverflow => NumberErrorKind::NegOverflow,
        other => panic!("unexpected kind {other:?}"),
    }
}

#[test]
fn decimal_numbers() {
    assert_eq!(decimal_string(0), "0");
    assert_eq!(decimal_string(7), "7");
    assert_eq!(decimal_string(1234567890), "1234567890");
    assert_eq!(decimal_string(u64::MAX), u64::MAX.to_string());
}

#[test]
fn decimal_round_trip() {
    for n in [0u64, 9, 10, 99, 100, 4_294_967_295, u64::MAX] {
        assert_eq!(parse_u64(&decimal_string(n)), Ok(n));
    }
}

#[test]
fn unsigned_parsing_follows_str_parse() {
    for s in ["0", "+5", "", "+", "-5", "5 ", " 5", "12a", "007", "18446744073709551615",
        "18446744073709551616", "99999999999999999999999"]
    {
        assert_eq!(parse_u64(s), s.parse::<u64>().map_err(kind_of), "{s:?}");
        assert_eq!(parse_u32(s), s.parse::<u32>().map_err(kind_of), "{s:?}");
        assert_eq!(parse_usize(s), s.parse::<usize>().map_err(kind_of), "{s:?}");
    }
    assert_eq!(parse_u32("4294967296"), Err(NumberErrorKind::PosOverflow));
    assert_eq!(parse_u64("99999999999999999999x"), Err(NumberErrorKind::PosOverflow));
    assert_eq!(parse_u64("9x99999999999999999999"), Err(NumberErrorKind::InvalidDigit));
    assert_eq!(parse_u64("-"), Err(NumberErrorKind::InvalidDigit));
    assert_eq!(parse_u64(""), Err(NumberErrorKind::Empty));
    assert_eq!(parse_unsigned_bounded("80", 80), Ok(80));
    assert_eq!(parse_unsigned_bounded("81", 80), Err(NumberErrorKind::PosOverflow));
}

#[test]
fn signed_parsing_follows_str_parse() {
    for s in ["-2147483648", "-2147483649", "2147483647", "2147483648", "-0", "+12", "-",
        "--1", "20", "", "+", "-99999999999", "-1a", "99999999999a"]
    {
        assert_eq!(parse_i32(s), s.parse::<i32>().map_err(kind_of), "{s:?}");
    }
    assert_eq!(parse_i32("-2147483648"), Ok(i32::MIN));
    assert_eq!(parse_i32("-2147483649"), Err(NumberErrorKind::NegOverflow));
}

#[test]
fn trimming_and_case() {
    assert_eq!(trim("  linear\t\n"), "linear");
    assert_eq!(trim("\u{a0}x y\u{2003}"), "x y");
    assert_eq!(trim("   "), "");
    assert_eq!(trim("\u{85}x\u{3000}"), "x");
    assert_eq!(trim("\u{1680}\u{2028}\u{2029}\u{202f}\u{205f}x\u{200a}"), "x");
    assert_eq!(trim("\u{200b}x\u{feff}"), "\u{200b}x\u{feff}");
    assert_eq!(trim("\u{1c}x\u{1f}"), "\u{1c}x\u{1f}");
    assert_eq!(to_ascii_lowercase("GeoMETRIC-É"), "geometric-É");
    assert!(str_eq("abc", "abc"));
    assert!(!str_eq("abc", "abd"));
    assert!(!str_eq("abc", "ab"));
}

#[test]
fn backoff_function_names() {
    for b in [
        BackoffFunction::Linear,
        BackoffFunction::Arithmetic,
        BackoffFunction::Geometric,
        BackoffFunction::Exponential,
    ] {
        assert_eq!(BackoffFunction::parse(b.as_str()), Ok(b));
    }
    assert_eq!(BackoffFunction::parse("  LINEAR \n"), Ok(BackoffFunction::Linear));
    assert_eq!("Exponential".parse::<BackoffFunction>(), Ok(BackoffFunction::Exponential));
    let err = BackoffFunction::parse(" Cubic ").unwrap_err();
    assert_eq!(err, SettingsError::UnknownBackoffFunction { value: "cubic".to_string() });
    assert_eq!(
        err.message(),
        "Unknown backoff function 'cubic' (expected linear|arithmetic|geometric|exponential)"
    );
}

#[test]
fn env_vars_read_back_what_was_set() {
    let mut env = EnvVars::new();
    assert_eq!(env.get("A"), None);
    env.set("A", "1");
    env.set("B", "2");
    env.set("A", "3");
    assert_eq!(env.get("A"), Some("3"));
    assert_eq!(env.get("B"), Some("2"));
    assert_eq!(get_var(&env, "B"), Ok("2".to_string()));
    let err = get_var(&env, "C").unwrap_err();
    assert_eq!(err, SettingsError::MissingVariable { key: "C".to_string() });
    assert_eq!(err.message(), "Variable: 'C' is missing");
}

fn queue_env() -> EnvVars {
    let mut env = EnvVars::new();
    env.set("PUBSUB_QUEUE_MAX_MESSAGE_COUNT", "1");
    env.set("PUBSUB_QUEUE_RETRY_COUNT", "15");
    env.set("PUBSUB_QUEUE_RETRY_INTERVAL_MS", "2000");
    env.set("PUBSUB_QUEUE_MESSAGE_RETENTION_PERIOD_MS", "600000");
    env.set("PUBSUB_QUEUE_WAIT_TIME_SECONDS", "20");
    env.set("PUBSUB_QUEUE_VISIBILITY_TIMEOUT_SECS", "60");
    env
}

#[test]
fn queue_settings_from_the_documented_variables() {
    let q = QueueSettings::from_env(&queue_env()).unwrap();
    assert_eq!(q.max_message_count, 1);
    assert_eq!(q.retry_count, 15);
    assert_eq!(q.retry_interval_ms, 2000);
    assert_eq!(q.message_retention_ms, 600000);
    assert_eq!(q.wait_time_seconds, 20);
    assert_eq!(q.visibility_timeout_secs, 60);
    let n = QueueSettings::new(1, 15, 2000, 600000, 20, 60);
    assert_eq!(n.retry_count, q.retry_count);
}

#[test]
fn queue_settings_written_in_decimal_read_back() {
    let q = QueueSettings::new(usize::MAX, 0, u64::MAX, 42, i32::MAX, u32::MAX);
    let mut env = EnvVars::new();
    env.set("PUBSUB_QUEUE_MESSAGE_RETENTION_PERIOD_MS", &decimal_string(q.message_retention_ms));
    env.set("PUBSUB_QUEUE_RETRY_INTERVAL_MS", &decimal_string(q.retry_interval_ms));
    env.set("PUBSUB_QUEUE_MAX_MESSAGE_COUNT", &decimal_string(q.max_message_count as u64));
    env.set("PUBSUB_QUEUE_RETRY_COUNT", &decimal_string(q.retry_count as u64));
    env.set("PUBSUB_QUEUE_WAIT_TIME_SECONDS", &decimal_string(q.wait_time_seconds as u64));
    env.set("PUBSUB_QUEUE_VISIBILITY_TIMEOUT_SECS", &decimal_string(q.visibility_timeout_secs as u64));
    let r = QueueSettings::from_env(&env).unwrap();
    assert_eq!(r.max_message_count, q.max_message_count);
    assert_eq!(r.retry_count, q.retry_count);
    assert_eq!(r.retry_interval_ms, q.retry_interval_ms);
    assert_eq!(r.message_retention_ms, q.message_retention_ms);
    assert_eq!(r.wait_time_seconds, q.wait_time_seconds);
    assert_eq!(r.visibility_timeout_secs, q.visibility_timeout_secs);
}

#[test]
fn queue_settings_report_the_first_bad_variable() {
    let mut env = queue_env();
    env.set("PUBSUB_QUEUE_RETRY_COUNT", "many");
    env.set("PUBSUB_QUEUE_WAIT_TIME_SECONDS", "x");
    let err = QueueSettings::from_env(&env).unwrap_err();
    assert_eq!(
        err,
        SettingsError::InvalidNumber {
            key: "PUBSUB_QUEUE_RETRY_COUNT".to_string(),
            value: "many".to_string(),
            reason: NumberErrorKind::InvalidDigit,
        }
    );
    assert_eq!(err.message(), "invalid digit found in string");
    assert_eq!(err.message(), "many".parse::<usize>().unwrap_err().to_string());
    let err = QueueSettings::from_env(&EnvVars::new()).unwrap_err();
    assert_eq!(
        err,
        SettingsError::MissingVariable {
            key: "PUBSUB_QUEUE_MESSAGE_RETENTION_PERIOD_MS".to_string()
        }
    );
    let mut env = queue_env();
    env.set("PUBSUB_QUEUE_VISIBILITY_TIMEOUT_SECS", "-1");
    assert!(matches!(
        QueueSettings::from_env(&env),
        Err(SettingsError::InvalidNumber { reason: NumberErrorKind::InvalidDigit, .. })
    ));
    let mut env = queue_env();
    env.set("PUBSUB_QUEUE_WAIT_TIME_SECONDS", "");
    let err = QueueSettings::from_env(&env).unwrap_err();
    assert_eq!(err.message(), "cannot parse integer from empty string");
    let mut env = queue_env();
    env.set("PUBSUB_QUEUE_WAIT_TIME_SECONDS", "-3000000000");
    let err = QueueSettings::from_env(&env).unwrap_err();
    assert_eq!(err.message(), "-3000000000".parse::<i32>().unwrap_err().to_string());
    let mut env = queue_env();
    env.set("PUBSUB_QUEUE_MESSAGE_RETENTION_PERIOD_MS", "18446744073709551616");
    let err = QueueSettings::from_env(&env).unwrap_err();
    assert_eq!(err.message(), "number too large to fit in target type");
}

fn topic_env() -> EnvVars {
    let mut env = EnvVars::new();
    env.set("PUBSUB_TOPIC_MIN_DELAY_TARGET_SECS", "5");
    env.set("PUBSUB_TOPIC_MAX_DELAY_TARGET_SECS", "60");
    env.set("PUBSUB_TOPIC_NUM_RETRIES", "3");
    env.set("PUBSUB_TOPIC_NUM_MAX_DELAY_RETRIES", "0");
    env.set("PUBSUB_TOPIC_NUM_NO_DELAY_RETRIES", "0");
    env.set("PUBSUB_TOPIC_NUM_MIN_DELAY_RETRIES", "0");
    env.set("PUBSUB_TOPIC_BACKOFF_FUNCTION", "linear");
    env
}

#[test]
fn topic_settings_from_the_documented_variables() {
    let t = TopicSettings::from_env(&topic_env()).unwrap();
    assert_eq!(t.min_delay_target_secs, 5);
    assert_eq!(t.max_delay_target_secs, 60);
    assert_eq!(t.num_retries, 3);
    assert_eq!(t.backoff_function, BackoffFunction::Linear);
    let mut env = topic_env();
    env.set("PUBSUB_TOPIC_BACKOFF_FUNCTION", "Sigmoid");
    assert_eq!(
        TopicSettings::from_env(&env).unwrap_err(),
        SettingsError::UnknownBackoffFunction { value: "sigmoid".to_string() }
    );
    let mut env = topic_env();
    env.set("PUBSUB_TOPIC_NUM_RETRIES", "4294967296");
    assert!(matches!(
        TopicSettings::from_env(&env),
        Err(SettingsError::InvalidNumber { .. })
    ));
}

#[test]
fn delivery_policy_is_the_sorted_json_object() {
    let t = TopicSettings::new(5, 60, 3, 0, 0, 0, BackoffFunction::Linear);
    let text = t.delivery_policy_json();
    assert_eq!(
        text,
        "{\"http\":{\"defaultHealthyRetryPolicy\":{\"backoffFunction\":\"linear\",\
         \"maxDelayTarget\":60,\"minDelayTarget\":5,\"numMaxDelayRetries\":0,\
         \"numMinDelayRetries\":0,\"numNoDelayRetries\":0,\"numRetries\":3},\
         \"disableSubscriptionOverrides\":false}}"
    );
    let v: serde_json::Value = serde_json::from_str(&text).unwrap();
    assert_eq!(v["http"]["defaultHealthyRetryPolicy"]["numRetries"], 3);
    assert_eq!(v["http"]["disableSubscriptionOverrides"], false);
}

#[test]
fn redrive_policy_escapes_the_arn() {
    let dlq = QueueDlq::new("arn:aws:sqs:eu-north-1:1:dlq", 3);
    assert_eq!(dlq.arn, "arn:aws:sqs:eu-north-1:1:dlq");
    assert_eq!(dlq.max_receive_count, 3);
    assert_eq!(
        dlq.queue_dlq_json(),
        "{\"deadLetterTargetArn\":\"arn:aws:sqs:eu-north-1:1:dlq\",\"maxReceiveCount\":\"3\"}"
    );
    let odd = QueueDlq::new("a\"b\\c", 10);
    let text = odd.queue_dlq_json();
    assert_eq!(text, "{\"deadLetterTargetArn\":\"a\\\"b\\\\c\",\"maxReceiveCount\":\"10\"}");
    let v: serde_json::Value = serde_json::from_str(&text).unwrap();
    assert_eq!(v["deadLetterTargetArn"], "a\"b\\c");
    let ctl = QueueDlq::new("a\tb\u{1}c\u{7f}é", 1);
    assert_eq!(
        ctl.queue_dlq_json(),
        "{\"deadLetterTargetArn\":\"a\\tb\\u0001c\u{7f}é\",\"maxReceiveCount\":\"1\"}"
    );
}

#[test]
fn aws_settings_from_env_and_debug() {
    let mut env = EnvVars::new();
    env.set("PUBSUB_AWS_ACCESS_KEY_ID", "AKIA");
    env.set("PUBSUB_AWS_SECRET_ACCESS_KEY", "SECRET-REDACTED");
    assert_eq!(
        AwsSettings::from_env(&env).err(),
        Some(SettingsError::MissingVariable { key: "PUBSUB_AWS_REGION".to_string() })
    );
    env.set("PUBSUB_AWS_REGION", "eu-north-1");
    let a = AwsSettings::from_env(&env).unwrap();
    assert_eq!(a.region, "eu-north-1");
    assert_eq!(a.access_key_id, "AKIA");
    assert_eq!(a.secret_access_key, "SECRET-REDACTED");
    let text = a.debug_string();
    assert_eq!(
        text,
        "AwsSettings { region: \"eu-north-1\", access_key_id: \"[REDACTED]\", \
         secret_access_key: \"[REDACTED]\" }"
    );
    assert!(!text.contains("AKIA"));
    let b = AwsSettings::new("eu-north-1", "OTHER", "KEYS");
    assert_eq!(b.debug_string(), text);
    let q = AwsSettings::new("say \"hi\"", "k", "s");
    assert!(q.debug_string().contains("\\\"hi\\\""));
}
