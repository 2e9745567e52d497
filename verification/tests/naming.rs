use aws_pubsub_lite::errors::{ResourceErrors, ResourceNameError};
use aws_pubsub_lite::models::{
    DlqHandle, Queue, ResourceName, ResourceNamingOptions, ResourceType, SeparatorSymbol, Topic,
};

fn plain() -> ResourceNamingOptions {
    ResourceNamingOptions::new(None, None, None, None)
}

fn decorated() -> ResourceNamingOptions {
    ResourceNamingOptions::new(
        Some("examples"),
        Some("dlq-wired"),
        Some(SeparatorSymbol::Hyphen),
        Some(SeparatorSymbol::Underscore),
    )
}

#[test]
fn full_name_joins_prefix_base_and_suffix() {
    let name = ResourceName::new("topic", ResourceType::Topic, decorated()).unwrap();
    assert_eq!(name.to_string(), "examples-topic_dlq-wired");
}

#[test]
fn full_name_without_options_is_base_name() {
    let name = ResourceName::new("orders", ResourceType::Topic, plain()).unwrap();
    assert_eq!(name.to_string(), "orders");
    assert_eq!(name.resource_type(), ResourceType::Topic);
}

#[test]
fn separator_is_written_only_with_its_affix() {
    let opts = ResourceNamingOptions::new(None, Some("v2"), Some(SeparatorSymbol::Hyphen), None);
    let name = ResourceName::new("orders", ResourceType::Queue, opts).unwrap();
    assert_eq!(name.to_string(), "ordersv2");
    let opts = ResourceNamingOptions::new(Some("app"), None, None, Some(SeparatorSymbol::Hyphen));
    let name = ResourceName::new("orders", ResourceType::Queue, opts).unwrap();
    assert_eq!(name.to_string(), "apporders");
}

#[test]
fn naming_options_getters() {
    let opts = decorated();
    assert_eq!(opts.prefix(), Some("examples"));
    assert_eq!(opts.suffix(), Some("dlq-wired"));
    assert_eq!(opts.prefix_separator(), Some(&SeparatorSymbol::Hyphen));
    assert_eq!(opts.suffix_separator(), Some(&SeparatorSymbol::Underscore));
    assert_eq!(plain().prefix(), None);
    assert_eq!(SeparatorSymbol::Underscore.as_char(), '_');
}

#[test]
fn empty_name_is_refused() {
    let err = ResourceName::new("", ResourceType::Topic, plain()).unwrap_err();
    assert_eq!(err, ResourceNameError::Empty);
    assert_eq!(err.message(), "Resource name is empty");
}

#[test]
fn separators_alone_make_a_name() {
    let opts = ResourceNamingOptions::new(Some(""), None, Some(SeparatorSymbol::Underscore), None);
    let name = ResourceName::new("", ResourceType::Topic, opts).unwrap();
    assert_eq!(name.to_string(), "_");
}

#[test]
fn queue_names_stop_at_eighty_bytes() {
    let ok = "q".repeat(80);
    assert!(ResourceName::new(&ok, ResourceType::Queue, plain()).is_ok());
    let long = "q".repeat(81);
    let err = ResourceName::new(&long, ResourceType::Queue, plain()).unwrap_err();
    assert_eq!(err, ResourceNameError::TooLong { name: long.clone(), max: 80 });
    assert_eq!(
        err.message(),
        format!("Resource name '{}' exceeds 80 characters", long)
    );
}

#[test]
fn topic_names_stop_at_256_bytes() {
    let ok = "t".repeat(256);
    assert!(ResourceName::new(&ok, ResourceType::Topic, plain()).is_ok());
    let long = "t".repeat(257);
    let err = ResourceName::new(&long, ResourceType::Topic, plain()).unwrap_err();
    assert_eq!(err, ResourceNameError::TooLong { name: long, max: 256 });
}

#[test]
fn prefix_and_suffix_count_toward_the_limit() {
    let opts = ResourceNamingOptions::new(Some("pre"), None, Some(SeparatorSymbol::Hyphen), None);
    let err = ResourceName::new(&"q".repeat(77), ResourceType::Queue, opts).unwrap_err();
    assert!(matches!(err, ResourceNameError::TooLong { max: 80, .. }));
}

#[test]
fn invalid_characters_are_refused() {
    let err = ResourceName::new("orders.v1", ResourceType::Topic, plain()).unwrap_err();
    assert_eq!(err, ResourceNameError::InvalidPattern { name: "orders.v1".to_string() });
    assert_eq!(
        err.message(),
        "Resource name 'orders.v1' contains invalid characters (must match [a-zA-Z0-9_-]+)"
    );
    let err = ResourceName::new("with space", ResourceType::Queue, plain()).unwrap_err();
    assert!(matches!(err, ResourceNameError::InvalidPattern { .. }));
}

#[test]
fn length_is_counted_in_bytes() {
    let name = "é".repeat(41);
    let err = ResourceName::new(&name, ResourceType::Queue, plain()).unwrap_err();
    assert!(matches!(err, ResourceNameError::TooLong { max: 80, .. }));
    let name = "é".repeat(40);
    let err = ResourceName::new(&name, ResourceType::Queue, plain()).unwrap_err();
    assert!(matches!(err, ResourceNameError::InvalidPattern { .. }));
}

#[test]
fn name_characters_are_ascii_letters_digits_hyphen_and_underscore() {
    assert_eq!(ResourceName::validate_aws_resource_name("Az09_-", 80), Ok(()));
    assert_eq!(ResourceName::validate_aws_resource_name("_", 80), Ok(()));
    for bad in ["naïve", "a\nb", "a$", "^a", "a+b", "ｆｕｌｌ", "a\u{0}"] {
        assert!(matches!(
            ResourceName::validate_aws_resource_name(bad, 80),
            Err(ResourceNameError::InvalidPattern { .. })
        ));
    }
    assert_eq!(ResourceName::validate_aws_resource_name("", 80), Err(ResourceNameError::Empty));
}

#[test]
fn check_name_orders_its_errors() {
    assert_eq!(ResourceName::check_name("", 5, false), Err(ResourceNameError::Empty));
    assert!(matches!(
        ResourceName::check_name("abcdef", 5, false),
        Err(ResourceNameError::TooLong { max: 5, .. })
    ));
    assert!(matches!(
        ResourceName::check_name("abc", 5, false),
        Err(ResourceNameError::InvalidPattern { .. })
    ));
    assert_eq!(ResourceName::check_name("abc", 5, true), Ok(()));
}

#[test]
fn validate_name_uses_the_aws_pattern() {
    assert_eq!(ResourceName::validate_aws_resource_name("a-b_C9", 10), Ok(()));
    assert!(ResourceName::validate_aws_resource_name("a/b", 10).is_err());
}

#[test]
fn resource_type_mismatch_names_both_types() {
    let name = ResourceName::new("orders", ResourceType::Queue, plain()).unwrap();
    assert_eq!(name.validate_resource_type(ResourceType::Queue), Ok(()));
    let err = name.validate_resource_type(ResourceType::Topic).unwrap_err();
    assert_eq!(
        err,
        ResourceErrors::InvalidResourceType {
            name: "orders".to_string(),
            required_type: ResourceType::Topic,
            invalid_type: ResourceType::Queue,
        }
    );
    assert_eq!(
        err.message(),
        "Invalid resource type 'Queue' provided for 'orders' with type 'Topic'"
    );
    assert_eq!(ResourceType::Topic.as_str(), "Topic");
}

#[test]
fn topic_needs_a_topic_name() {
    let name = ResourceName::new("orders", ResourceType::Topic, decorated()).unwrap();
    let topic = Topic::new(name, "arn:aws:sns:eu:1:t").unwrap();
    assert_eq!(topic.name(), "examples-orders_dlq-wired");
    assert_eq!(topic.arn(), "arn:aws:sns:eu:1:t");
    let qname = ResourceName::new("orders", ResourceType::Queue, plain()).unwrap();
    assert!(Topic::new(qname, "arn").is_err());
}

#[test]
fn queue_needs_a_queue_name() {
    let name = ResourceName::new("orders", ResourceType::Queue, plain()).unwrap();
    let queue = Queue::new(name, "arn:q", "https://q".to_string(), "arn:t").unwrap();
    assert_eq!(queue.name(), "orders");
    assert_eq!(queue.arn(), "arn:q");
    assert_eq!(queue.url(), "https://q");
    assert_eq!(queue.sns_arn(), "arn:t");
    let tname = ResourceName::new("orders", ResourceType::Topic, plain()).unwrap();
    let err = Queue::new(tname, "a", String::new(), "b").unwrap_err();
    assert!(matches!(
        err,
        ResourceErrors::InvalidResourceType { required_type: ResourceType::Queue, .. }
    ));
}

#[test]
fn queue_is_claimed_by_one_subscriber_at_a_time() {
    let name = ResourceName::new("orders", ResourceType::Queue, plain()).unwrap();
    let queue = Queue::new(name, "arn:q", "https://q".to_string(), "arn:t").unwrap();
    assert!(!queue.is_subscribed());
    assert!(queue.try_subscribe());
    assert!(queue.is_subscribed());
    assert!(!queue.try_subscribe());
    queue.unsubscribe();
    assert!(!queue.is_subscribed());
    assert!(queue.try_subscribe());
}

#[test]
fn dlq_handle_needs_a_queue_name() {
    let name = ResourceName::new("dlq", ResourceType::Queue, plain()).unwrap();
    let dlq = DlqHandle::new(name, "https://d".to_string(), "arn:d".to_string()).unwrap();
    assert_eq!(dlq.name(), "dlq");
    assert_eq!(dlq.url(), "https://d");
    assert_eq!(dlq.arn(), "arn:d");
    let tname = ResourceName::new("dlq", ResourceType::Topic, plain()).unwrap();
    assert!(DlqHandle::new(tname, String::new(), String::new()).is_err());
}
