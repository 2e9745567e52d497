use std::sync::Arc;

use aws_pubsub_lite::dispatch::{HandlerOutcome, MessageDispatch};
use aws_pubsub_lite::errors::{HandlerError, PubSubError};
use aws_pubsub_lite::models::{
    HandlerExecutionMode, IncomingMessage, MessageDeleteMode, Queue, QueueDlq, ResourceName,
    ResourceNamingOptions, ResourceType, SnsTopicAttribute, Topic,
};
use aws_pubsub_lite::pubsub::{
    queue_arn_from_attributes, queue_policy_json, queue_url_from_response,
    topic_arn_from_response, PubSubState,
};
use aws_pubsub_lite::settings::{QueueSettings, TopicSettings};
use aws_pubsub_lite::models::BackoffFunction;
use aws_pubsub_lite::subscription::{
    dispatch_end, loop_step, release_subscription, subscription_step, DispatchEnd, LoopStep,
    MessageBuffer, PollEvent, RawMessage, SubscriptionEntry, SubscriptionStep,
};

fn opts() -> ResourceNamingOptions {
    ResourceNamingOptions::new(None, None, None, None)
}

fn topic(name: &str, arn: &str) -> Arc<Topic> {
    Arc::new(Topic::new(ResourceName::new(name, ResourceType::Topic, opts()).unwrap(), arn).unwrap())
}

fn queue(name: &str, arn: &str) -> Arc<Queue> {
    let n = ResourceName::new(name, ResourceType::Queue, opts()).unwrap();
    Arc::new(Queue::new(n, arn, format!("https://{name}"), "arn:t").unwrap())
}

fn settings() -> QueueSettings {
    QueueSettings::new(1, 15, 2000, 600_999, 20, 60)
}

#[test]
fn registering_a_name_twice_keeps_the_first() {
    let mut state = PubSubState::new(None, None);
    assert!(state.find_topic("orders").is_none());
    let first = state.register_topic(topic("orders", "arn:1"));
    assert_eq!(first.arn(), "arn:1");
    let second = state.register_topic(topic("orders", "arn:2"));
    assert_eq!(second.arn(), "arn:1");
    assert_eq!(state.find_topic("orders").unwrap().arn(), "arn:1");
    state.register_topic(topic("billing", "arn:3"));
    assert_eq!(state.find_topic("billing").unwrap().arn(), "arn:3");
    assert_eq!(state.find_topic("orders").unwrap().arn(), "arn:1");
}

#[test]
fn registered_queue_is_shared() {
    let mut state = PubSubState::new(Some(settings()), None);
    let q = state.register_queue(queue("jobs", "arn:q1"));
    let again = state.register_queue(queue("jobs", "arn:q2"));
    assert!(Arc::ptr_eq(&q, &again));
    assert!(Arc::ptr_eq(&q, &state.find_queue("jobs").unwrap()));
    assert!(state.find_queue("other").is_none());
}

#[test]
fn publishing_refuses_empty_messages_first() {
    let mut state = PubSubState::new(None, None);
    assert_eq!(state.publish_target("nowhere", ""), Err(PubSubError::EmptyMessage));
    let err = state.publish_target("nowhere", "hi").unwrap_err();
    assert_eq!(err, PubSubError::TopicNotExists("nowhere".to_string()));
    assert_eq!(err.message(), "Topic 'nowhere' not exists");
    state.register_topic(topic("orders", "arn:orders"));
    assert_eq!(state.publish_target("orders", "hi"), Ok("arn:orders".to_string()));
    assert_eq!(state.publish_target("orders", ""), Err(PubSubError::EmptyMessage));
}

#[test]
fn subscription_claims_need_settings_and_a_free_queue() {
    let state = PubSubState::new(None, None);
    let err = state.begin_subscription("jobs").unwrap_err();
    assert_eq!(err, PubSubError::QueueSettings { context: "subscribe".to_string() });
    assert_eq!(err.message(), "Queue settings are not set (required for subscribe)");
    let mut state = PubSubState::new(Some(settings()), None);
    assert_eq!(
        state.begin_subscription("jobs").unwrap_err(),
        PubSubError::QueueNotExists("jobs".to_string())
    );
    state.register_queue(queue("jobs", "arn:q"));
    let (s, q) = state.begin_subscription("jobs").unwrap();
    assert_eq!(s.retry_count, 15);
    assert!(q.is_subscribed());
    let err = state.begin_subscription("jobs").unwrap_err();
    assert_eq!(err, PubSubError::QueueAlreadySubscribed("jobs".to_string()));
    assert_eq!(err.message(), "Queue 'jobs' already subscribed");
    q.unsubscribe();
    assert!(state.begin_subscription("jobs").is_ok());
}

#[test]
fn queue_attributes_use_whole_seconds() {
    let state = PubSubState::new(None, None);
    assert_eq!(
        state.queue_attributes("a", "b", None).unwrap_err(),
        PubSubError::QueueSettings { context: "add_queue".to_string() }
    );
    let state = PubSubState::new(Some(settings()), None);
    let v = state.queue_attributes("arn:q", "arn:t", None).unwrap();
    assert_eq!(v.message_retention_period, "600");
    assert_eq!(v.visibility_timeout, "60");
    assert_eq!(v.policy, queue_policy_json("arn:q", "arn:t"));
    assert_eq!(v.redrive_policy, None);
}

#[test]
fn queue_with_a_dead_letter_queue_gets_its_redrive_policy() {
    let state = PubSubState::new(Some(settings()), None);
    let dlq = QueueDlq::new("arn:aws:sqs:eu-north-1:1:dlq", 3);
    let v = state.queue_attributes("arn:q", "arn:t", Some(&dlq)).unwrap();
    assert_eq!(v.redrive_policy, Some(dlq.queue_dlq_json()));
    assert_eq!(
        v.redrive_policy.unwrap(),
        "{\"deadLetterTargetArn\":\"arn:aws:sqs:eu-north-1:1:dlq\",\"maxReceiveCount\":\"3\"}"
    );
}

#[test]
fn queue_policy_lets_the_topic_send() {
    let text = queue_policy_json("arn:q", "arn:t");
    let v: serde_json::Value = serde_json::from_str(&text).unwrap();
    let st = &v["Statement"][0];
    assert_eq!(v["Version"], "2012-10-17");
    assert_eq!(st["Action"], "SQS:SendMessage");
    assert_eq!(st["Resource"], "arn:q");
    assert_eq!(st["Condition"]["ArnEquals"]["aws:SourceArn"], "arn:t");
}

#[test]
fn delivery_policy_only_with_topic_settings() {
    let state = PubSubState::new(None, None);
    assert_eq!(state.delivery_policy(), None);
    assert!(state.topic_settings().is_none());
    let t = TopicSettings::new(1, 2, 3, 4, 5, 6, BackoffFunction::Geometric);
    let state = PubSubState::new(None, Some(t));
    assert_eq!(state.delivery_policy(), Some(t.delivery_policy_json()));
    assert_eq!(SnsTopicAttribute::DeliveryPolicy.as_str(), "DeliveryPolicy");
}

#[test]
fn answers_of_aws_must_hold_the_ids() {
    assert_eq!(topic_arn_from_response("t", Some("arn".to_string())), Ok("arn".to_string()));
    let err = topic_arn_from_response("t", None).unwrap_err();
    assert_eq!(err.message(), "Error getting SNS topic 't' arn");
    assert_eq!(queue_url_from_response("q", Some("u".to_string())), Ok("u".to_string()));
    assert_eq!(
        queue_url_from_response("q", None),
        Err(PubSubError::GettingSQSQueueUrl("q".to_string()))
    );
    assert_eq!(
        queue_arn_from_attributes("q", None),
        Err(PubSubError::NoQueueAttributes("q".to_string()))
    );
    let attrs = vec![
        ("VisibilityTimeout".to_string(), "60".to_string()),
        ("QueueArn".to_string(), "arn:q".to_string()),
    ];
    assert_eq!(queue_arn_from_attributes("q", Some(attrs)), Ok("arn:q".to_string()));
    let err = queue_arn_from_attributes("q", Some(vec![])).unwrap_err();
    assert_eq!(err, PubSubError::QueueArnNotFound("q".to_string()));
    assert_eq!(err.message(), "Arn was not found for SQS queue 'q'");
}

#[test]
fn sequential_dispatch_runs_one_handler_at_a_time() {
    let mut d = MessageDispatch::start(HandlerExecutionMode::Sequential, 3);
    assert_eq!(d.started(), 1);
    assert_eq!(d.record(HandlerOutcome::Handled), Some(1));
    assert_eq!(d.record(HandlerOutcome::AlreadyProcessed), Some(2));
    assert!(!d.is_done());
    assert_eq!(d.record(HandlerOutcome::Handled), None);
    assert!(d.is_done());
    assert!(d.all_handled());
    assert!(d.should_delete(MessageDeleteMode::DeleteAllHandled));
    assert!(!d.should_delete(MessageDeleteMode::LeaveIt));
}

#[test]
fn parallel_dispatch_starts_every_handler() {
    let mut d = MessageDispatch::start(HandlerExecutionMode::Parallel, 3);
    assert_eq!(d.started(), 3);
    assert_eq!(d.record(HandlerOutcome::Failed), None);
    assert_eq!(d.record(HandlerOutcome::Handled), None);
    assert_eq!(d.record(HandlerOutcome::Aborted), None);
    assert!(d.is_done());
    assert!(!d.all_handled());
    assert!(!d.should_delete(MessageDeleteMode::DeleteAllHandled));
    assert!(d.should_delete(MessageDeleteMode::DeleteAllCalled));
}

#[test]
fn nothing_is_deleted_while_a_handler_runs() {
    let mut d = MessageDispatch::start(HandlerExecutionMode::Parallel, 2);
    assert_eq!(d.record(HandlerOutcome::Handled), None);
    assert!(!d.is_done());
    assert!(!d.should_delete(MessageDeleteMode::DeleteAllCalled));
    assert_eq!(d.record(HandlerOutcome::Handled), None);
    assert!(d.should_delete(MessageDeleteMode::DeleteAllCalled));
}

#[test]
fn dispatch_without_handlers_is_done_at_once() {
    let d = MessageDispatch::start(HandlerExecutionMode::Sequential, 0);
    assert_eq!(d.started(), 0);
    assert!(d.is_done());
    assert!(d.should_delete(MessageDeleteMode::DeleteAllHandled));
}

#[test]
fn handler_answers_map_to_outcomes() {
    let skip = HandlerError::ProcessedAlready { message: "héllo".to_string(), handler: "h".to_string() };
    assert_eq!(HandlerOutcome::from_result(&Err(skip.clone())), HandlerOutcome::AlreadyProcessed);
    assert_eq!(
        skip.message(),
        "Message (len=6) has already been processed by handler 'h'"
    );
    let fail = HandlerError::ProcessingMessage {
        message: "abc".to_string(),
        handler: "h".to_string(),
        source: "boom".to_string(),
    };
    assert_eq!(HandlerOutcome::from_result(&Err(fail.clone())), HandlerOutcome::Failed);
    assert_eq!(fail.message(), "Error processing message (len=3) in handler 'h': boom");
    assert_eq!(HandlerOutcome::from_result(&Ok(())), HandlerOutcome::Handled);
    assert!(HandlerOutcome::AlreadyProcessed.is_handled());
    assert!(!HandlerOutcome::Aborted.is_handled());
}

fn entry(protocol: &str, endpoint: &str) -> SubscriptionEntry {
    SubscriptionEntry {
        protocol: Some(protocol.to_string()),
        endpoint: Some(endpoint.to_string()),
    }
}

#[test]
fn existing_subscription_is_not_made_twice() {
    let page = vec![entry("https", "arn:q"), entry("sqs", "arn:other"), entry("sqs", "arn:q")];
    assert_eq!(subscription_step(&page, None, "arn:q"), SubscriptionStep::AlreadySubscribed);
    let page = vec![entry("https", "arn:q"), SubscriptionEntry { protocol: None, endpoint: None }];
    assert_eq!(
        subscription_step(&page, Some("tok".to_string()), "arn:q"),
        SubscriptionStep::FetchPage("tok".to_string())
    );
    assert_eq!(subscription_step(&page, None, "arn:q"), SubscriptionStep::Subscribe);
    assert_eq!(subscription_step(&vec![], None, "arn:q"), SubscriptionStep::Subscribe);
}

#[test]
fn listing_read_page_by_page_finds_the_queue_on_a_later_page() {
    let pages = vec![
        (vec![entry("sqs", "arn:other")], Some("t1".to_string())),
        (vec![entry("https", "arn:q")], Some("t2".to_string())),
        (vec![entry("sqs", "arn:q")], None),
    ];
    let mut outcome = SubscriptionStep::Subscribe;
    for (page, next) in pages.iter() {
        outcome = subscription_step(page, next.clone(), "arn:q");
        if !matches!(outcome, SubscriptionStep::FetchPage(_)) {
            break;
        }
    }
    assert_eq!(outcome, SubscriptionStep::AlreadySubscribed);
}

#[test]
fn listing_without_the_queue_ends_in_subscribe() {
    let pages = vec![
        (vec![entry("sqs", "arn:other")], Some("t1".to_string())),
        (vec![], Some("t2".to_string())),
        (vec![entry("https", "arn:q")], None),
    ];
    let mut steps = Vec::new();
    for (page, next) in pages.iter() {
        let step = subscription_step(page, next.clone(), "arn:q");
        steps.push(step.clone());
        if !matches!(step, SubscriptionStep::FetchPage(_)) {
            break;
        }
    }
    assert_eq!(
        steps,
        vec![
            SubscriptionStep::FetchPage("t1".to_string()),
            SubscriptionStep::FetchPage("t2".to_string()),
            SubscriptionStep::Subscribe,
        ]
    );
}

fn raw(body: Option<&str>, handle: Option<&str>) -> RawMessage {
    RawMessage { body: body.map(|s| s.to_string()), receipt_handle: handle.map(|s| s.to_string()) }
}

#[test]
fn buffer_hands_out_complete_messages_in_order() {
    let mut b = MessageBuffer::new();
    assert!(b.is_empty());
    assert!(b.next().is_none());
    b.receive(&vec![raw(Some("a"), Some("ha")), raw(None, Some("hx")), raw(Some("b"), Some("hb"))]);
    b.receive(&vec![raw(Some("c"), None), raw(Some("d"), Some("hd"))]);
    let got: Vec<(String, String)> = std::iter::from_fn(|| b.next())
        .map(|m: IncomingMessage| (m.body().to_string(), m.receipt_handle().to_string()))
        .collect();
    assert_eq!(
        got,
        vec![
            ("a".to_string(), "ha".to_string()),
            ("b".to_string(), "hb".to_string()),
            ("d".to_string(), "hd".to_string())
        ]
    );
    assert!(b.is_empty());
}

#[test]
fn loop_reacts_to_poll_events() {
    assert_eq!(loop_step(PollEvent::Cancelled, "u"), LoopStep::Stop(Ok(())));
    assert_eq!(loop_step(PollEvent::Message, "u"), LoopStep::Dispatch);
    assert_eq!(loop_step(PollEvent::PollFailed, "u"), LoopStep::KeepPolling);
    match loop_step(PollEvent::StreamEnded, "https://q") {
        LoopStep::Stop(Err(e)) => {
            assert_eq!(e.message(), "Poll stream for queue 'https://q' completed unexpectedly")
        },
        other => panic!("unexpected {other:?}"),
    }
}

#[test]
fn incoming_message_parts() {
    let m = IncomingMessage::new("body".to_string(), "handle".to_string());
    assert_eq!(m.body(), "body");
    assert_eq!(m.receipt_handle(), "handle");
}

#[test]
fn cancelling_during_dispatch_stops_and_keeps_the_message() {
    let mut d = MessageDispatch::start(HandlerExecutionMode::Parallel, 2);
    assert_eq!(d.record(HandlerOutcome::Handled), None);
    assert_eq!(
        dispatch_end(&d, true, MessageDeleteMode::DeleteAllCalled),
        DispatchEnd::Stop(Ok(()))
    );
    assert_eq!(d.record(HandlerOutcome::Failed), None);
    assert_eq!(
        dispatch_end(&d, false, MessageDeleteMode::DeleteAllCalled),
        DispatchEnd::DeleteMessage
    );
    assert_eq!(
        dispatch_end(&d, false, MessageDeleteMode::DeleteAllHandled),
        DispatchEnd::KeepMessage
    );
    assert_eq!(dispatch_end(&d, false, MessageDeleteMode::LeaveIt), DispatchEnd::KeepMessage);
}

#[test]
fn ending_a_subscription_releases_the_queue() {
    let q = queue("jobs", "arn:q");
    assert!(q.try_subscribe());
    let err = PubSubError::UnexpectedCompletion("u".to_string());
    assert_eq!(release_subscription(&q, Err(err.clone())), Err(err));
    assert!(!q.is_subscribed());
    assert!(q.try_subscribe());
    assert_eq!(release_subscription::<PubSubError>(&q, Ok(())), Ok(()));
    assert!(!q.is_subscribed());
}
