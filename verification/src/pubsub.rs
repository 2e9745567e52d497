//! The decisions of the publisher: where a message is published, when a
//! subscription may start, what attributes a new queue gets, and what the
//! answers of AWS calls mean.

use std::sync::Arc;
use vstd::prelude::*;
use vstd::string::*;

use crate::errors::PubSubError;
use crate::models::{redrive_policy_text, Queue, QueueDlq, Topic};
use crate::registry::{lookup_named, queue_name_of, registered, topic_name_of, Registry};
use crate::settings::{delivery_policy_text, QueueSettings, TopicSettings};
use crate::text::{decimal, decimal_string, str_eq};
use crate::utils::lookup_binding;

verus! {

/// The queue access policy up to the queue's ARN.
pub const POLICY_HEAD: &'static str = "{\n                \"Version\": \"2012-10-17\",\n                \"Statement\": [\n                    {\n                        \"Sid\": \"AllowSNS\",\n                        \"Effect\": \"Allow\",\n                        \"Principal\": \"*\",\n                        \"Action\": \"SQS:SendMessage\",\n                        \"Resource\": \"";

/// The queue access policy between the queue's ARN and the topic's ARN.
pub const POLICY_MIDDLE: &'static str = "\",\n                        \"Condition\": {\n                            \"ArnEquals\": {\n                                \"aws:SourceArn\": \"";

/// The queue access policy after the topic's ARN.
pub const POLICY_TAIL: &'static str = "\"\n                            }\n                        }\n                    }\n                ]\n            }";

/// The access policy of a new queue: it lets the topic `sns_arn` send
/// messages to the queue `sqs_arn`.
pub open spec fn queue_policy_text(sqs_arn: Seq<char>, sns_arn: Seq<char>) -> Seq<char> {
    POLICY_HEAD@ + sqs_arn + POLICY_MIDDLE@ + sns_arn + POLICY_TAIL@
}

/// The access policy of a new queue, letting the topic send to it.
pub fn queue_policy_json(sqs_arn: &str, sns_arn: &str) -> (res: String)
    ensures
        res@ == queue_policy_text(sqs_arn@, sns_arn@),
{
    let mut s = String::from_str(POLICY_HEAD);
    s.append(sqs_arn);
    s.append(POLICY_MIDDLE);
    s.append(sns_arn);
    s.append(POLICY_TAIL);
    s
}

/// The attribute values set on a new queue.
#[derive(Debug, Clone)]
pub struct QueueAttributeValues {
    /// How long the queue keeps a message, in whole seconds.
    pub message_retention_period: String,
    /// How long a received message stays hidden, in seconds.
    pub visibility_timeout: String,
    /// The access policy that lets the topic send to the queue.
    pub policy: String,
    /// The redrive policy that sends messages on to a dead-letter queue,
    /// when the queue has one.
    pub redrive_policy: Option<String>,
}

/// The state of a publisher: its optional settings and the topics and
/// queues it has set up.
#[derive(Debug)]
pub struct PubSubState {
    queue_settings: Option<QueueSettings>,
    topic_settings: Option<TopicSettings>,
    registry: Registry,
}

impl PubSubState {
    #[verifier::type_invariant]
    spec fn inv(self) -> bool {
        self.registry.wf()
    }

    pub closed spec fn spec_queue_settings(&self) -> Option<QueueSettings> {
        self.queue_settings
    }

    pub closed spec fn spec_topic_settings(&self) -> Option<TopicSettings> {
        self.topic_settings
    }

    /// The registered topics, in the order they were added.
    pub closed spec fn spec_topics(&self) -> Seq<Arc<Topic>> {
        self.registry.spec_topics()
    }

    /// The registered queues, in the order they were added.
    pub closed spec fn spec_queues(&self) -> Seq<Arc<Queue>> {
        self.registry.spec_queues()
    }

    /// The topic registered under `name`, if any.
    pub open spec fn spec_topic(&self, name: Seq<char>) -> Option<Arc<Topic>> {
        lookup_named(self.spec_topics(), topic_name_of(), name)
    }

    /// The queue registered under `name`, if any.
    pub open spec fn spec_queue(&self, name: Seq<char>) -> Option<Arc<Queue>> {
        lookup_named(self.spec_queues(), queue_name_of(), name)
    }

    /// A publisher with the given settings and nothing set up yet.
    pub fn new(queue_settings: Option<QueueSettings>, topic_settings: Option<TopicSettings>) -> (res:
        Self)
        ensures
            res.spec_queue_settings() == queue_settings,
            res.spec_topic_settings() == topic_settings,
            res.spec_topics() == Seq::<Arc<Topic>>::empty(),
            res.spec_queues() == Seq::<Arc<Queue>>::empty(),
    {
        PubSubState { queue_settings, topic_settings, registry: Registry::new() }
    }

    /// The topic registered under `name`, if any.
    pub fn find_topic(&self, name: &str) -> (res: Option<Arc<Topic>>)
        ensures
            res == self.spec_topic(name@),
    {
        self.registry.find_topic(name)
    }

    /// The queue registered under `name`, if any.
    pub fn find_queue(&self, name: &str) -> (res: Option<Arc<Queue>>)
        ensures
            res == self.spec_queue(name@),
    {
        self.registry.find_queue(name)
    }

    /// Registers a newly set up topic, unless one of its name is already
    /// there; answers the topic registered under the name.
    pub fn register_topic(&mut self, topic: Arc<Topic>) -> (res: Arc<Topic>)
        ensures
            (final(self).spec_topics(), res) == registered(
                old(self).spec_topics(),
                topic_name_of(),
                topic,
            ),
            final(self).spec_queues() == old(self).spec_queues(),
            final(self).spec_queue_settings() == old(self).spec_queue_settings(),
            final(self).spec_topic_settings() == old(self).spec_topic_settings(),
    {
        proof {
            use_type_invariant(&*self);
        }
        let mut registry = Registry::new();
        std::mem::swap(&mut registry, &mut self.registry);
        let res = registry.register_topic(topic);
        self.registry = registry;
        res
    }

    /// Registers a newly set up queue, unless one of its name is already
    /// there; answers the queue registered under the name.
    pub fn register_queue(&mut self, queue: Arc<Queue>) -> (res: Arc<Queue>)
        ensures
            (final(self).spec_queues(), res) == registered(
                old(self).spec_queues(),
                queue_name_of(),
                queue,
            ),
            final(self).spec_topics() == old(self).spec_topics(),
            final(self).spec_queue_settings() == old(self).spec_queue_settings(),
            final(self).spec_topic_settings() == old(self).spec_topic_settings(),
    {
        proof {
            use_type_invariant(&*self);
        }
        let mut registry = Registry::new();
        std::mem::swap(&mut registry, &mut self.registry);
        let res = registry.register_queue(queue);
        self.registry = registry;
        res
    }

    /// The queue settings, which the operation named `context` needs.
    pub fn queue_settings(&self, context: &str) -> (res: Result<QueueSettings, PubSubError>)
        ensures
            match self.spec_queue_settings() {
                Some(q) => res == Ok::<QueueSettings, PubSubError>(q),
                None => match res {
                    Err(PubSubError::QueueSettings { context: c }) => c@ == context@,
                    _ => false,
                },
            },
    {
        match &self.queue_settings {
            Some(q) => Ok(*q),
            None => Err(PubSubError::QueueSettings { context: context.to_owned() }),
        }
    }

    /// The topic settings, if any.
    pub fn topic_settings(&self) -> (res: Option<TopicSettings>)
        ensures
            res == self.spec_topic_settings(),
    {
        self.topic_settings
    }

    /// The delivery policy set on new topics: present exactly when topic
    /// settings are.
    pub fn delivery_policy(&self) -> (res: Option<String>)
        ensures
            match self.spec_topic_settings() {
                Some(t) => res matches Some(p) && p@ == delivery_policy_text(t),
                None => res is None,
            },
    {
        match &self.topic_settings {
            Some(t) => Some(t.delivery_policy_json()),
            None => None,
        }
    }

    /// Where `msg` is published to reach the topic `topic_name`: its ARN. An
    /// empty message is refused first, then a topic that is not set up.
    pub fn publish_target(&self, topic_name: &str, msg: &str) -> (res: Result<String, PubSubError>)
        ensures
            msg@.len() == 0 ==> res == Err::<String, PubSubError>(PubSubError::EmptyMessage),
            msg@.len() > 0 ==> match self.spec_topic(topic_name@) {
                Some(t) => res matches Ok(arn) && arn@ == t.spec_arn(),
                None => match res {
                    Err(PubSubError::TopicNotExists(n)) => n@ == topic_name@,
                    _ => false,
                },
            },
    {
        if msg.is_empty() {
            return Err(PubSubError::EmptyMessage);
        }
        match self.find_topic(topic_name) {
            Some(t) => Ok(t.arn().to_owned()),
            None => Err(PubSubError::TopicNotExists(topic_name.to_owned())),
        }
    }

    /// Claims the queue `queue_name` for a subscriber. Queue settings must
    /// be set, then the queue must be set up; then the claim succeeds unless
    /// another subscriber holds the queue.
    pub fn begin_subscription(&self, queue_name: &str) -> (res: Result<
        (QueueSettings, Arc<Queue>),
        PubSubError,
    >)
        ensures
            match self.spec_queue_settings() {
                None => match res {
                    Err(PubSubError::QueueSettings { context }) => context@ == "subscribe"@,
                    _ => false,
                },
                Some(settings) => match self.spec_queue(queue_name@) {
                    None => match res {
                        Err(PubSubError::QueueNotExists(n)) => n@ == queue_name@,
                        _ => false,
                    },
                    Some(q) => match res {
                        Ok((s, claimed)) => s == settings && claimed == q,
                        Err(PubSubError::QueueAlreadySubscribed(n)) => n@ == queue_name@,
                        _ => false,
                    },
                },
            },
    {
        let settings = match self.queue_settings("subscribe") {
            Ok(s) => s,
            Err(e) => {
                return Err(e);
            },
        };
        let queue = match self.find_queue(queue_name) {
            Some(q) => q,
            None => {
                return Err(PubSubError::QueueNotExists(queue_name.to_owned()));
            },
        };
        if !queue.try_subscribe() {
            return Err(PubSubError::QueueAlreadySubscribed(queue_name.to_owned()));
        }
        Ok((settings, queue))
    }

    /// The attributes set on a new queue: the retention period in whole
    /// seconds, the visibility timeout, the access policy for the topic and,
    /// when a dead-letter queue is given, the redrive policy that wires it.
    /// Queue settings must be set.
    pub fn queue_attributes(
        &self,
        sqs_arn: &str,
        sns_arn: &str,
        dlq: Option<&QueueDlq>,
    ) -> (res: Result<
        QueueAttributeValues,
        PubSubError,
    >)
        ensures
            match self.spec_queue_settings() {
                None => match res {
                    Err(PubSubError::QueueSettings { context }) => context@ == "add_queue"@,
                    _ => false,
                },
                Some(q) => match res {
                    Ok(v) => v.message_retention_period@ == decimal(
                        (q.message_retention_ms / 1000) as nat,
                    ) && v.visibility_timeout@ == decimal(q.visibility_timeout_secs as nat)
                        && v.policy@ == queue_policy_text(sqs_arn@, sns_arn@) && match dlq {
                        Some(d) => v.redrive_policy matches Some(p) && p@ == redrive_policy_text(
                            d.arn@,
                            d.max_receive_count,
                        ),
                        None => v.redrive_policy is None,
                    },
                    Err(_) => false,
                },
            },
    {
        let settings = match self.queue_settings("add_queue") {
            Ok(s) => s,
            Err(e) => {
                return Err(e);
            },
        };
        Ok(
            QueueAttributeValues {
                message_retention_period: decimal_string(settings.message_retention_ms / 1000),
                visibility_timeout: decimal_string(settings.visibility_timeout_secs as u64),
                policy: queue_policy_json(sqs_arn, sns_arn),
                redrive_policy: match dlq {
                    Some(d) => Some(d.queue_dlq_json()),
                    None => None,
                },
            },
        )
    }
}

/// The ARN of a newly created topic, which the answer of AWS must hold.
pub fn topic_arn_from_response(topic_name: &str, topic_arn: Option<String>) -> (res: Result<
    String,
    PubSubError,
>)
    ensures
        match topic_arn {
            Some(a) => res == Ok::<String, PubSubError>(a),
            None => match res {
                Err(PubSubError::GettingSNSTopicArn(n)) => n@ == topic_name@,
                _ => false,
            },
        },
{
    match topic_arn {
        Some(a) => Ok(a),
        None => Err(PubSubError::GettingSNSTopicArn(topic_name.to_owned())),
    }
}

/// The URL of a newly created queue, which the answer of AWS must hold.
pub fn queue_url_from_response(queue_name: &str, queue_url: Option<String>) -> (res: Result<
    String,
    PubSubError,
>)
    ensures
        match queue_url {
            Some(u) => res == Ok::<String, PubSubError>(u),
            None => match res {
                Err(PubSubError::GettingSQSQueueUrl(n)) => n@ == queue_name@,
                _ => false,
            },
        },
{
    match queue_url {
        Some(u) => Ok(u),
        None => Err(PubSubError::GettingSQSQueueUrl(queue_name.to_owned())),
    }
}

/// The view of a list of attribute name and value pairs.
pub open spec fn attribute_bindings(attributes: Seq<(String, String)>) -> Seq<(Seq<char>, Seq<char>)> {
    attributes.map_values(|p: (String, String)| (p.0@, p.1@))
}

/// The ARN of a queue, read from its attributes (name and value pairs, as
/// AWS names them): an error when AWS answered no attributes, or none named
/// `QueueArn`.
pub fn queue_arn_from_attributes(queue_name: &str, attributes: Option<Vec<(String, String)>>) -> (res:
    Result<String, PubSubError>)
    ensures
        match attributes {
            None => match res {
                Err(PubSubError::NoQueueAttributes(n)) => n@ == queue_name@,
                _ => false,
            },
            Some(attrs) => match lookup_binding(attribute_bindings(attrs@), "QueueArn"@) {
                Some(arn) => res matches Ok(a) && a@ == arn,
                None => match res {
                    Err(PubSubError::QueueArnNotFound(n)) => n@ == queue_name@,
                    _ => false,
                },
            },
        },
{
    match attributes {
        None => Err(PubSubError::NoQueueAttributes(queue_name.to_owned())),
        Some(attrs) => match attribute_value(&attrs, "QueueArn") {
            Some(a) => Ok(a),
            None => Err(PubSubError::QueueArnNotFound(queue_name.to_owned())),
        },
    }
}

/// The value of the attribute `name` among name and value pairs, the last
/// one if the name occurs twice.
fn attribute_value(attrs: &Vec<(String, String)>, name: &str) -> (res: Option<String>)
    ensures
        match lookup_binding(attribute_bindings(attrs@), name@) {
            Some(v) => res matches Some(r) && r@ == v,
            None => res is None,
        },
{
    let ghost b = attribute_bindings(attrs@);
    let mut i = attrs.len();
    assert(b.take(i as int) =~= b);
    while i > 0
        invariant
            i <= attrs@.len(),
            b == attribute_bindings(attrs@),
            lookup_binding(b, name@) == lookup_binding(b.take(i as int), name@),
        decreases i,
    {
        assert(b.take(i as int).drop_last() =~= b.take(i - 1));
        if str_eq(attrs[i - 1].0.as_str(), name) {
            return Some(attrs[i - 1].1.clone());
        }
        i = i - 1;
    }
    None
}

} // verus!
