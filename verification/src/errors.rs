//! The library's error types. Each has a `message` method that gives the
//! text that its `Display` form shows.

use vstd::prelude::*;
use vstd::string::*;

use crate::models::ResourceType;
use crate::text::{byte_len, decimal, decimal_string, NumberErrorKind};

verus! {

/// Why a resource name was refused.
#[derive(Debug, Clone, PartialEq, Eq)]
pub enum ResourceNameError {
    Empty,
    TooLong { name: String, max: usize },
    InvalidPattern { name: String },
}

/// A resource of the wrong kind was given.
#[derive(Debug, Clone, PartialEq, Eq)]
pub enum ResourceErrors {
    InvalidResourceType { name: String, required_type: ResourceType, invalid_type: ResourceType },
}

/// `value` between `pre` and `post`.
fn framed(pre: &str, value: &str, post: &str) -> (res: String)
    ensures
        res@ == pre@ + value@ + post@,
{
    let mut s = String::from_str(pre);
    s.append(value);
    s.append(post);
    s
}

/// The errors of topic, queue and subscription handling that the library
/// decides itself.
#[derive(Debug, Clone, PartialEq, Eq)]
pub enum PubSubError {
    TopicNotExists(String),
    QueueNotExists(String),
    Resource(ResourceErrors),
    GettingSNSTopicArn(String),
    GettingSQSQueueUrl(String),
    NoQueueAttributes(String),
    QueueArnNotFound(String),
    EmptyMessage,
    QueueAlreadySubscribed(String),
    UnexpectedCompletion(String),
    QueueSettings { context: String },
}

impl PubSubError {
    /// The text of the error.
    pub open spec fn spec_message(&self) -> Seq<char> {
        match self {
            PubSubError::TopicNotExists(n) => "Topic '"@ + n@ + "' not exists"@,
            PubSubError::QueueNotExists(n) => "Queue '"@ + n@ + "' not exists"@,
            PubSubError::Resource(e) => e.spec_message(),
            PubSubError::GettingSNSTopicArn(n) => "Error getting SNS topic '"@ + n@ + "' arn"@,
            PubSubError::GettingSQSQueueUrl(n) => "Error getting SQS queue '"@ + n@ + "' url"@,
            PubSubError::NoQueueAttributes(n) => "No attributes found for SQS queue '"@ + n@
                + "'"@,
            PubSubError::QueueArnNotFound(n) => "Arn was not found for SQS queue '"@ + n@ + "'"@,
            PubSubError::EmptyMessage => "Empty message"@,
            PubSubError::QueueAlreadySubscribed(n) => "Queue '"@ + n@ + "' already subscribed"@,
            PubSubError::UnexpectedCompletion(n) => "Poll stream for queue '"@ + n@
                + "' completed unexpectedly"@,
            PubSubError::QueueSettings { context } =>
                "Queue settings are not set (required for "@ + context@ + ")"@,
        }
    }

    /// The text of the error, as its `Display` form shows it.
    pub fn message(&self) -> (res: String)
        ensures
            res@ == self.spec_message(),
    {
        match self {
            PubSubError::TopicNotExists(n) => framed("Topic '", n.as_str(), "' not exists"),
            PubSubError::QueueNotExists(n) => framed("Queue '", n.as_str(), "' not exists"),
            PubSubError::Resource(e) => e.message(),
            PubSubError::GettingSNSTopicArn(n) => framed(
                "Error getting SNS topic '",
                n.as_str(),
                "' arn",
            ),
            PubSubError::GettingSQSQueueUrl(n) => framed(
                "Error getting SQS queue '",
                n.as_str(),
                "' url",
            ),
            PubSubError::NoQueueAttributes(n) => framed(
                "No attributes found for SQS queue '",
                n.as_str(),
                "'",
            ),
            PubSubError::QueueArnNotFound(n) => framed(
                "Arn was not found for SQS queue '",
                n.as_str(),
                "'",
            ),
            PubSubError::EmptyMessage => String::from_str("Empty message"),
            PubSubError::QueueAlreadySubscribed(n) => framed(
                "Queue '",
                n.as_str(),
                "' already subscribed",
            ),
            PubSubError::UnexpectedCompletion(n) => framed(
                "Poll stream for queue '",
                n.as_str(),
                "' completed unexpectedly",
            ),
            PubSubError::QueueSettings { context } => framed(
                "Queue settings are not set (required for ",
                context.as_str(),
                ")",
            ),
        }
    }
}

/// What a message handler reports when it does not handle a message.
#[derive(Debug, Clone, PartialEq, Eq)]
pub enum HandlerError {
    /// The handler failed on the message; `source` is the text of the cause.
    ProcessingMessage { message: String, handler: String, source: String },
    /// The handler had already processed the message, so it skipped it.
    ProcessedAlready { message: String, handler: String },
}

impl HandlerError {
    /// The text of the error; the message itself is shown by its length in
    /// bytes only.
    pub open spec fn spec_message(&self) -> Seq<char> {
        match self {
            HandlerError::ProcessingMessage { message, handler, source } =>
                "Error processing message (len="@ + decimal(byte_len(message@))
                + ") in handler '"@ + handler@ + "': "@ + source@,
            HandlerError::ProcessedAlready { message, handler } => "Message (len="@ + decimal(
                byte_len(message@),
            ) + ") has already been processed by handler '"@ + handler@ + "'"@,
        }
    }

    /// The text of the error, as its `Display` form shows it.
    pub fn message(&self) -> (res: String)
        ensures
            res@ == self.spec_message(),
    {
        match self {
            HandlerError::ProcessingMessage { message, handler, source } => {
                let mut s = String::from_str("Error processing message (len=");
                let len = decimal_string(message.as_str().as_bytes().len() as u64);
                s.append(len.as_str());
                s.append(") in handler '");
                s.append(handler.as_str());
                s.append("': ");
                s.append(source.as_str());
                s
            },
            HandlerError::ProcessedAlready { message, handler } => {
                let mut s = String::from_str("Message (len=");
                let len = decimal_string(message.as_str().as_bytes().len() as u64);
                s.append(len.as_str());
                s.append(") has already been processed by handler '");
                s.append(handler.as_str());
                s.append("'");
                s
            },
        }
    }
}

/// Why settings could not be read from the environment.
#[derive(Debug, Clone, PartialEq, Eq)]
pub enum SettingsError {
    /// The variable is not set.
    MissingVariable { key: String },
    /// The variable does not hold a number of the required type; `reason`
    /// is the kind of error that `str::parse` gives for its value.
    InvalidNumber { key: String, value: String, reason: NumberErrorKind },
    /// The text names no backoff function.
    UnknownBackoffFunction { value: String },
}

impl SettingsError {
    /// The text of the error.
    pub open spec fn spec_message(&self) -> Seq<char> {
        match self {
            SettingsError::MissingVariable { key } => "Variable: '"@ + key@ + "' is missing"@,
            SettingsError::InvalidNumber { reason, .. } => reason.spec_text(),
            SettingsError::UnknownBackoffFunction { value } => "Unknown backoff function '"@
                + value@ + "' (expected linear|arithmetic|geometric|exponential)"@,
        }
    }

    /// The text of the error. For an invalid number it is the text of the
    /// `ParseIntError` that `str::parse` gives.
    pub fn message(&self) -> (res: String)
        ensures
            res@ == self.spec_message(),
    {
        match self {
            SettingsError::MissingVariable { key } => {
                let mut s = String::from_str("Variable: '");
                s.append(key.as_str());
                s.append("' is missing");
                s
            },
            SettingsError::InvalidNumber { reason, .. } => String::from_str(reason.text()),
            SettingsError::UnknownBackoffFunction { value } => {
                let mut s = String::from_str("Unknown backoff function '");
                s.append(value.as_str());
                s.append("' (expected linear|arithmetic|geometric|exponential)");
                s
            },
        }
    }
}

impl ResourceNameError {
    /// The text of the error.
    pub open spec fn spec_message(&self) -> Seq<char> {
        match self {
            ResourceNameError::Empty => "Resource name is empty"@,
            ResourceNameError::TooLong { name, max } => "Resource name '"@ + name@ + "' exceeds "@
                + decimal(*max as nat) + " characters"@,
            ResourceNameError::InvalidPattern { name } => "Resource name '"@ + name@
                + "' contains invalid characters (must match [a-zA-Z0-9_-]+)"@,
        }
    }

    /// The text of the error, as its `Display` form shows it.
    pub fn message(&self) -> (res: String)
        ensures
            res@ == self.spec_message(),
    {
        match self {
            ResourceNameError::Empty => String::from_str("Resource name is empty"),
            ResourceNameError::TooLong { name, max } => {
                let mut s = String::from_str("Resource name '");
                s.append(name.as_str());
                s.append("' exceeds ");
                let digits = decimal_string(*max as u64);
                s.append(digits.as_str());
                s.append(" characters");
                s
            },
            ResourceNameError::InvalidPattern { name } => {
                let mut s = String::from_str("Resource name '");
                s.append(name.as_str());
                s.append("' contains invalid characters (must match [a-zA-Z0-9_-]+)");
                s
            },
        }
    }
}

impl ResourceErrors {
    /// The text of the error.
    pub open spec fn spec_message(&self) -> Seq<char> {
        match self {
            ResourceErrors::InvalidResourceType { name, required_type, invalid_type } =>
                "Invalid resource type '"@ + invalid_type.spec_name() + "' provided for '"@
                + name@ + "' with type '"@ + required_type.spec_name() + "'"@,
        }
    }

    /// The text of the error, as its `Display` form shows it.
    pub fn message(&self) -> (res: String)
        ensures
            res@ == self.spec_message(),
    {
        match self {
            ResourceErrors::InvalidResourceType { name, required_type, invalid_type } => {
                let mut s = String::from_str("Invalid resource type '");
                s.append(invalid_type.as_str());
                s.append("' provided for '");
                s.append(name.as_str());
                s.append("' with type '");
                s.append(required_type.as_str());
                s.append("'");
                s
            },
        }
    }
}

} // verus!
