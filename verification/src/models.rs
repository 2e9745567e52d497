mod backoff_function;
mod dlq_handle;
mod incoming_message;
mod modes;
mod queue;
mod queue_dlq;
mod resource_name;
mod resource_naming_options;
mod resource_types;
mod separator_symbol;
mod topic;

pub use backoff_function::{
    backoff_from_key, backoff_key, lemma_backoff_name_round_trip, BackoffFunction,
};
pub use dlq_handle::DlqHandle;
pub use incoming_message::IncomingMessage;
pub use modes::{HandlerExecutionMode, MessageDeleteMode, SnsTopicAttribute};
pub use queue::Queue;
pub use queue_dlq::{redrive_policy_text, QueueDlq};
pub use resource_name::{
    compose_name, compose_with_options, max_name_len, name_check_passes,
    name_check_result, separator_part, ResourceName, AWS_NAME_PATTERN,
};
pub use resource_naming_options::{opt_ref_view, opt_str_view, ResourceNamingOptions};
pub use resource_types::ResourceType;
pub use separator_symbol::SeparatorSymbol;
pub use topic::{type_check_result, Topic};
