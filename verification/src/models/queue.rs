use std::sync::atomic::AtomicBool;
use std::sync::atomic::Ordering;
use vstd::prelude::*;

use crate::errors::ResourceErrors;
use crate::models::{type_check_result, ResourceName, ResourceType};

verus! {

/// An SQS queue known to the library: its full name, ARN and URL, the ARN of
/// the topic that feeds it, and whether a subscriber is polling it. The
/// subscription flag is an atomic shared by every holder of the queue.
#[derive(Debug)]
pub struct Queue {
    name: String,
    arn: String,
    url: String,
    sns_arn: String,
    subscribed: AtomicBool,
}

impl Queue {
    /// The queue's full name.
    pub closed spec fn spec_name(&self) -> Seq<char> {
        self.name@
    }

    /// The queue's ARN.
    pub closed spec fn spec_arn(&self) -> Seq<char> {
        self.arn@
    }

    /// The queue's URL.
    pub closed spec fn spec_url(&self) -> Seq<char> {
        self.url@
    }

    /// The ARN of the topic that feeds the queue.
    pub closed spec fn spec_sns_arn(&self) -> Seq<char> {
        self.sns_arn@
    }

    /// A queue named `queue_name`, which must name a queue; it starts
    /// without a subscriber.
    pub fn new(queue_name: ResourceName, arn: &str, url: String, sns_arn: &str) -> (res: Result<
        Queue,
        ResourceErrors,
    >)
        ensures
            type_check_result(queue_name, ResourceType::Queue, res),
            res matches Ok(q) ==> q.spec_name() == queue_name.spec_full_name() && q.spec_arn()
                == arn@ && q.spec_url() == url@ && q.spec_sns_arn() == sns_arn@,
    {
        match queue_name.validate_resource_type(ResourceType::Queue) {
            Ok(()) => Ok(
                Queue {
                    name: queue_name.to_string(),
                    arn: arn.to_owned(),
                    url,
                    sns_arn: sns_arn.to_owned(),
                    subscribed: AtomicBool::new(false),
                },
            ),
            Err(e) => Err(e),
        }
    }

    pub fn name(&self) -> (res: &str)
        ensures
            res@ == self.spec_name(),
    {
        self.name.as_str()
    }

    pub fn arn(&self) -> (res: &str)
        ensures
            res@ == self.spec_arn(),
    {
        self.arn.as_str()
    }

    pub fn url(&self) -> (res: &str)
        ensures
            res@ == self.spec_url(),
    {
        self.url.as_str()
    }

    pub fn sns_arn(&self) -> (res: &str)
        ensures
            res@ == self.spec_sns_arn(),
    {
        self.sns_arn.as_str()
    }

    /// Whether a subscriber holds the queue at the moment of the call. Every
    /// holder of the queue may change the flag at any time, so no contract
    /// states the answer.
    pub fn is_subscribed(&self) -> bool {
        self.subscribed.load(Ordering::Acquire)
    }

    /// Marks the queue as subscribed if it was not; answers whether this call
    /// did so. The answer depends on what other holders did to the shared
    /// flag, so no contract states it.
    pub fn try_subscribe(&self) -> bool {
        self.subscribed.compare_exchange(false, true, Ordering::AcqRel, Ordering::Acquire).is_ok()
    }

    /// Marks the queue as free again.
    pub fn unsubscribe(&self) {
        self.subscribed.store(false, Ordering::Release);
    }
}

} // verus!
