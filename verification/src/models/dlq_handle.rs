use vstd::prelude::*;

use crate::errors::ResourceErrors;
use crate::models::{type_check_result, ResourceName, ResourceType};

verus! {

/// A dead-letter queue: its full name, URL and ARN.
#[derive(Debug)]
pub struct DlqHandle {
    name: String,
    url: String,
    arn: String,
}

impl DlqHandle {
    /// The queue's full name.
    pub closed spec fn spec_name(&self) -> Seq<char> {
        self.name@
    }

    /// The queue's URL.
    pub closed spec fn spec_url(&self) -> Seq<char> {
        self.url@
    }

    /// The queue's ARN.
    pub closed spec fn spec_arn(&self) -> Seq<char> {
        self.arn@
    }

    /// A dead-letter queue named `queue_name`, which must name a queue.
    pub fn new(queue_name: ResourceName, url: String, arn: String) -> (res: Result<
        Self,
        ResourceErrors,
    >)
        ensures
            type_check_result(queue_name, ResourceType::Queue, res),
            res matches Ok(d) ==> d.spec_name() == queue_name.spec_full_name() && d.spec_url()
                == url@ && d.spec_arn() == arn@,
    {
        match queue_name.validate_resource_type(ResourceType::Queue) {
            Ok(()) => Ok(DlqHandle { name: queue_name.to_string(), url, arn }),
            Err(e) => Err(e),
        }
    }

    pub fn name(&self) -> (res: &str)
        ensures
            res@ == self.spec_name(),
    {
        self.name.as_str()
    }

    pub fn url(&self) -> (res: &str)
        ensures
            res@ == self.spec_url(),
    {
        self.url.as_str()
    }

    pub fn arn(&self) -> (res: &str)
        ensures
            res@ == self.spec_arn(),
    {
        self.arn.as_str()
    }
}

} // verus!
