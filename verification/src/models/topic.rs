use vstd::prelude::*;

use crate::errors::ResourceErrors;
use crate::models::{ResourceName, ResourceType};

verus! {

/// The outcome of checking a resource name for `required` type: `Ok` when
/// the types agree, else the error naming the full name and both types.
pub open spec fn type_check_result<T>(
    name: ResourceName,
    required: ResourceType,
    res: Result<T, ResourceErrors>,
) -> bool {
    &&& res is Ok <==> name.spec_resource_type() == required
    &&& match res {
        Err(ResourceErrors::InvalidResourceType { name: n, required_type, invalid_type }) => n@
            == name.spec_full_name() && required_type == required && invalid_type
            == name.spec_resource_type(),
        Ok(_) => true,
    }
}

/// An SNS topic known to the library: its full name and its ARN.
#[derive(Debug, Clone)]
pub struct Topic {
    name: String,
    arn: String,
}

impl Topic {
    /// The topic's full name.
    pub closed spec fn spec_name(&self) -> Seq<char> {
        self.name@
    }

    /// The topic's ARN.
    pub closed spec fn spec_arn(&self) -> Seq<char> {
        self.arn@
    }

    /// A topic named `topic_name`, which must name a topic.
    pub fn new(topic_name: ResourceName, arn: &str) -> (res: Result<Self, ResourceErrors>)
        ensures
            type_check_result(topic_name, ResourceType::Topic, res),
            res matches Ok(t) ==> t.spec_name() == topic_name.spec_full_name() && t.spec_arn()
                == arn@,
    {
        match topic_name.validate_resource_type(ResourceType::Topic) {
            Ok(()) => Ok(Topic { name: topic_name.to_string(), arn: arn.to_owned() }),
            Err(e) => Err(e),
        }
    }

    pub fn name(&self) -> (res: &str)
        ensures
            res@ == self.spec_name(),
    {
        self.name.as_str()
    }

    pub fn arn(&self) -> (res: &str)
        ensures
            res@ == self.spec_arn(),
    {
        self.arn.as_str()
    }
}

} // verus!
