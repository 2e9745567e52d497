use vstd::prelude::*;

verus! {

/// What to do with a message once its handlers have run.
#[derive(Debug, Clone, Copy, PartialEq, Eq, Structural)]
pub enum MessageDeleteMode {
    /// Never delete: the message comes back after the visibility timeout.
    LeaveIt,
    /// Delete once every handler has been called, whatever they answered.
    DeleteAllCalled,
    /// Delete only when every handler handled the message.
    DeleteAllHandled,
}

/// How the handlers of a subscription run on each message.
#[derive(Debug, Clone, Copy, PartialEq, Eq, Structural)]
pub enum HandlerExecutionMode {
    /// One after the other, in the order they were given.
    Sequential,
    /// All at once.
    Parallel,
}

/// The attribute of an SNS topic that the library sets.
#[derive(Debug, Clone, Copy, PartialEq, Eq, Structural)]
pub enum SnsTopicAttribute {
    DeliveryPolicy,
}

impl SnsTopicAttribute {
    /// The attribute's AWS name.
    pub open spec fn spec_name(self) -> Seq<char> {
        match self {
            SnsTopicAttribute::DeliveryPolicy => "DeliveryPolicy"@,
        }
    }

    /// The attribute's AWS name.
    pub fn as_str(self) -> (res: &'static str)
        ensures
            res@ == self.spec_name(),
    {
        match self {
            SnsTopicAttribute::DeliveryPolicy => "DeliveryPolicy",
        }
    }
}

} // verus!
