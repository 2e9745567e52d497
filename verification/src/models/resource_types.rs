use vstd::prelude::*;

verus! {

/// The two kinds of AWS resource that the library creates.
#[derive(Debug, Clone, Copy, PartialEq, Eq, Structural)]
pub enum ResourceType {
    Topic,
    Queue,
}

impl ResourceType {
    /// The display name of the resource type.
    pub open spec fn spec_name(self) -> Seq<char> {
        match self {
            ResourceType::Topic => "Topic"@,
            ResourceType::Queue => "Queue"@,
        }
    }

    /// The display name of the resource type, as `Display` would print it.
    pub fn as_str(self) -> (res: &'static str)
        ensures
            res@ == self.spec_name(),
    {
        match self {
            ResourceType::Topic => "Topic",
            ResourceType::Queue => "Queue",
        }
    }
}

} // verus!
