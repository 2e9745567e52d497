use vstd::prelude::*;
use vstd::string::*;

use crate::text::{decimal, decimal_string};
use crate::trusted::{json_encode_str, json_str};

verus! {

/// The redrive policy text of a queue, as `serde_json` writes the object:
/// the dead-letter queue's ARN and the receive count, itself a string.
pub open spec fn redrive_policy_text(arn: Seq<char>, max_receive_count: u32) -> Seq<char> {
    "{\"deadLetterTargetArn\":"@ + json_str(arn) + ",\"maxReceiveCount\":"@ + json_str(
        decimal(max_receive_count as nat),
    ) + "}"@
}

/// Where a queue sends messages that were received too often without being
/// deleted.
#[derive(Debug, Clone)]
pub struct QueueDlq {
    /// ARN of the dead-letter queue.
    pub arn: String,
    /// Receives of a message before it moves to the dead-letter queue.
    pub max_receive_count: u32,
}

impl QueueDlq {
    pub fn new(arn: &str, max_receive_count: u32) -> (res: Self)
        ensures
            res.arn@ == arn@,
            res.max_receive_count == max_receive_count,
    {
        QueueDlq { arn: arn.to_owned(), max_receive_count }
    }

    /// The redrive policy JSON of the queue.
    pub fn queue_dlq_json(&self) -> (res: String)
        ensures
            res@ == redrive_policy_text(self.arn@, self.max_receive_count),
    {
        let mut s = String::from_str("{\"deadLetterTargetArn\":");
        let arn = match json_encode_str(self.arn.as_str()) {
            Ok(t) => t,
            Err(_) => {
                proof {
                    assert(false);
                }
                String::new()
            },
        };
        s.append(arn.as_str());
        s.append(",\"maxReceiveCount\":");
        let count = decimal_string(self.max_receive_count as u64);
        let count_json = match json_encode_str(count.as_str()) {
            Ok(t) => t,
            Err(_) => {
                proof {
                    assert(false);
                }
                String::new()
            },
        };
        s.append(count_json.as_str());
        s.append("}");
        s
    }
}

} // verus!
