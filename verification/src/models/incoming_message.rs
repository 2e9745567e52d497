use vstd::prelude::*;

verus! {

/// A message received from a queue: its body and the receipt handle that
/// deletes it.
#[derive(Debug)]
pub struct IncomingMessage {
    body: String,
    receipt_handle: String,
}

impl IncomingMessage {
    /// The message body.
    pub closed spec fn spec_body(&self) -> Seq<char> {
        self.body@
    }

    /// The receipt handle.
    pub closed spec fn spec_receipt_handle(&self) -> Seq<char> {
        self.receipt_handle@
    }

    pub fn new(body: String, receipt_handle: String) -> (res: IncomingMessage)
        ensures
            res.spec_body() == body@,
            res.spec_receipt_handle() == receipt_handle@,
    {
        IncomingMessage { body, receipt_handle }
    }

    pub fn body(&self) -> (res: &str)
        ensures
            res@ == self.spec_body(),
    {
        self.body.as_str()
    }

    pub fn receipt_handle(&self) -> (res: &str)
        ensures
            res@ == self.spec_receipt_handle(),
    {
        self.receipt_handle.as_str()
    }
}

} // verus!
