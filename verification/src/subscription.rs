//! The decisions of a running subscription: whether the queue is already
//! subscribed to its topic, which received messages are kept and in what
//! order they are handed out, and how the polling loop reacts to events.

use std::collections::VecDeque;
use vstd::prelude::*;

use crate::dispatch::{delete_decision, MessageDispatch};
use crate::errors::PubSubError;
use crate::models::{opt_str_view, IncomingMessage, MessageDeleteMode, Queue};
use crate::text::str_eq;

verus! {

/// One subscription of a topic, as AWS lists it.
#[derive(Debug, Clone)]
pub struct SubscriptionEntry {
    pub protocol: Option<String>,
    pub endpoint: Option<String>,
}

/// Whether a listed subscription delivers the topic to the queue `queue_arn`
/// over SQS.
pub open spec fn entry_matches(e: SubscriptionEntry, queue_arn: Seq<char>) -> bool {
    opt_str_view(e.protocol) == Some("sqs"@) && opt_str_view(e.endpoint) == Some(queue_arn)
}

/// What to do after reading one page of a topic's subscriptions.
#[derive(Debug, Clone, PartialEq, Eq)]
pub enum SubscriptionStep {
    /// The queue is already subscribed: nothing to do.
    AlreadySubscribed,
    /// Read the next page, which starts at this token.
    FetchPage(String),
    /// No page lists the queue: subscribe it.
    Subscribe,
}

fn opt_str_eq(a: &Option<String>, b: &str) -> (res: bool)
    ensures
        res == (opt_str_view(*a) == Some(b@)),
{
    match a {
        Some(s) => str_eq(s.as_str(), b),
        None => false,
    }
}

/// Whether some subscription on `page` delivers the topic to `queue_arn`.
pub open spec fn page_lists(page: Seq<SubscriptionEntry>, queue_arn: Seq<char>) -> bool {
    exists|i: int| 0 <= i < page.len() && entry_matches(#[trigger] page[i], queue_arn)
}

/// The step that follows one page of subscriptions and its next token.
pub open spec fn step_after_page(
    page: Seq<SubscriptionEntry>,
    next_token: Option<String>,
    queue_arn: Seq<char>,
) -> SubscriptionStep {
    if page_lists(page, queue_arn) {
        SubscriptionStep::AlreadySubscribed
    } else {
        match next_token {
            Some(t) => SubscriptionStep::FetchPage(t),
            None => SubscriptionStep::Subscribe,
        }
    }
}

/// The outcome of reading `pages` (each a page and the token that follows
/// it) in order, one step per page, moving on while the step asks for the
/// next page.
pub open spec fn walk_pages(
    pages: Seq<(Seq<SubscriptionEntry>, Option<String>)>,
    queue_arn: Seq<char>,
) -> SubscriptionStep
    decreases pages.len(),
{
    if pages.len() == 0 {
        SubscriptionStep::Subscribe
    } else {
        let step = step_after_page(pages[0].0, pages[0].1, queue_arn);
        if step is FetchPage && pages.len() > 1 {
            walk_pages(pages.drop_first(), queue_arn)
        } else {
            step
        }
    }
}

/// Whether `pages` is a complete listing: at least one page, every page but
/// the last followed by a token, the last by none.
pub open spec fn complete_listing(pages: Seq<(Seq<SubscriptionEntry>, Option<String>)>) -> bool {
    &&& pages.len() > 0
    &&& forall|i: int| 0 <= i < pages.len() - 1 ==> (#[trigger] pages[i]).1 is Some
    &&& pages.last().1 is None
}

/// Across a complete listing of a topic's subscriptions, read page by page:
/// the queue is found to be subscribed exactly when some page lists it, and
/// it is to be subscribed exactly when no page does.
pub proof fn lemma_walk_pages(
    pages: Seq<(Seq<SubscriptionEntry>, Option<String>)>,
    queue_arn: Seq<char>,
)
    requires
        complete_listing(pages),
    ensures
        walk_pages(pages, queue_arn) == if exists|i: int|
            0 <= i < pages.len() && page_lists(#[trigger] pages[i].0, queue_arn) {
            SubscriptionStep::AlreadySubscribed
        } else {
            SubscriptionStep::Subscribe
        },
    decreases pages.len(),
{
    if pages.len() == 1 {
        assert(pages[0] == pages.last());
    } else {
        let rest = pages.drop_first();
        assert forall|i: int| 0 <= i < rest.len() - 1 implies (#[trigger] rest[i]).1 is Some by {
            assert(rest[i] == pages[i + 1]);
        }
        assert(rest.last() == pages.last());
        lemma_walk_pages(rest, queue_arn);
        assert(pages[0].1 is Some);
        if !page_lists(pages[0].0, queue_arn) {
            if exists|i: int| 0 <= i < pages.len() && page_lists(#[trigger] pages[i].0, queue_arn) {
                let i = choose|i: int|
                    0 <= i < pages.len() && page_lists(#[trigger] pages[i].0, queue_arn);
                assert(rest[i - 1] == pages[i]);
            } else {
                assert forall|i: int| 0 <= i < rest.len() implies !page_lists(
                    #[trigger] rest[i].0,
                    queue_arn,
                ) by {
                    assert(rest[i] == pages[i + 1]);
                }
            }
        }
    }
}

/// A page shows the queue as subscribed only through a subscription of its
/// own: some listed subscription whose protocol is exactly `sqs` and whose
/// endpoint is exactly the queue's ARN. Any other page, whatever ARNs it
/// lists (one that merely starts with the queue's ARN included), leads on to
/// the next page when a token follows it and to subscribing the queue when
/// none does.
pub proof fn lemma_step_needs_exact_endpoint(
    page: Seq<SubscriptionEntry>,
    next_token: Option<String>,
    queue_arn: Seq<char>,
)
    ensures
        (step_after_page(page, next_token, queue_arn) == SubscriptionStep::AlreadySubscribed)
            <==> exists|i: int|
            0 <= i < page.len() && (#[trigger] page[i]).protocol is Some
                && page[i].protocol.unwrap()@ == "sqs"@ && page[i].endpoint is Some
                && page[i].endpoint.unwrap()@ == queue_arn,
        (forall|i: int|
            0 <= i < page.len() && (#[trigger] page[i]).protocol is Some
                && page[i].protocol.unwrap()@ == "sqs"@ && page[i].endpoint is Some
                ==> page[i].endpoint.unwrap()@ != queue_arn) ==> step_after_page(
            page,
            next_token,
            queue_arn,
        ) == match next_token {
            Some(t) => SubscriptionStep::FetchPage(t),
            None => SubscriptionStep::Subscribe,
        },
{
    if page_lists(page, queue_arn) {
        let i = choose|i: int| 0 <= i < page.len() && entry_matches(#[trigger] page[i], queue_arn);
        assert(page[i].protocol is Some && page[i].protocol.unwrap()@ == "sqs"@);
    }
    if exists|i: int|
        0 <= i < page.len() && (#[trigger] page[i]).protocol is Some
            && page[i].protocol.unwrap()@ == "sqs"@ && page[i].endpoint is Some
            && page[i].endpoint.unwrap()@ == queue_arn {
        let i = choose|i: int|
            0 <= i < page.len() && (#[trigger] page[i]).protocol is Some
                && page[i].protocol.unwrap()@ == "sqs"@ && page[i].endpoint is Some
                && page[i].endpoint.unwrap()@ == queue_arn;
        assert(entry_matches(page[i], queue_arn));
    }
}

/// Decides, from one page of the topic's subscriptions and the token of
/// the next page, whether the queue is subscribed, another page must be
/// read, or the queue must be subscribed now.
pub fn subscription_step(
    page: &Vec<SubscriptionEntry>,
    next_token: Option<String>,
    queue_arn: &str,
) -> (res: SubscriptionStep)
    ensures
        res == step_after_page(page@, next_token, queue_arn@),
{
    let mut i: usize = 0;
    while i < page.len()
        invariant
            i <= page@.len(),
            forall|k: int| 0 <= k < i ==> !entry_matches(#[trigger] page@[k], queue_arn@),
        decreases page@.len() - i,
    {
        if opt_str_eq(&page[i].protocol, "sqs") && opt_str_eq(&page[i].endpoint, queue_arn) {
            assert(entry_matches(page@[i as int], queue_arn@));
            return SubscriptionStep::AlreadySubscribed;
        }
        i = i + 1;
    }
    match next_token {
        Some(t) => SubscriptionStep::FetchPage(t),
        None => SubscriptionStep::Subscribe,
    }
}

/// A message as a receive call answers it; either part may be missing.
#[derive(Debug, Clone)]
pub struct RawMessage {
    pub body: Option<String>,
    pub receipt_handle: Option<String>,
}

/// The body and receipt handle of each received message that has both, in
/// the order received; the others are dropped.
pub open spec fn kept_messages(raw: Seq<RawMessage>) -> Seq<(Seq<char>, Seq<char>)>
    decreases raw.len(),
{
    if raw.len() == 0 {
        Seq::empty()
    } else {
        let rest = kept_messages(raw.drop_last());
        match (raw.last().body, raw.last().receipt_handle) {
            (Some(b), Some(h)) => rest.push((b@, h@)),
            _ => rest,
        }
    }
}

/// The view of a message: its body and receipt handle.
pub open spec fn message_view(m: IncomingMessage) -> (Seq<char>, Seq<char>) {
    (m.spec_body(), m.spec_receipt_handle())
}

/// The messages received from a queue and not yet handed out, oldest first.
pub struct MessageBuffer {
    pending: VecDeque<IncomingMessage>,
}

impl MessageBuffer {
    /// The pending messages, oldest first.
    pub closed spec fn spec_pending(&self) -> Seq<(Seq<char>, Seq<char>)> {
        self.pending@.map_values(|m: IncomingMessage| message_view(m))
    }

    /// An empty buffer.
    pub fn new() -> (res: Self)
        ensures
            res.spec_pending() == Seq::<(Seq<char>, Seq<char>)>::empty(),
    {
        MessageBuffer { pending: VecDeque::new() }
    }

    /// Whether no message is pending.
    pub fn is_empty(&self) -> (res: bool)
        ensures
            res == (self.spec_pending().len() == 0),
    {
        self.pending.len() == 0
    }

    /// Adds the answer of a receive call: every message with both a body
    /// and a receipt handle, in order, after those already pending.
    pub fn receive(&mut self, raw: &Vec<RawMessage>)
        ensures
            final(self).spec_pending() == old(self).spec_pending() + kept_messages(raw@),
    {
        let ghost before = self.spec_pending();
        let mut i: usize = 0;
        assert(raw@.take(0) =~= Seq::<RawMessage>::empty());
        assert(before + kept_messages(raw@.take(0)) =~= before);
        while i < raw.len()
            invariant
                i <= raw@.len(),
                self.spec_pending() == before + kept_messages(raw@.take(i as int)),
            decreases raw@.len() - i,
        {
            let ghost old_pending = self.pending@;
            assert(raw@.take(i + 1).drop_last() =~= raw@.take(i as int));
            assert(raw@.take(i + 1).last() == raw@[i as int]);
            match (&raw[i].body, &raw[i].receipt_handle) {
                (Some(b), Some(h)) => {
                    let m = IncomingMessage::new(b.clone(), h.clone());
                    self.pending.push_back(m);
                    assert(self.pending@ == old_pending.push(m));
                    assert(self.spec_pending() =~= old_pending.map_values(
                        |m: IncomingMessage| message_view(m),
                    ).push(message_view(m)));
                },
                _ => {},
            }
            i = i + 1;
        }
        assert(raw@.take(raw@.len() as int) =~= raw@);
    }

    /// Hands out the oldest pending message, if any.
    pub fn next(&mut self) -> (res: Option<IncomingMessage>)
        ensures
            match res {
                Some(m) => old(self).spec_pending().len() > 0 && message_view(m) == old(
                    self,
                ).spec_pending()[0] && final(self).spec_pending() == old(
                    self,
                ).spec_pending().drop_first(),
                None => old(self).spec_pending().len() == 0 && final(self).spec_pending() == old(
                    self,
                ).spec_pending(),
            },
    {
        let ghost before = self.pending@;
        let res = self.pending.pop_front();
        proof {
            if res is Some {
                assert(self.spec_pending() =~= before.map_values(
                    |m: IncomingMessage| message_view(m),
                ).drop_first());
            }
        }
        res
    }
}

/// What happened while a subscription waits for its next message.
#[derive(Debug, Clone, Copy, PartialEq, Eq, Structural)]
pub enum PollEvent {
    /// The subscription was cancelled.
    Cancelled,
    /// A message arrived.
    Message,
    /// Polling the queue failed, retries included.
    PollFailed,
    /// The stream of messages ended.
    StreamEnded,
}

/// How the subscription loop goes on after an event.
#[derive(Debug, PartialEq, Eq)]
pub enum LoopStep {
    /// Run the handlers on the message.
    Dispatch,
    /// Keep polling; a failed poll is retried on the next one.
    KeepPolling,
    /// Leave the loop with this result.
    Stop(Result<(), PubSubError>),
}

/// The subscription loop's answer to an event: cancellation ends it without
/// error, a message is dispatched, a failed poll is retried, and the end of
/// the stream of the queue at `queue_url` ends it with an error.
pub fn loop_step(event: PollEvent, queue_url: &str) -> (res: LoopStep)
    ensures
        match event {
            PollEvent::Cancelled => res == LoopStep::Stop(Ok(())),
            PollEvent::Message => res == LoopStep::Dispatch,
            PollEvent::PollFailed => res == LoopStep::KeepPolling,
            PollEvent::StreamEnded => match res {
                LoopStep::Stop(Err(PubSubError::UnexpectedCompletion(u))) => u@ == queue_url@,
                _ => false,
            },
        },
{
    match event {
        PollEvent::Cancelled => LoopStep::Stop(Ok(())),
        PollEvent::Message => LoopStep::Dispatch,
        PollEvent::PollFailed => LoopStep::KeepPolling,
        PollEvent::StreamEnded => LoopStep::Stop(
            Err(PubSubError::UnexpectedCompletion(queue_url.to_owned())),
        ),
    }
}


/// What follows the run of a message's handlers.
#[derive(Debug, PartialEq, Eq)]
pub enum DispatchEnd {
    /// Leave the subscription loop with this result; the message stays.
    Stop(Result<(), PubSubError>),
    /// Delete the message, then keep polling.
    DeleteMessage,
    /// Keep the message (it comes back after its visibility timeout), then
    /// keep polling.
    KeepMessage,
}

/// What follows the run of a message's handlers: a cancellation while they
/// ran ends the subscription without error and leaves the message; else the
/// message is deleted exactly when the dispatch says so.
pub fn dispatch_end(
    dispatch: &MessageDispatch,
    cancelled: bool,
    delete_mode: MessageDeleteMode,
) -> (res: DispatchEnd)
    ensures
        cancelled ==> res == DispatchEnd::Stop(Ok(())),
        !cancelled ==> res == if dispatch.spec_started() == dispatch.spec_finished()
            && delete_decision(delete_mode, dispatch.spec_all_handled()) {
            DispatchEnd::DeleteMessage
        } else {
            DispatchEnd::KeepMessage
        },
{
    if cancelled {
        DispatchEnd::Stop(Ok(()))
    } else if dispatch.should_delete(delete_mode) {
        DispatchEnd::DeleteMessage
    } else {
        DispatchEnd::KeepMessage
    }
}

/// Ends a subscription of `queue` with `outcome`: the queue is released for
/// the next subscriber, whether the subscription failed to start, was
/// cancelled or lost its stream, and the outcome is handed back.
pub fn release_subscription<E>(queue: &Queue, outcome: Result<(), E>) -> (res: Result<(), E>)
    ensures
        res == outcome,
{
    queue.unsubscribe();
    outcome
}

} // verus!
