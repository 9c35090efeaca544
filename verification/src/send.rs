use vstd::prelude::*;
use crate::client::Client;
use crate::medium::Medium;
use crate::medium::RecvOutcome;
use crate::msg::Message;
use crate::receive::newline;

verus! {

/// What one Send Flow step decided.
pub enum SendAction {
    /// Nothing pending: await the medium's next message.
    Wait,
    /// Write these bytes to the connection's outbound half.
    Write(Vec<u8>),
    /// The message came from this client itself: discard it silently.
    Skip,
    /// The flow reached its terminal state (a lagging subscription is
    /// fatal: the connection is dropped rather than skipped ahead).
    Close,
}

/// The line a client with id `cid` is handed for broadcast message `m`:
/// nothing when the message is the client's own echo, otherwise the
/// message text with the delimiter restored.
pub open spec fn delivered_line(cid: u32, m: (u32, Seq<u8>)) -> Option<Seq<u8>> {
    if m.0 == cid {
        Option::None
    } else {
        Option::Some(m.1 + seq![newline()])
    }
}

/// One step of the Send Flow state machine, fed by what the subscription
/// yielded. A pending message is compared against the client record's id
/// at delivery time: the client's own messages are discarded, every other
/// message is written out with its newline delimiter restored.
pub fn send_step(client: &Client, ev: RecvOutcome) -> (r: SendAction)
    ensures
        ev is Empty ==> r is Wait,
        ev is Lagged ==> r is Close,
        ev matches RecvOutcome::Msg(m) ==> (m.sender_id == client.id ==> r is Skip),
        ev matches RecvOutcome::Msg(m) ==> (m.sender_id != client.id ==> (r matches
            SendAction::Write(out) && Option::Some(out@) == delivered_line(client.id, m@))),
{
    match ev {
        RecvOutcome::Empty => SendAction::Wait,
        RecvOutcome::Lagged => SendAction::Close,
        RecvOutcome::Msg(m) => {
            if m.sender_id == client.id {
                SendAction::Skip
            } else {
                let mut out = m.text;
                out.push(10);
                SendAction::Write(out)
            }
        },
    }
}

/// Isolation: a message just published is retained at history index
/// `pre.total`, which sits at or ahead of every subscriber's cursor and
/// within the retained range — in particular a caught-up subscriber
/// (cursor at `pre.total`) is handed exactly this message by its next
/// `recv`. The delivery filter passes it to exactly the clients whose id
/// differs from the sender's: the sender never gets its own message back.
pub proof fn lemma_isolation(pre: Medium, post: Medium, m: (u32, Seq<u8>), k: int, cid: u32)
    requires
        pre.wf(),
        post.wf(),
        Medium::published(pre, post, m),
        0 <= k < pre.subs@.len(),
    ensures
        post.subs@[k].cursor <= pre.total,
        post.base() <= pre.total < post.total,
        post.history@[pre.total as int] == m,
        delivered_line(cid, m) is Some <==> cid != m.0,
        delivered_line(cid, m) matches Option::Some(line) ==> line == m.1 + seq![newline()],
{
    assert(post.history@[pre.total as int] == pre.history@.push(m)[pre.history@.len() as int]);
}

} // verus!
