use vstd::prelude::*;

verus! {

/// The banner written to every connection as soon as it is accepted:
/// `Welcome to Simple Chat! Use /nick <nick> to set your nick.` and a
/// newline.
pub open spec fn spec_welcome_banner() -> Seq<u8> {
    seq![
        87u8, 101u8, 108u8, 99u8, 111u8, 109u8, 101u8, 32u8, 116u8, 111u8, 32u8, 83u8, 105u8,
        109u8, 112u8, 108u8, 101u8, 32u8, 67u8, 104u8, 97u8, 116u8, 33u8, 32u8, 85u8, 115u8,
        101u8, 32u8, 47u8, 110u8, 105u8, 99u8, 107u8, 32u8, 60u8, 110u8, 105u8, 99u8, 107u8,
        62u8, 32u8, 116u8, 111u8, 32u8, 115u8, 101u8, 116u8, 32u8, 121u8, 111u8, 117u8, 114u8,
        32u8, 110u8, 105u8, 99u8, 107u8, 46u8, 10u8,
    ]
}

/// The welcome banner as bytes ready for the wire.
pub fn welcome_banner() -> (r: Vec<u8>)
    ensures
        r@ == spec_welcome_banner(),
{
    let v: Vec<u8> = vec![
        87u8, 101u8, 108u8, 99u8, 111u8, 109u8, 101u8, 32u8, 116u8, 111u8, 32u8, 83u8, 105u8,
        109u8, 112u8, 108u8, 101u8, 32u8, 67u8, 104u8, 97u8, 116u8, 33u8, 32u8, 85u8, 115u8,
        101u8, 32u8, 47u8, 110u8, 105u8, 99u8, 107u8, 32u8, 60u8, 110u8, 105u8, 99u8, 107u8,
        62u8, 32u8, 116u8, 111u8, 32u8, 115u8, 101u8, 116u8, 32u8, 121u8, 111u8, 117u8, 114u8,
        32u8, 110u8, 105u8, 99u8, 107u8, 46u8, 10u8,
    ];
    proof {
        assert(v@ =~= spec_welcome_banner());
    }
    v
}

/// Which of a connection's two flows is meant.
pub enum FlowKind {
    Receive,
    Send,
}

/// The supervisor's view of a connection's two coupled flows. The two
/// have no independent reason to exist: as soon as either terminates, the
/// supervisor cancels the survivor and the connection is closed.
pub struct FlowPair {
    pub receive_running: bool,
    pub send_running: bool,
}

impl FlowPair {
    /// The connection is closed once neither flow runs.
    pub open spec fn closed(self) -> bool {
        !self.receive_running && !self.send_running
    }

    /// Both flows start together, once the welcome banner was written.
    pub fn new() -> (r: FlowPair)
        ensures
            r.receive_running,
            r.send_running,
            !r.closed(),
    {
        FlowPair { receive_running: true, send_running: true }
    }

    /// Flow coupling: one flow has terminated (normally or not); the
    /// supervisor marks it stopped and decides whether the sibling must be
    /// cancelled. Afterwards neither flow runs: the connection is closed.
    pub fn on_flow_exit(&mut self, which: FlowKind) -> (cancel_sibling: bool)
        ensures
            final(self).closed(),
            which is Receive ==> cancel_sibling == old(self).send_running,
            which is Send ==> cancel_sibling == old(self).receive_running,
    {
        let cancel_sibling = match which {
            FlowKind::Receive => self.send_running,
            FlowKind::Send => self.receive_running,
        };
        self.receive_running = false;
        self.send_running = false;
        cancel_sibling
    }
}

} // verus!
