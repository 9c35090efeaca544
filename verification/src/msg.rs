use vstd::prelude::*;

verus! {

/// One broadcast message: the sender's connection id and the already
/// formatted chat line (without the trailing newline delimiter).
pub struct Message {
    pub sender_id: u32,
    pub text: Vec<u8>,
}

impl View for Message {
    type V = (u32, Seq<u8>);

    open spec fn view(&self) -> (u32, Seq<u8>) {
        (self.sender_id, self.text@)
    }
}

impl Message {
    /// An independent copy carrying the same sender id and the same bytes.
    pub fn duplicate(&self) -> (r: Message)
        ensures
            r@ == self@,
    {
        let mut text: Vec<u8> = Vec::new();
        let mut i: usize = 0;
        while i < self.text.len()
            invariant
                i <= self.text@.len(),
                text@ == self.text@.subrange(0, i as int),
            decreases self.text@.len() - i,
        {
            text.push(self.text[i]);
            i = i + 1;
            proof {
                assert(text@ =~= self.text@.subrange(0, i as int));
            }
        }
        proof {
            assert(text@ =~= self.text@);
        }
        Message { sender_id: self.sender_id, text }
    }
}

} // verus!
