use vstd::prelude::*;

verus! {

/// The decimal digits of `n`, most significant first, as ASCII bytes.
pub open spec fn spec_decimal(n: int) -> Seq<u8>
    recommends
        n >= 0,
    decreases n,
{
    if n < 10 {
        seq![(48 + if n >= 0 { n } else { 0 }) as u8]
    } else {
        spec_decimal(n / 10).push((48 + n % 10) as u8)
    }
}

/// The default display name for connection id `n`: `User <n>`.
pub open spec fn spec_default_nick(n: u32) -> Seq<u8> {
    seq![85u8, 115u8, 101u8, 114u8, 32u8] + spec_decimal(n as int)
}

/// Renders `n` in decimal, most significant digit first.
pub fn decimal(n: u32) -> (r: Vec<u8>)
    ensures
        r@ == spec_decimal(n as int),
{
    let mut acc: Vec<u8> = Vec::new();
    let mut m: u32 = n;
    while m >= 10
        invariant
            spec_decimal(n as int) == spec_decimal(m as int) + acc@,
        decreases m,
    {
        let d: u8 = 48 + (m % 10) as u8;
        proof {
            assert(spec_decimal(m as int) == spec_decimal(m as int / 10).push(d));
            assert(spec_decimal(m as int / 10).push(d) + acc@
                =~= spec_decimal(m as int / 10) + (seq![d] + acc@));
            assert(seq![d] + acc@ =~= acc@.insert(0, d));
        }
        acc.insert(0, d);
        m = m / 10;
    }
    let d: u8 = 48 + (m % 10) as u8;
    proof {
        assert(spec_decimal(m as int) =~= seq![d]);
        assert(spec_decimal(m as int) + acc@ =~= acc@.insert(0, d));
    }
    acc.insert(0, d);
    acc
}

/// Per-connection identity, shared between the connection's two flows:
/// an immutable numeric id and a mutable display name.
pub struct Client {
    pub id: u32,
    pub nick: Vec<u8>,
}

impl Client {
    /// A fresh record for connection `id`, named `User <id>`.
    pub fn new(id: u32) -> (r: Client)
        ensures
            r.id == id,
            r.nick@ == spec_default_nick(id),
    {
        let mut nick: Vec<u8> = Vec::new();
        nick.push(85);
        nick.push(115);
        nick.push(101);
        nick.push(114);
        nick.push(32);
        let digits = decimal(id);
        let mut i: usize = 0;
        while i < digits.len()
            invariant
                i <= digits@.len(),
                nick@ == seq![85u8, 115u8, 101u8, 114u8, 32u8] + digits@.subrange(0, i as int),
            decreases digits@.len() - i,
        {
            let b = digits[i];
            nick.push(b);
            i = i + 1;
            proof {
                assert(nick@ =~= seq![85u8, 115u8, 101u8, 114u8, 32u8]
                    + digits@.subrange(0, i as int));
            }
        }
        proof {
            assert(digits@.subrange(0, digits@.len() as int) =~= digits@);
        }
        Client { id, nick }
    }

    /// Replaces the display name wholesale; the id never changes.
    pub fn set_nick(&mut self, nick: Vec<u8>)
        ensures
            final(self).id == old(self).id,
            final(self).nick@ == nick@,
    {
        self.nick = nick;
    }
}

} // verus!
