use vstd::prelude::*;

use crate::id::Flake;
use crate::id::pack_spec;
use crate::seq::SeqGen;
use crate::seq::advances;

verus! {

/// A generator of flake identifiers for one node: an immutable node
/// identifier of at most 48 bits, and the node's sequence counter.
pub struct FlakeGen {
    node_id: u64,
    seq: SeqGen,
}

/// Whether one successful generation step leads from generator state `pre`
/// to state `post` and yields `id`: the counter advances to a strictly
/// greater `(timestamp, sequence)` pair, the node is unchanged, and `id`
/// packs the new pair with the node identifier.
pub open spec fn generates(pre: FlakeGen, post: FlakeGen, id: Flake) -> bool {
    &&& post.node_id() == pre.node_id()
    &&& advances(
        pre.counter().last_timestamp(),
        pre.counter().last_sequence(),
        post.counter().last_timestamp(),
        post.counter().last_sequence(),
    )
    &&& id@ == pack_spec(
        post.counter().last_timestamp(),
        post.node_id(),
        post.counter().last_sequence(),
    )
}

impl FlakeGen {
    /// The node identifier this generator packs into every identifier.
    pub closed spec fn node_id(self) -> u64 {
        self.node_id
    }

    /// The generator's sequence counter.
    pub closed spec fn counter(self) -> SeqGen {
        self.seq
    }

    /// Whether the generator is well formed: its node identifier fits the
    /// 48-bit node field.
    pub open spec fn wf(self) -> bool {
        self.node_id() < 0x1_0000_0000_0000
    }

    /// Creates a generator with the given node identifier, which must fit
    /// in 48 bits, and a fresh counter.
    pub fn new(node_id: u64) -> (r: FlakeGen)
        requires
            node_id < 0x1_0000_0000_0000,
        ensures
            r.wf(),
            r.node_id() == node_id,
            r.counter().last_timestamp() == 0,
            r.counter().last_sequence() == 0,
    {
        FlakeGen { node_id, seq: SeqGen::default() }
    }

    /// Tries to generate an identifier: asks the counter for the next
    /// `(timestamp, sequence)` pair at the wall clock's current reading
    /// and packs it with the node identifier. A counter failure
    /// (`TimeDrift` or `Exhausted`) propagates unchanged and leaves the
    /// generator as it was.
    pub fn try_next(&mut self) -> (r: Result<Flake, FlakeErr>)
        requires
            old(self).wf(),
        ensures
            final(self).wf(),
            final(self).node_id() == old(self).node_id(),
            match r {
                Ok(id) => generates(*old(self), *final(self), id),
                Err(_) => *final(self) == *old(self),
            },
            r == Err::<Flake, FlakeErr>(FlakeErr::Exhausted) ==> old(self).counter().last_sequence()
                == 0xffff,
    {
        let (timestamp, seq) = match self.seq.try_next() {
            Ok(p) => p,
            Err(e) => {
                return Err(e);
            },
        };
        let value = Self::build(timestamp, self.node_id, seq);
        Ok(Flake::new(value))
    }

    /// Generates the next identifier, or ends the production: any
    /// generation error becomes `None`. This lazy form deliberately
    /// discards the distinction between `TimeDrift` and `Exhausted`; use
    /// [`FlakeGen::try_next`] where the failure kind matters.
    pub fn next(&mut self) -> (r: Option<Flake>)
        requires
            old(self).wf(),
        ensures
            final(self).wf(),
            final(self).node_id() == old(self).node_id(),
            match r {
                Some(id) => generates(*old(self), *final(self), id),
                None => *final(self) == *old(self),
            },
    {
        match self.try_next() {
            Ok(id) => Some(id),
            Err(_) => None,
        }
    }

    /// Creates a generator whose node identifier is the MAC address of the
    /// current host, folded into a 48-bit integer with the first address
    /// byte most significant. Fails with `NoMacAddr` when no address can
    /// be resolved; that failure can only happen here, never while
    /// generating.
    pub fn with_mac_addr() -> (r: Result<FlakeGen, FlakeGenErr>)
        ensures
            r is Ok ==> {
                &&& r->Ok_0.wf()
                &&& r->Ok_0.counter().last_timestamp() == 0
                &&& r->Ok_0.counter().last_sequence() == 0
            },
    {
        let mac: [u8; 6] = match host_mac_bytes() {
            Ok(Some(bytes)) => bytes,
            Ok(None) => {
                return Err(FlakeGenErr::NoMacAddr(None));
            },
            Err(err) => {
                return Err(FlakeGenErr::NoMacAddr(Some(err)));
            },
        };
        Ok(Self::new(node_from_mac(&mac)))
    }

    /// Packs a timestamp, a node identifier of at most 48 bits and a
    /// sequence number into the identifier's bit layout:
    /// `(time << 64) | (node << 16) | seq`. The fields occupy disjoint bit
    /// ranges, so exclusive or, which the body uses, is the same as or.
    pub fn build(time: u64, node: u64, seq: u16) -> (r: u128)
        requires
            node < 0x1_0000_0000_0000,
        ensures
            r == pack_spec(time, node, seq),
    {
        let node128: u128 = node as u128;
        let seq128: u128 = seq as u128;
        let time128: u128 = (time as u128) << 64;
        let node128: u128 = node128 << 16;
        let r = node128 ^ time128 ^ seq128;
        proof {
            let t = time;
            let n = node;
            let s = seq;
            assert((((n as u128) << 16) ^ ((t as u128) << 64) ^ (s as u128)) == (((t as u128)
                << 64) | ((n as u128) << 16) | (s as u128))) by (bit_vector)
                requires
                    n < 0x1_0000_0000_0000u64,
            ;
        }
        r
    }
}

/// Law: identifiers from two successive successful generations of one
/// generator strictly increase — the first is less than the second as a
/// 128-bit value.
pub proof fn lemma_successive_ids_increase(
    g0: FlakeGen,
    g1: FlakeGen,
    g2: FlakeGen,
    id1: Flake,
    id2: Flake,
)
    requires
        g0.wf(),
        generates(g0, g1, id1),
        generates(g1, g2, id2),
    ensures
        id1@ < id2@,
{
    let ts1 = g1.counter().last_timestamp();
    let sq1 = g1.counter().last_sequence();
    let ts2 = g2.counter().last_timestamp();
    let sq2 = g2.counter().last_sequence();
    let node = g0.node_id();
    assert(pack_spec(ts1, node, sq1) < pack_spec(ts2, node, sq2)) by (bit_vector)
        requires
            node < 0x1_0000_0000_0000u64,
            ts2 > ts1 || (ts2 == ts1 && sq2 > sq1),
    ;
}

/// The 48-bit node identifier read from the six bytes of a MAC address,
/// first byte most significant.
pub open spec fn mac_node_spec(b: Seq<u8>) -> u64
    recommends
        b.len() == 6,
{
    ((b[0] as u64) << 40) | ((b[1] as u64) << 32) | ((b[2] as u64) << 24) | ((b[3] as u64) << 16)
        | ((b[4] as u64) << 8) | (b[5] as u64)
}

/// Folds the six bytes of a MAC address into a node identifier, first
/// byte most significant. The result always fits the 48-bit node field.
pub fn node_from_mac(mac: &[u8; 6]) -> (r: u64)
    ensures
        r == mac_node_spec(mac@),
        r < 0x1_0000_0000_0000,
{
    let r = ((mac[0] as u64) << 40) | ((mac[1] as u64) << 32) | ((mac[2] as u64) << 24)
        | ((mac[3] as u64) << 16) | ((mac[4] as u64) << 8) | (mac[5] as u64);
    proof {
        let (b0, b1, b2, b3, b4, b5) = (mac[0], mac[1], mac[2], mac[3], mac[4], mac[5]);
        assert((((b0 as u64) << 40) | ((b1 as u64) << 32) | ((b2 as u64) << 24) | ((b3 as u64)
            << 16) | ((b4 as u64) << 8) | (b5 as u64)) < 0x1_0000_0000_0000) by (bit_vector);
    }
    r
}

/// The error type of `mac_address`, carried through unchanged when no MAC
/// address can be resolved.
#[verifier::external_type_specification]
#[verifier::external_body]
pub struct ExMacAddressError(mac_address::MacAddressError);

/// Relies on `mac_address::get_mac_address`: the MAC address of the first
/// network device of the host, `Ok(None)` when the host has none, `Err`
/// when the lookup itself fails. The outcome depends on the host, so
/// nothing more is assumed of it.
#[verifier::external_body]
fn host_mac_bytes() -> (r: Result<Option<[u8; 6]>, mac_address::MacAddressError>) {
    match mac_address::get_mac_address() {
        Ok(Some(addr)) => Ok(Some(addr.bytes())),
        Ok(None) => Ok(None),
        Err(err) => Err(err),
    }
}

/// An error while creating a generator.
#[derive(Debug)]
#[non_exhaustive]
pub enum FlakeGenErr {
    /// No MAC address could be found on the host, so no globally unique
    /// node identifier could be derived. Carries the lookup failure when
    /// there was one.
    NoMacAddr(Option<mac_address::MacAddressError>),
}

/// An error while generating an identifier from an existing generator.
#[derive(Debug, Clone, Copy, PartialEq, Eq, Structural)]
pub enum FlakeErr {
    /// The host clock moved backwards: generating while the current time is
    /// earlier than the time of the last generated identifier could issue
    /// the same identifier twice, so the call is refused instead.
    TimeDrift,
    /// The 16-bit sequence space for the current millisecond is spent: more
    /// than 65,536 identifiers were requested within one millisecond. The
    /// next millisecond resets the sequence, so retrying then succeeds.
    Exhausted,
}

} // verus!
