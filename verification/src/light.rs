//! One light: its identity, its sequence counter and the requests that
//! still wait for a reply.
//!
//! A request becomes a datagram with the next sequence number.  Once the
//! datagram is out, the caller registers a slot under that number and waits.
//! Each datagram that arrives from the light is matched by the sequence
//! number in its frame address: the slot registered under it is taken out of
//! the table and handed back together with the reply.

use crate::error::Error;
use crate::wire::{
    addressed, decoded, encode, encoded, frame_parses, frame_sequence, kind_of, parse, Incoming,
    Kind, Options, Reply, SOURCE_ID,
};
use std::collections::HashMap;
use vstd::prelude::*;
use vstd::std_specs::hash::*;

verus! {

broadcast use group_hash_axioms;

/// A request on its way to the light.
#[derive(Debug)]
pub struct Outgoing {
    /// The sequence number that the reply will carry.
    pub sequence: u8,
    /// The bytes to transmit.
    pub datagram: Vec<u8>,
}

/// What the receive loop does with one datagram.
#[derive(Debug)]
pub enum Dispatch<T> {
    /// Hand `reply` to `slot`, which waited under the datagram's sequence
    /// number, and go on.
    Resolve { slot: T, reply: Reply },
    /// Nothing waits under this sequence number: report it and go on.
    Unexpected { sequence: u8 },
    /// The payload could not be decoded: `slot` gets no reply, and the loop
    /// ends with `error`.
    Abandon { slot: T, error: Error },
}

/// The connection to one light.
///
/// `T` is the slot through which a waiting caller is reached.  A sequence
/// number has eight bits, so at most 256 requests can wait at a time.
#[derive(Debug)]
pub struct Light<T> {
    /// The identity that the light announced.
    pub id: u64,
    /// The sequence number that the next request will carry.
    pub seq: u8,
    /// The slots of the requests that wait for a reply, by sequence number.
    pub requests: HashMap<u8, T>,
}

/// The sequence number after `sequence`: the counter wraps at 256.
pub open spec fn following(sequence: u8) -> u8 {
    if sequence == 255 {
        0
    } else {
        (sequence + 1) as u8
    }
}

/// The addressing of a message that asks for an acknowledgement.
pub open spec fn send_options(id: u64, sequence: u8) -> Options {
    Options {
        target: Some(id),
        ack_required: true,
        res_required: false,
        sequence,
        source: SOURCE_ID,
    }
}

/// The addressing of a message that asks for an answer.
pub open spec fn request_options(id: u64, sequence: u8) -> Options {
    Options {
        target: Some(id),
        ack_required: false,
        res_required: true,
        sequence,
        source: SOURCE_ID,
    }
}

/// What becomes of an incoming datagram, given the requests that wait.
pub open spec fn dispatched<T>(pending: Map<u8, T>, incoming: Incoming) -> Dispatch<T> {
    if !pending.contains_key(incoming.sequence) {
        Dispatch::Unexpected { sequence: incoming.sequence }
    } else {
        match incoming.decoded {
            Ok(reply) => Dispatch::Resolve { slot: pending[incoming.sequence], reply },
            Err(e) => Dispatch::Abandon {
                slot: pending[incoming.sequence],
                error: Error::LifxError(e),
            },
        }
    }
}

/// The slots registered under the sequence numbers below `n`, in ascending
/// order of sequence number.
pub open spec fn slots_below<T>(pending: Map<u8, T>, n: int) -> Seq<T>
    decreases n,
{
    if n <= 0 {
        Seq::empty()
    } else if pending.contains_key((n - 1) as u8) {
        slots_below(pending, n - 1).push(pending[(n - 1) as u8])
    } else {
        slots_below(pending, n - 1)
    }
}

impl<T> Light<T> {
    /// The requests that wait for a reply, by sequence number.
    pub open spec fn pending(&self) -> Map<u8, T> {
        self.requests@
    }

    /// The sequence number that the next request will carry.
    pub open spec fn next_sequence(&self) -> u8 {
        self.seq
    }

    /// A connection to the light `id`, with nothing sent yet.
    pub fn new(id: u64) -> (light: Self)
        ensures
            light.id == id,
            light.next_sequence() == 0,
            light.pending() == Map::<u8, T>::empty(),
    {
        Light { id, seq: 0, requests: HashMap::new() }
    }

    /// How many requests wait for a reply.
    pub fn outstanding(&self) -> (n: usize)
        ensures
            n == self.pending().len(),
    {
        self.requests.len()
    }

    fn allocate(&mut self) -> (sequence: u8)
        ensures
            sequence == old(self).next_sequence(),
            final(self).next_sequence() == following(sequence),
            final(self).id == old(self).id,
            final(self).pending() == old(self).pending(),
    {
        let sequence = self.seq;
        self.seq = if sequence == 255 {
            0
        } else {
            sequence + 1
        };
        sequence
    }

    /// Starts a command that the light shall acknowledge.
    ///
    /// Takes the next sequence number and returns the datagram to transmit:
    /// the codec's encoding of `msg`, addressed to this light,
    /// acknowledgement required, no response required.  Always succeeds.
    pub fn send(&mut self, msg: lifx_core::Message) -> (r: Result<Outgoing, Error>)
        ensures
            final(self).id == old(self).id,
            final(self).pending() == old(self).pending(),
            final(self).next_sequence() == following(old(self).next_sequence()),
            r matches Ok(out) && out.sequence == old(self).next_sequence() && addressed(
                out.datagram@,
                send_options(old(self).id, out.sequence),
            ) && out.datagram@ == encoded(send_options(old(self).id, out.sequence), msg),
    {
        let sequence = self.allocate();
        let options = Options {
            target: Some(self.id),
            ack_required: true,
            res_required: false,
            sequence,
            source: SOURCE_ID,
        };
        match encode(&options, msg) {
            Ok(datagram) => Ok(Outgoing { sequence, datagram }),
            Err(e) => Err(e),
        }
    }

    /// Starts a query that the light shall answer.
    ///
    /// As `send`, but no acknowledgement is required and a response is.
    pub fn request(&mut self, msg: lifx_core::Message) -> (r: Result<Outgoing, Error>)
        ensures
            final(self).id == old(self).id,
            final(self).pending() == old(self).pending(),
            final(self).next_sequence() == following(old(self).next_sequence()),
            r matches Ok(out) && out.sequence == old(self).next_sequence() && addressed(
                out.datagram@,
                request_options(old(self).id, out.sequence),
            ) && out.datagram@ == encoded(request_options(old(self).id, out.sequence), msg),
    {
        let sequence = self.allocate();
        let options = Options {
            target: Some(self.id),
            ack_required: false,
            res_required: true,
            sequence,
            source: SOURCE_ID,
        };
        match encode(&options, msg) {
            Ok(datagram) => Ok(Outgoing { sequence, datagram }),
            Err(e) => Err(e),
        }
    }

    /// Registers `slot` as waiting for the reply with this sequence number.
    ///
    /// A slot that still waited under the same number is displaced and
    /// returned: it can get no reply any more.
    pub fn register(&mut self, sequence: u8, slot: T) -> (displaced: Option<T>)
        ensures
            final(self).id == old(self).id,
            final(self).next_sequence() == old(self).next_sequence(),
            final(self).pending() == old(self).pending().insert(sequence, slot),
            displaced == (if old(self).pending().contains_key(sequence) {
                Some(old(self).pending()[sequence])
            } else {
                None
            }),
    {
        self.requests.insert(sequence, slot)
    }

    /// Matches a datagram that the codec took apart to the request that
    /// waits for it.
    ///
    /// The slot under the datagram's sequence number leaves the table; no
    /// other slot is touched.  Where none waits there, the table stays as it
    /// is.
    pub fn dispatch(&mut self, incoming: Incoming) -> (r: Dispatch<T>)
        ensures
            final(self).id == old(self).id,
            final(self).next_sequence() == old(self).next_sequence(),
            final(self).pending() == old(self).pending().remove(incoming.sequence),
            !old(self).pending().contains_key(incoming.sequence) ==> final(self).pending() == old(
                self,
            ).pending(),
            r == dispatched(old(self).pending(), incoming),
    {
        let sequence = incoming.sequence;
        match self.requests.remove(&sequence) {
            None => {
                assert(self.requests@ =~= old(self).requests@);
                Dispatch::Unexpected { sequence }
            },
            Some(slot) => match incoming.decoded {
                Ok(reply) => Dispatch::Resolve { slot, reply },
                Err(e) => Dispatch::Abandon { slot, error: Error::LifxError(e) },
            },
        }
    }

    /// One turn of the receive loop: takes the datagram apart and matches it
    /// to the request that waits for it.
    ///
    /// A datagram that the codec cannot take apart ends the loop with the
    /// codec's error and leaves the table as it is.  Otherwise the sequence
    /// number in the frame address decides: the slot registered under it
    /// leaves the table, with the reply if the payload decodes and without
    /// one if it does not; where no slot waits, nothing changes.
    pub fn handle(&mut self, datagram: &[u8]) -> (r: Result<Dispatch<T>, Error>)
        ensures
            final(self).id == old(self).id,
            final(self).next_sequence() == old(self).next_sequence(),
            r is Ok <==> frame_parses(datagram@),
            r matches Err(e) ==> e is LifxError && final(self).pending() == old(self).pending(),
            r matches Ok(action) ==> {
                let sequence = frame_sequence(datagram@);
                let waits = old(self).pending().contains_key(sequence);
                &&& final(self).pending() == old(self).pending().remove(sequence)
                &&& !waits ==> final(self).pending() == old(self).pending()
                &&& match action {
                    Dispatch::Unexpected { sequence: s } => !waits && s == sequence,
                    Dispatch::Resolve { slot, reply } => {
                        &&& waits
                        &&& slot == old(self).pending()[sequence]
                        &&& decoded(datagram@) == Some(reply)
                    },
                    Dispatch::Abandon { slot, error } => {
                        &&& waits
                        &&& slot == old(self).pending()[sequence]
                        &&& decoded(datagram@) is None
                        &&& error is LifxError
                    },
                }
            },
    {
        match parse(datagram) {
            Err(e) => Err(e),
            Ok(incoming) => Ok(self.dispatch(incoming)),
        }
    }

    /// Gives up every request that still waits, when the connection is torn
    /// down: the table is emptied, and the slots come back in ascending order
    /// of sequence number, to be told that there is no reply.
    pub fn abandon(&mut self) -> (slots: Vec<T>)
        ensures
            final(self).id == old(self).id,
            final(self).next_sequence() == old(self).next_sequence(),
            final(self).pending() == Map::<u8, T>::empty(),
            slots@ == slots_below(old(self).pending(), 256),
    {
        let mut slots: Vec<T> = Vec::new();
        let mut n: u16 = 0;
        while n < 256
            invariant
                n <= 256,
                self.id == old(self).id,
                self.seq == old(self).seq,
                slots@ == slots_below(old(self).requests@, n as int),
                forall|k: u8|
                    self.requests@.contains_key(k) <==> (old(self).requests@.contains_key(k) && k
                        >= n),
                forall|k: u8|
                    self.requests@.contains_key(k) ==> self.requests@[k] == old(self).requests@[k],
            decreases 256 - n,
        {
            let key: u8 = n as u8;
            match self.requests.remove(&key) {
                Some(slot) => {
                    slots.push(slot);
                },
                None => {},
            }
            n = n + 1;
        }
        assert(self.requests@ =~= Map::<u8, T>::empty());
        slots
    }
}

/// How a command that asked for an acknowledgement ended.
///
/// It succeeded if the light acknowledged this very sequence number.  Any
/// other reply, and no reply at all, is a wrong response.
pub fn acknowledged(sequence: u8, reply: Option<Reply>) -> (r: Result<(), Error>)
    ensures
        r is Ok <==> acknowledges(sequence, reply),
        r matches Err(e) ==> e is WrongResponse,
{
    match reply {
        Some(Reply { kind: Kind::Acknowledgement { seq }, message: _ }) => {
            if seq == sequence {
                Ok(())
            } else {
                Err(Error::WrongResponse)
            }
        },
        _ => Err(Error::WrongResponse),
    }
}

/// How a query that asked for an answer ended.
///
/// Whatever the light answered is the result; no reply at all is a wrong
/// response.
pub fn answered(reply: Option<Reply>) -> (r: Result<lifx_core::Message, Error>)
    ensures
        match reply {
            Some(answer) => r == Ok::<lifx_core::Message, Error>(answer.message),
            None => r == Err::<lifx_core::Message, Error>(Error::WrongResponse),
        },
{
    match reply {
        Some(answer) => Ok(answer.message),
        None => Err(Error::WrongResponse),
    }
}

/// The sequence number of request number `k`, counted from a counter that
/// stands at `start`.
pub open spec fn sequence_after(start: u8, k: nat) -> u8
    decreases k,
{
    if k == 0 {
        start
    } else {
        following(sequence_after(start, (k - 1) as nat))
    }
}

/// The table after these datagrams have been dispatched, in this order.
pub open spec fn table_after<T>(pending: Map<u8, T>, arrivals: Seq<Incoming>) -> Map<u8, T>
    decreases arrivals.len(),
{
    if arrivals.len() == 0 {
        pending
    } else {
        table_after(pending, arrivals.drop_last()).remove(arrivals.last().sequence)
    }
}

/// A command with this sequence number has succeeded on this reply.
pub open spec fn acknowledges(sequence: u8, reply: Option<Reply>) -> bool {
    reply matches Some(answer) && answer.kind == (Kind::Acknowledgement { seq: sequence })
}

/// Up to 256 requests in a row carry sequence numbers that differ from each
/// other.
pub proof fn lemma_sequence_numbers_distinct(start: u8, a: nat, b: nat)
    requires
        a < b < a + 256,
    ensures
        sequence_after(start, a) != sequence_after(start, b),
{
    lemma_sequence_after(start, a);
    lemma_sequence_after(start, b);
}

proof fn lemma_sequence_after(start: u8, k: nat)
    ensures
        sequence_after(start, k) == (start + k) % 256,
    decreases k,
{
    if k > 0 {
        lemma_sequence_after(start, (k - 1) as nat);
    }
}

/// Datagrams that arrive with other sequence numbers leave a request as it
/// is.
proof fn lemma_others_leave_alone<T>(pending: Map<u8, T>, arrivals: Seq<Incoming>, sequence: u8)
    requires
        forall|k: int| 0 <= k < arrivals.len() ==> arrivals[k].sequence != sequence,
    ensures
        table_after(pending, arrivals).contains_key(sequence) == pending.contains_key(sequence),
        pending.contains_key(sequence) ==> table_after(pending, arrivals)[sequence]
            == pending[sequence],
    decreases arrivals.len(),
{
    if arrivals.len() > 0 {
        let earlier = arrivals.drop_last();
        assert forall|k: int| 0 <= k < earlier.len() implies earlier[k].sequence != sequence by {
            assert(arrivals[k] == earlier[k]);
        }
        assert(arrivals.last().sequence != sequence) by {
            assert(arrivals[arrivals.len() - 1] == arrivals.last());
        }
        lemma_others_leave_alone(pending, earlier, sequence);
    }
}

/// Replies reach their own requests in whatever order they arrive: among
/// datagrams with sequence numbers that differ from each other, each is
/// dispatched as if it had been the first.  The slot registered under its
/// number is resolved with its payload, and where nothing is registered
/// under its number, no slot is resolved.
pub proof fn lemma_replies_reach_their_requests<T>(
    pending: Map<u8, T>,
    arrivals: Seq<Incoming>,
    i: int,
)
    requires
        0 <= i < arrivals.len(),
        forall|j: int, k: int|
            0 <= j < k < arrivals.len() ==> arrivals[j].sequence != arrivals[k].sequence,
    ensures
        dispatched(table_after(pending, arrivals.take(i)), arrivals[i]) == dispatched(
            pending,
            arrivals[i],
        ),
{
    let earlier = arrivals.take(i);
    assert forall|k: int| 0 <= k < earlier.len() implies earlier[k].sequence
        != arrivals[i].sequence by {
        assert(earlier[k] == arrivals[k]);
    }
    lemma_others_leave_alone(pending, earlier, arrivals[i].sequence);
}

/// An acknowledged command succeeds: where a slot waits under the sequence
/// number of a command and the light's acknowledgement of that number
/// arrives, the slot is resolved with a reply on which the command has
/// succeeded.
pub proof fn lemma_acknowledged_command_succeeds<T>(
    pending: Map<u8, T>,
    incoming: Incoming,
    sequence: u8,
)
    requires
        pending.contains_key(sequence),
        incoming.sequence == sequence,
        kind_of(incoming.decoded) == Some(Kind::Acknowledgement { seq: sequence }),
    ensures
        dispatched(pending, incoming) matches Dispatch::Resolve { slot, reply } && slot
            == pending[sequence] && acknowledges(sequence, Some(reply)),
{
}

} // verus!
