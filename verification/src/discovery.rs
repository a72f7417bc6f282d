//! Discovery: from the replies to one broadcast query to the lights on the
//! network.
//!
//! The caller broadcasts the query, listens for a while, and hands over each
//! datagram that arrives.  A datagram that the codec cannot take apart or
//! decode is skipped: a broadcast segment carries foreign traffic.  A device
//! that announces its UDP service is a light; the query itself, echoed back,
//! is ignored; any other message ends discovery with a wrong response.  A
//! device is found once, however often it announces itself: the first
//! announcement counts.

use crate::command::{message_of, Command};
use crate::error::Error;
use crate::light::Light;
use crate::wire::{
    addressed, check_transmission, decoded, encode, encoded, frame_parses, frame_target, parse,
    Incoming, Kind, Options, SERVICE_UDP, SOURCE_ID,
};
use vstd::prelude::*;

verus! {

/// A device that announced its UDP service.
#[derive(Clone, Copy, Debug, PartialEq, Eq)]
pub struct Announcement {
    /// The identity in the frame address of the announcement.
    pub id: u64,
    /// The port to talk to the device on.
    pub port: u16,
}

/// A light that discovery found.
#[derive(Debug)]
pub struct Discovered<T> {
    /// The position, among the datagrams handed over, of the announcement.
    pub origin: usize,
    /// The port that the light announced.
    pub port: u16,
    /// The connection to the light, with nothing sent yet.
    pub light: Light<T>,
}

/// The addressing of the query: to all devices, response required,
/// sequence number 0.
pub open spec fn query_options() -> Options {
    Options {
        target: None,
        ack_required: false,
        res_required: true,
        sequence: 0,
        source: SOURCE_ID,
    }
}

/// The low sixteen bits of an announced port.
pub open spec fn port_of(port: u32) -> u16 {
    (port % 0x1_0000) as u16
}

/// What a message of this kind, from the device `target`, means to
/// discovery.
pub open spec fn announced(target: u64, kind: Kind) -> Result<Option<Announcement>, Error> {
    match kind {
        Kind::StateService { service, port } => if service == SERVICE_UDP {
            Ok(Some(Announcement { id: target, port: port_of(port) }))
        } else {
            Err(Error::WrongResponse)
        },
        Kind::GetService => Ok(None),
        _ => Err(Error::WrongResponse),
    }
}

/// The datagram to broadcast: the service query, addressed to all devices.
pub open spec fn query_datagram() -> Seq<u8> {
    encoded(query_options(), message_of(Command::GetService))
}

/// What a received datagram means to discovery.
pub open spec fn inspected(d: Seq<u8>) -> Result<Option<Announcement>, Error> {
    if !frame_parses(d) {
        Ok(None)
    } else {
        match decoded(d) {
            None => Ok(None),
            Some(reply) => announced(frame_target(d) as u64, reply.kind),
        }
    }
}

/// What a received datagram adds to the devices known by their identities:
/// an announcement of a device that is known already adds nothing.
pub open spec fn discovered(known: Seq<u64>, d: Seq<u8>) -> Result<Option<Announcement>, Error> {
    match inspected(d) {
        Ok(Some(a)) => if known.contains(a.id) {
            Ok(None)
        } else {
            Ok(Some(a))
        },
        other => other,
    }
}

/// The identities of the devices found, in the order in which they were
/// found.
pub open spec fn identities(found: Seq<(int, Announcement)>) -> Seq<u64> {
    Seq::new(found.len(), |i: int| found[i].1.id)
}

/// What the first `n` of the datagrams mean together: the devices that
/// announced themselves, each once, with the position of its first
/// announcement; or the first error.
pub open spec fn sightings(datagrams: Seq<Vec<u8>>, n: int) -> Result<
    Seq<(int, Announcement)>,
    Error,
>
    decreases n,
{
    if n <= 0 {
        Ok(Seq::empty())
    } else {
        match sightings(datagrams, n - 1) {
            Err(e) => Err(e),
            Ok(found) => match discovered(identities(found), datagrams[n - 1]@) {
                Err(e) => Err(e),
                Ok(None) => Ok(found),
                Ok(Some(a)) => Ok(found.push((n - 1, a))),
            },
        }
    }
}

/// `found` is the light of `sighting`, with nothing sent yet.
pub open spec fn fresh<T>(found: Discovered<T>, sighting: (int, Announcement)) -> bool {
    &&& found.origin == sighting.0
    &&& found.port == sighting.1.port
    &&& found.light.id == sighting.1.id
    &&& found.light.next_sequence() == 0
    &&& found.light.pending() == Map::<u8, T>::empty()
}

/// The datagram to broadcast: the codec's encoding of the service query,
/// addressed to all devices.  Always succeeds.
pub fn query() -> (r: Result<Vec<u8>, Error>)
    ensures
        r matches Ok(d) && addressed(d@, query_options()) && d@ == query_datagram(),
{
    let options = Options {
        target: None,
        ack_required: false,
        res_required: true,
        sequence: 0,
        source: SOURCE_ID,
    };
    encode(&options, Command::GetService.message())
}

/// What a decoded datagram means to discovery.
pub fn announce(incoming: &Incoming) -> (r: Result<Option<Announcement>, Error>)
    ensures
        r == (match incoming.decoded {
            Ok(reply) => announced(incoming.target, reply.kind),
            Err(_) => Ok(None),
        }),
{
    match &incoming.decoded {
        Err(_) => Ok(None),
        Ok(reply) => match reply.kind {
            Kind::StateService { service, port } => {
                if service == SERVICE_UDP {
                    Ok(Some(Announcement { id: incoming.target, port: (port % 0x1_0000) as u16 }))
                } else {
                    Err(Error::WrongResponse)
                }
            },
            Kind::GetService => Ok(None),
            _ => Err(Error::WrongResponse),
        },
    }
}

/// What a received datagram means to discovery.
pub fn inspect(datagram: &[u8]) -> (r: Result<Option<Announcement>, Error>)
    ensures
        r == inspected(datagram@),
{
    match parse(datagram) {
        Err(_) => Ok(None),
        Ok(incoming) => announce(&incoming),
    }
}

/// Whether a device of this identity is among those known.
pub fn knows(known: &Vec<u64>, id: u64) -> (b: bool)
    ensures
        b == known@.contains(id),
{
    let mut i: usize = 0;
    while i < known.len()
        invariant
            i <= known@.len(),
            forall|k: int| 0 <= k < i ==> known@[k] != id,
        decreases known@.len() - i,
    {
        if known[i] == id {
            return true;
        }
        i = i + 1;
    }
    false
}

/// One turn of discovery: what a received datagram adds to the devices
/// found so far.
///
/// `known` holds the identities of the devices found so far.  A device
/// that announces itself for the first time is returned and becomes known.
/// An announcement of a known device adds nothing, nor does a datagram that
/// is skipped or ignored.  Any other message is a wrong response.
pub fn discover(known: &mut Vec<u64>, datagram: &[u8]) -> (r: Result<Option<Announcement>, Error>)
    ensures
        r == discovered(old(known)@, datagram@),
        final(known)@ == (match r {
            Ok(Some(a)) => old(known)@.push(a.id),
            _ => old(known)@,
        }),
{
    match inspect(datagram) {
        Ok(Some(a)) => {
            if knows(known, a.id) {
                Ok(None)
            } else {
                known.push(a.id);
                Ok(Some(a))
            }
        },
        other => other,
    }
}

impl<T> Light<T> {
    /// What discovery returns, given what the transport reported for the
    /// query and the datagrams that arrived in answer to it.
    ///
    /// `bytes_sent` is the number of bytes of the query that the transport
    /// accepted: anything but the query's full length is an incomplete
    /// transmission, whatever arrived.  Otherwise the result holds one light
    /// for each device that announced itself, in the order of the first
    /// announcements, with no identity twice; it is a wrong response at the
    /// first datagram that decodes to anything but an announcement or a
    /// service query.
    pub fn enumerate_v4(bytes_sent: usize, datagrams: &Vec<Vec<u8>>) -> (r: Result<
        Vec<Discovered<T>>,
        Error,
    >)
        ensures
            bytes_sent != query_datagram().len() ==> r == Err::<Vec<Discovered<T>>, Error>(
                Error::IncompleteTransmission,
            ),
            bytes_sent == query_datagram().len() ==> match sightings(
                datagrams@,
                datagrams@.len() as int,
            ) {
                Ok(found) => {
                    &&& r matches Ok(lights)
                    &&& lights@.len() == found.len()
                    &&& forall|i: int| 0 <= i < found.len() ==> fresh(lights@[i], found[i])
                    &&& forall|i: int, j: int|
                        0 <= i < j < lights@.len() ==> lights@[i].light.id != lights@[j].light.id
                },
                Err(e) => r matches Err(f) && f == e,
            },
    {
        let length = match query() {
            Ok(d) => d.len(),
            Err(e) => {
                return Err(e);
            },
        };
        match check_transmission(bytes_sent, length) {
            Ok(_) => {},
            Err(e) => {
                return Err(e);
            },
        }
        let mut lights: Vec<Discovered<T>> = Vec::new();
        let mut known: Vec<u64> = Vec::new();
        let mut n: usize = 0;
        assert(known@ =~= identities(Seq::<(int, Announcement)>::empty()));
        while n < datagrams.len()
            invariant
                n <= datagrams@.len(),
                bytes_sent == query_datagram().len(),
                sightings(datagrams@, n as int) matches Ok(found) && lights@.len() == found.len()
                    && known@ == identities(found) && forall|i: int|
                    0 <= i < found.len() ==> fresh(lights@[i], found[i]),
            decreases datagrams@.len() - n,
        {
            let ghost found = sightings(datagrams@, n as int).unwrap();
            match discover(&mut known, datagrams[n].as_slice()) {
                Err(e) => {
                    assert(sightings(datagrams@, n + 1) == Err::<Seq<(int, Announcement)>, Error>(e));
                    proof {
                        lemma_sightings_fail(datagrams@, n + 1, datagrams@.len() as int);
                    }
                    return Err(e);
                },
                Ok(None) => {},
                Ok(Some(a)) => {
                    lights.push(Discovered { origin: n, port: a.port, light: Light::new(a.id) });
                    assert(known@ =~= identities(found.push((n as int, a))));
                },
            }
            n = n + 1;
        }
        proof {
            let found = sightings(datagrams@, datagrams@.len() as int).unwrap();
            lemma_one_light_per_device(datagrams@, datagrams@.len() as int);
            assert forall|i: int, j: int| 0 <= i < j < lights@.len() implies lights@[i].light.id
                != lights@[j].light.id by {
                assert(fresh(lights@[i], found[i]));
                assert(fresh(lights@[j], found[j]));
            }
        }
        Ok(lights)
    }
}

/// Once the datagrams up to `n` have failed, more datagrams change nothing.
proof fn lemma_sightings_fail(datagrams: Seq<Vec<u8>>, n: int, m: int)
    requires
        n <= m,
        sightings(datagrams, n) is Err,
    ensures
        sightings(datagrams, m) == sightings(datagrams, n),
    decreases m - n,
{
    if n < m {
        lemma_sightings_fail(datagrams, n, m - 1);
    }
}

/// One light per device: among the devices that discovery finds, no
/// identity occurs twice, however often a device announces itself.
pub proof fn lemma_one_light_per_device(datagrams: Seq<Vec<u8>>, n: int)
    ensures
        sightings(datagrams, n) matches Ok(found) ==> forall|i: int, j: int|
            0 <= i < j < found.len() ==> found[i].1.id != found[j].1.id,
    decreases n,
{
    if n > 0 {
        lemma_one_light_per_device(datagrams, n - 1);
        match sightings(datagrams, n - 1) {
            Ok(earlier) => {
                match discovered(identities(earlier), datagrams[n - 1]@) {
                    Ok(Some(a)) => {
                        let found = earlier.push((n - 1, a));
                        assert forall|i: int, j: int| 0 <= i < j < found.len() implies found[i].1.id
                            != found[j].1.id by {
                            if j == earlier.len() {
                                assert(identities(earlier)[i] == earlier[i].1.id);
                            }
                        }
                    },
                    _ => {},
                }
            },
            Err(_) => {},
        }
    }
}

} // verus!
