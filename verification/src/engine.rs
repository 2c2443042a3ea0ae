use crate::ether_addr::EtherAddr;
use crate::ether_type::EtherType;
use crate::message::MessageReader;
use crate::message::UnknownMessage;
use crate::message::spec_encoded;
use crate::message::spec_mmtype_of;
use crate::message::spec_mmv_of;
use crate::message::MessageTX;
use crate::mmtype::MMType;
use crate::mmtype::MMTypeCode;
use crate::mmv::MMV;
use vstd::prelude::*;

verus! {

/// A socket that sends and receives raw Ethernet frames of one
/// EtherType on one interface. The library ships no implementation:
/// a platform supplies one.
pub trait EtherSocket {
    type Error;

    /// Transmits one frame of the socket's EtherType to `destination`,
    /// with the interface's own MAC as source.
    fn sendto(&mut self, destination: EtherAddr, data: &[u8]) -> (r: Result<(), Self::Error>);

    /// Awaits the next frame of the socket's EtherType from another
    /// station, for at most `timeout_ms` milliseconds across skipped
    /// frames. On a frame, its payload fills the front of `buffer` and
    /// its length and sender are returned; on timeout, nothing.
    fn recvfrom(&mut self, buffer: &mut Vec<u8>, timeout_ms: u64) -> (r: Result<
        Option<(EtherAddr, usize)>,
        Self::Error,
    >)
        ensures
            final(buffer)@.len() == old(buffer)@.len(),
            r matches Ok(Some((addr, len))) ==> len <= old(buffer)@.len(),
    ;
}

/// A local Ethernet interface that can open an `EtherSocket` of a given
/// EtherType. The library ships no implementation: a platform supplies
/// one.
pub trait EtherInterface {
    type Error;

    type Socket: EtherSocket;

    fn open(&self, ethertype: EtherType) -> (r: Result<Self::Socket, Self::Error>);

    fn name(&self) -> (r: &str);

    fn address(&self) -> (r: EtherAddr);

    fn is_up(&self) -> (r: bool);

    fn is_loopback(&self) -> (r: bool);
}

/// Whether a captured frame answers a request: its version must equal
/// the request's, and its code must be the confirm variant of the
/// request's base.
pub open spec fn spec_reply_matches(mmv: MMV, mmtype: MMType, data: Seq<u8>) -> bool {
    spec_mmv_of(data) == mmv && spec_mmtype_of(data).0 == mmtype.spec_base() + 0b01
}

/// Decides whether a captured frame answers a request of the given
/// version and code.
pub fn reply_matches(mmv: MMV, mmtype: MMType, data: &[u8]) -> (r: bool)
    ensures
        r == spec_reply_matches(mmv, mmtype, data@),
{
    let frame = UnknownMessage(data);
    let fmmv = frame.mmv();
    let fmmtype = frame.mmtype();
    fmmv == mmv && fmmtype == mmtype.cnf()
}

/// A frame that answers a request carries the request's base and the
/// confirm code.
pub proof fn lemma_reply_matches_meaning(mmv: MMV, mmtype: MMType, data: Seq<u8>)
    requires
        spec_reply_matches(mmv, mmtype, data),
    ensures
        spec_mmv_of(data) == mmv,
        spec_mmtype_of(data).spec_base() == mmtype.spec_base(),
        spec_mmtype_of(data).spec_code() == MMTypeCode::CNF,
{
    let b = mmtype.0;
    assert(((b & 0xfffc) + 1) as u16 & 0xfffc == b & 0xfffc) by (bit_vector);
    assert(((b & 0xfffc) + 1) as u16 & 0b11 == 1) by (bit_vector);
}

/// Whether a captured frame is a `CM_MME_ERROR` indication: a station's
/// complaint about the request.
pub open spec fn spec_is_error_indication(data: Seq<u8>) -> bool {
    spec_mmtype_of(data).0 == 0x6046
}

/// Decides whether a captured frame is a `CM_MME_ERROR` indication.
pub fn is_error_indication(data: &[u8]) -> (r: bool)
    ensures
        r == spec_is_error_indication(data@),
{
    let frame = UnknownMessage(data);
    frame.mmtype() == MMType(0x6046)
}

/// Encodes `request` into the front of `buffer`, zero-pads it to the
/// minimum Ethernet payload, and sends it to `destination`; returns the
/// number of octets sent.
fn send_padded<M: MessageTX, T: EtherSocket>(
    socket: &mut T,
    buffer: &mut Vec<u8>,
    destination: EtherAddr,
    request: &M,
) -> (r: Result<usize, T::Error>)
    requires
        old(buffer)@.len() >= 60,
        8 + request.spec_payload().len() <= old(buffer)@.len(),
    ensures
        final(buffer)@.len() == old(buffer)@.len(),
        r matches Ok(n) ==> n <= final(buffer)@.len() && final(buffer)@.take(n as int)
            == spec_encoded(request) + Seq::new(
            (n - spec_encoded(request).len()) as nat,
            |i: int| 0u8,
        ),
{
    let n = request.encode(buffer);
    proof {
        assert(buffer@.take(n as int) =~= spec_encoded(request));
    }
    let mut i: usize = n;
    let sent = if n < 60 {
        60
    } else {
        n
    };
    while i < sent
        invariant
            n <= i <= sent <= buffer@.len(),
            buffer@.len() == old(buffer)@.len(),
            buffer@.take(n as int) == spec_encoded(request),
            forall|j: int| n <= j < i ==> buffer@[j] == 0u8,
        decreases sent - i,
    {
        buffer[i] = 0;
        i = i + 1;
    }
    let data = vstd::slice::slice_subrange(buffer.as_slice(), 0, sent);
    proof {
        assert(data@ =~= spec_encoded(request) + Seq::new(
            (sent - spec_encoded(request).len()) as nat,
            |i: int| 0u8,
        ));
    }
    match socket.sendto(destination, data) {
        Ok(()) => Ok(sent),
        Err(e) => Err(e),
    }
}

/// Broadcasts a discover-list request on `socket` and collects every
/// matching confirm that arrives before a 100 ms receive window closes,
/// each with its sender. Error indications and unexpected messages are
/// skipped; a timeout, or a bounded number of frames examined, ends
/// the collection benignly.
pub fn discover_devices<T: EtherSocket>(socket: &mut T) -> (r: Result<
    Vec<(EtherAddr, Vec<u8>)>,
    T::Error,
>)
    ensures
        r matches Ok(replies) ==> forall|i: int|
            0 <= i < replies@.len() ==> spec_reply_matches(
                MMV(0x01),
                MMType(0x0014),
                replies@[i].1@,
            ),
{
    let request = crate::discover_list::DiscoverListRequest;
    let mut buffer: Vec<u8> = vec![0u8; 1500];
    let mut replies: Vec<(EtherAddr, Vec<u8>)> = Vec::new();
    match send_padded(socket, &mut buffer, EtherAddr::broadcast(), &request) {
        Ok(_) => (),
        Err(e) => {
            return Err(e);
        },
    }
    let mut budget: usize = 65536;
    while budget > 0
        invariant
            forall|i: int|
                0 <= i < replies@.len() ==> spec_reply_matches(
                    MMV(0x01),
                    MMType(0x0014),
                    replies@[i].1@,
                ),
        decreases budget,
    {
        budget = budget - 1;
        match socket.recvfrom(&mut buffer, 100) {
            Err(e) => {
                return Err(e);
            },
            Ok(None) => {
                return Ok(replies);
            },
            Ok(Some((addr, len))) => {
                let data = vstd::slice::slice_subrange(buffer.as_slice(), 0, len);
                if reply_matches(MMV(0x01), MMType(0x0014), data) {
                    let frame = vstd::slice::slice_to_vec(data);
                    replies.push((addr, frame));
                }
                // An error indication or an unexpected message is
                // skipped; the window keeps listening until it times
                // out.
            },
        }
    }
    Ok(replies)
}

/// Sends `request` to `destination` and awaits its confirm: frames from
/// other senders are ignored when the destination is unicast, error
/// indications and unexpected messages are skipped, and a 100 ms
/// receive window that closes without a match yields nothing. The
/// returned frame answers the request: its version and code match, and
/// its sender is the destination whenever the destination is unicast.
pub fn send_request<M: MessageTX, T: EtherSocket>(
    socket: &mut T,
    buffer: &mut Vec<u8>,
    destination: EtherAddr,
    request: &M,
) -> (r: Result<Option<(EtherAddr, Vec<u8>)>, T::Error>)
    requires
        old(buffer)@.len() >= 60,
        8 + request.spec_payload().len() <= old(buffer)@.len(),
    ensures
        r matches Ok(Some((sender, frame))) ==> spec_reply_matches(
            request.spec_mmv(),
            request.spec_mmtype(),
            frame@,
        ) && (!destination.spec_is_multicast() ==> sender@ =~= destination@),
{
    let mmv = request.mmv();
    let mmtype = request.mmtype();
    match send_padded(socket, buffer, destination, request) {
        Ok(_) => (),
        Err(e) => {
            return Err(e);
        },
    }
    let unicast = destination.is_unicast();
    let mut budget: usize = 65536;
    while budget > 0
        invariant
            buffer@.len() == old(buffer)@.len(),
            mmv == request.spec_mmv(),
            mmtype == request.spec_mmtype(),
            unicast == !destination.spec_is_multicast(),
        decreases budget,
    {
        budget = budget - 1;
        match socket.recvfrom(buffer, 100) {
            Err(e) => {
                return Err(e);
            },
            Ok(None) => {
                return Ok(None);
            },
            Ok(Some((addr, len))) => {
                if unicast && !(addr == destination) {
                    continue ;
                }
                let data = vstd::slice::slice_subrange(buffer.as_slice(), 0, len);
                if reply_matches(mmv, mmtype, data) {
                    let frame = vstd::slice::slice_to_vec(data);
                    return Ok(Some((addr, frame)));
                }
                // An error indication or an unexpected message is
                // skipped; the window keeps listening until it times
                // out.
            },
        }
    }
    Ok(None)
}

} // verus!
