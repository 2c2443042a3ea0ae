use powerline::discover_devices;
use powerline::is_error_indication;
use powerline::reply_matches;
use powerline::send_request;
use powerline::DiscoverList;
use powerline::EtherAddr;
use powerline::EtherSocket;
use powerline::MMType;
use powerline::StationCapabilitiesRequest;
use powerline::MMV;

struct MockSocket {
    sent: Vec<(EtherAddr, Vec<u8>)>,
    incoming: Vec<(EtherAddr, Vec<u8>)>,
    next: usize,
}

impl MockSocket {
    fn new(incoming: Vec<(EtherAddr, Vec<u8>)>) -> MockSocket {
        MockSocket { sent: Vec::new(), incoming, next: 0 }
    }
}

impl EtherSocket for MockSocket {
    type Error = ();

    fn sendto(&mut self, destination: EtherAddr, data: &[u8]) -> Result<(), ()> {
        self.sent.push((destination, data.to_vec()));
        Ok(())
    }

    fn recvfrom(
        &mut self,
        buffer: &mut Vec<u8>,
        _timeout_ms: u64,
    ) -> Result<Option<(EtherAddr, usize)>, ()> {
        if self.next >= self.incoming.len() {
            return Ok(None);
        }
        let (addr, data) = &self.incoming[self.next];
        self.next += 1;
        let n = data.len().min(buffer.len());
        buffer[..n].copy_from_slice(&data[..n]);
        Ok(Some((*addr, n)))
    }
}

fn frame(header: &[u8], payload: &[u8]) -> Vec<u8> {
    let mut f = header.to_vec();
    f.extend_from_slice(payload);
    f
}

#[test]
fn discover_collects_matching_confirms() {
    let a = EtherAddr([1, 1, 1, 1, 1, 1]);
    let b = EtherAddr([2, 2, 2, 2, 2, 2]);
    let good_a = frame(&[0x01, 0x15, 0x00, 0x00, 0x00], &[0x00]);
    let error_ind = frame(&[0x01, 0x46, 0x60, 0x00, 0x00], &[0x00, 0x01, 0x14, 0x00, 0x00, 0x00]);
    let unrelated = frame(&[0x01, 0x35, 0x60, 0x00, 0x00], &[]);
    let good_b = frame(&[0x01, 0x15, 0x00, 0x00, 0x00], &[0x00]);
    let mut socket = MockSocket::new(vec![
        (a, good_a.clone()),
        (b, error_ind.clone()),
        (b, unrelated),
        (b, good_b.clone()),
    ]);
    let replies = discover_devices(&mut socket).unwrap();
    assert_eq!(replies.len(), 2);
    assert_eq!(replies[0].0, a);
    assert_eq!(replies[0].1, good_a);
    assert_eq!(replies[1].0, b);
    assert_eq!(replies[1].1, good_b);
    assert!(is_error_indication(&error_ind));
    assert!(!is_error_indication(&good_a));

    assert_eq!(socket.sent.len(), 1);
    let (dest, sent) = &socket.sent[0];
    assert_eq!(*dest, EtherAddr::broadcast());
    assert_eq!(sent.len(), 60);
    assert_eq!(sent[0], 0x01);
    assert_eq!(&sent[1..3], &[0x14, 0x00]);
    assert_eq!(&sent[3..5], &[0x00, 0x00]);
    assert!(sent[5..].iter().all(|b| *b == 0));

    let list = DiscoverList(&replies[0].1);
    assert_eq!(list.stations().len(), 0);
}

#[test]
fn request_filters_senders_and_matches_confirm() {
    let target = EtherAddr([0x0a, 8, 7, 6, 5, 4]);
    let other = EtherAddr([1, 2, 3, 4, 5, 6]);
    let matching = frame(&[0x01, 0x35, 0x60, 0x00, 0x00], &[0x01]);
    let wrong_type = frame(&[0x01, 0x21, 0x60, 0x00, 0x00], &[0x01]);
    let mut socket = MockSocket::new(vec![
        (other, matching.clone()),
        (target, wrong_type),
        (target, matching.clone()),
    ]);
    let mut buffer = vec![0u8; 1500];
    let reply = send_request(&mut socket, &mut buffer, target, &StationCapabilitiesRequest)
        .unwrap();
    let (sender, data) = reply.unwrap();
    assert_eq!(sender, target);
    assert_eq!(data, matching);
    assert!(reply_matches(MMV(0x01), MMType(0x6034), &data));
}

#[test]
fn request_returns_none_on_silence() {
    let target = EtherAddr([0x0a, 8, 7, 6, 5, 4]);
    let mut socket = MockSocket::new(vec![]);
    let mut buffer = vec![0u8; 1500];
    let reply = send_request(&mut socket, &mut buffer, target, &StationCapabilitiesRequest)
        .unwrap();
    assert!(reply.is_none());
}

#[test]
fn broadcast_request_accepts_any_sender() {
    let other = EtherAddr([1, 2, 3, 4, 5, 6]);
    let matching = frame(&[0x01, 0x35, 0x60, 0x00, 0x00], &[0x01]);
    let mut socket = MockSocket::new(vec![(other, matching.clone())]);
    let mut buffer = vec![0u8; 1500];
    let reply = send_request(
        &mut socket,
        &mut buffer,
        EtherAddr::broadcast(),
        &StationCapabilitiesRequest,
    )
    .unwrap();
    let (sender, data) = reply.unwrap();
    assert_eq!(sender, other);
    assert_eq!(data, matching);
}
