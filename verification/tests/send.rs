use ei_node::ei::{Buff, ErlangPid};
use ei_node::error::EiError;
use ei_node::node::{Connection, Destination, Frame, Node, Outbound, Pid, Step, Wait, MAX_PAYLOAD};
use erlang_term::RawTerm;

fn fresh(name: &str) -> Node {
    let own = ErlangPid::from(&Pid { name: name.to_string(), id: 0, serial: 0, creation: 0 });
    Node::new(name, "secret", 0, &own).ok().unwrap()
}

fn connection(fd: i32) -> Connection {
    fresh("a@host").connect("b@host", fd).ok().unwrap()
}

#[test]
fn the_largest_payload() {
    assert_eq!(MAX_PAYLOAD, i32::MAX as usize);
}

#[test]
fn a_message_to_a_name() {
    let mut c = connection(6);
    let out = c.reg_send("echo", Buff(vec![131, 106])).ok().unwrap();
    assert_eq!(out.fd, 6);
    assert_eq!(out.payload.0, vec![131, 106]);
    match out.to {
        Destination::Name(name) => assert_eq!(name, vec![b'e', b'c', b'h', b'o', 0]),
        Destination::Pid(_) => panic!("addressed to a pid"),
    }
}

#[test]
fn a_name_with_a_null_character_is_not_sent() {
    let mut c = connection(6);
    assert_eq!(c.reg_send("ec\0ho", Buff(vec![131, 106])).err(), Some(EiError::Send));
    assert_eq!(c.fd(), 6);
    assert_eq!(c.receive(), Step::AwaitFrame(Wait { fd: 6, timeout_ms: None }));
}

#[test]
fn a_message_to_a_pid() {
    let mut c = connection(6);
    let to = Pid { name: "b@host".to_string(), id: 11, serial: 12, creation: 13 };
    let out = c.send(&to, Buff(vec![131, 97, 1])).ok().unwrap();
    assert_eq!(out.fd, 6);
    assert_eq!(out.payload.0, vec![131, 97, 1]);
    match out.to {
        Destination::Pid(wire) => {
            let expected = ErlangPid::from(&to);
            assert_eq!(wire.node, expected.node);
            assert_eq!(&wire.node[..7], b"b@host\0");
            assert_eq!((wire.num, wire.serial, wire.creation), (11, 12, 13));
        }
        Destination::Name(_) => panic!("addressed to a name"),
    }
}

#[test]
fn an_empty_payload_is_a_message() {
    let mut c = connection(6);
    assert!(c.reg_send("echo", Buff(Vec::new())).is_ok());
    let to = Pid { name: "b@host".to_string(), id: 1, serial: 1, creation: 1 };
    assert!(c.send(&to, Buff(Vec::new())).is_ok());
}

#[test]
fn the_status_of_the_write_decides() {
    let mut c = connection(6);
    let out = c.reg_send("echo", Buff(vec![131, 106])).ok().unwrap();
    assert_eq!(out.completed(0), Ok(()));
    assert_eq!(out.completed(1), Ok(()));
    assert_eq!(out.completed(-1), Err(EiError::Send));
    assert_eq!(out.completed(i32::MIN), Err(EiError::Send));
}

fn carry(out: &Outbound, written: usize, peer: &mut Connection) -> i32 {
    if written == out.payload.0.len() {
        peer.deliver(Frame::Data(Buff(out.payload.0.clone())));
        0
    } else {
        -1
    }
}

#[test]
fn a_write_that_stops_half_way_is_never_read_as_a_message() {
    let mut here = connection(6);
    let mut there = fresh("b@host").connect("a@host", 7).ok().unwrap();
    let payload = RawTerm::SmallTuple(vec![RawTerm::Int(1), RawTerm::Nil]).to_bytes();
    for written in 0..payload.len() {
        let out = here.reg_send("echo", Buff(payload.clone())).ok().unwrap();
        let status = carry(&out, written, &mut there);
        assert_eq!(out.completed(status), Err(EiError::Send));
        assert_eq!(there.receive(), Step::AwaitFrame(Wait { fd: 7, timeout_ms: None }));
    }
    let out = here.reg_send("echo", Buff(payload.clone())).ok().unwrap();
    let status = carry(&out, payload.len(), &mut there);
    assert_eq!(out.completed(status), Ok(()));
    assert_eq!(
        there.receive(),
        Step::Done(Ok(RawTerm::SmallTuple(vec![RawTerm::Int(1), RawTerm::Nil])))
    );
}

#[test]
fn a_payload_beyond_the_largest_is_not_sent() {
    let mut c = connection(6);
    let largest = Buff(vec![0u8; MAX_PAYLOAD]);
    assert!(c.reg_send("echo", largest).is_ok());
    let too_long = Buff(vec![0u8; MAX_PAYLOAD + 1]);
    assert_eq!(c.reg_send("echo", too_long).err(), Some(EiError::Send));
    let to = Pid { name: "b@host".to_string(), id: 1, serial: 1, creation: 1 };
    let too_long = Buff(vec![0u8; MAX_PAYLOAD + 1]);
    assert_eq!(c.send(&to, too_long).err(), Some(EiError::Send));
    assert_eq!(c.fd(), 6);
}
