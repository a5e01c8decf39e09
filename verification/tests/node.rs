use ei_node::ei::{c_string, ei_x_new, Buff, ErlangPid, ERL_ERROR, ERL_TICK};
use ei_node::error::EiError;
use ei_node::node::{Destination, Frame, Node, Pid, Step, CREATION};
use erlang_term::{RawTerm, Term};

fn local(name: &str) -> Pid {
    Pid { name: name.to_string(), id: 0, serial: 0, creation: 0 }
}

#[test]
fn status_codes() {
    assert_eq!(ERL_TICK, 0);
    assert_eq!(ERL_ERROR, -1);
}

/// The process identifier that the native layer sets up for `name`.
fn own(name: &str) -> ErlangPid {
    ErlangPid::from(&Pid { name: name.to_string(), id: 0, serial: 0, creation: 0 })
}

fn raw(prefix: &[u8], fill: u8) -> ErlangPid {
    let mut node = [fill; 1021];
    node[..prefix.len()].copy_from_slice(prefix);
    ErlangPid { node, num: 0, serial: 0, creation: 0 }
}

fn fresh(name: &str, cookie: &str) -> Node {
    Node::new(name, cookie, 0, &own(name)).ok().unwrap()
}

#[test]
fn a_fresh_buffer_is_empty() {
    assert!(ei_x_new().0.is_empty());
}

#[test]
fn null_terminated_strings() {
    assert_eq!(c_string("abc"), Some(vec![b'a', b'b', b'c', 0]));
    assert_eq!(c_string(""), Some(vec![0]));
    assert_eq!(c_string("\u{e9}"), Some(vec![0xC3, 0xA9, 0]));
    assert_eq!(c_string("a\0b"), None);
    assert_eq!(c_string("\0"), None);
    assert_eq!(c_string("ab\0"), None);
}

#[test]
fn a_new_node_holds_what_it_was_given() {
    let node = fresh("a@host", "secret");
    assert_eq!(node.name(), "a@host");
    assert_eq!(node.cookie(), "secret");
    assert_eq!(node.creation(), 0);
    assert_eq!(CREATION, 0);
}

#[test]
fn the_status_of_the_set_up_decides() {
    for status in [-1, -2, -6, i32::MIN] {
        assert_eq!(Node::new("a", "secret", status, &own("a@host")).err(), Some(EiError::Init));
    }
    for status in [0, 1, i32::MAX] {
        assert!(Node::new("a", "secret", status, &own("a@host")).is_ok());
    }
}

#[test]
fn a_failed_set_up_is_a_failure_whatever_pid_it_left() {
    assert_eq!(Node::new("a", "c", ERL_ERROR, &raw(b"", 0)).err(), Some(EiError::Init));
    assert_eq!(Node::new("a", "c", ERL_ERROR, &raw(b"", b'x')).err(), Some(EiError::Init));
}

#[test]
fn a_null_character_fails_the_set_up() {
    let pid = own("a@host");
    assert_eq!(Node::new("a\0@host", "secret", 0, &pid).err(), Some(EiError::Init));
    assert_eq!(Node::new("a@host", "sec\0ret", 0, &pid).err(), Some(EiError::Init));
    assert_eq!(Node::new("\0", "\0", 0, &pid).err(), Some(EiError::Init));
}

#[test]
fn the_length_of_a_name_is_left_to_the_set_up() {
    for len in [1020, 1021, 5000] {
        let name = "n".repeat(len);
        assert!(Node::new(&name, "c", 0, &own("n@host")).is_ok());
        assert_eq!(Node::new(&name, "c", -1, &own("n@host")).err(), Some(EiError::Init));
    }
    assert!(Node::new("n", &"c".repeat(5000), 0, &own("n@host")).is_ok());
    assert!(Node::new("", "", 0, &own("n@host")).is_ok());
}

#[test]
fn the_local_pid_is_the_one_that_was_set_up() {
    let native = ErlangPid::from(&Pid { name: "a@myhost".to_string(), id: 3, serial: 4, creation: 5 });
    let mut node = Node::new("a", "secret", 0, &native).ok().unwrap();
    let expected = Pid { name: "a@myhost".to_string(), id: 3, serial: 4, creation: 5 };
    assert_eq!(node.my_pid(), expected);
    assert_eq!(node.name(), "a");
}

#[test]
fn the_local_pid_is_stable() {
    let mut node = fresh("a@host", "secret");
    assert_eq!(node.my_pid(), local("a@host"));
    assert_eq!(node.my_pid(), local("a@host"));
    let mut connection = node.connect("b@host", 4).ok().unwrap();
    assert_eq!(connection.my_pid(), local("a@host"));
    connection.deliver(Frame::Heartbeat);
    connection.deliver(Frame::Error);
    let _ = connection.receive();
    let _ = connection.reg_send("x", Buff(vec![131, 106]));
    assert_eq!(connection.my_pid(), local("a@host"));
}

#[test]
fn the_local_pid_of_a_name_beyond_ascii() {
    let mut node = fresh("\u{e9}t\u{e9}@h", "c");
    assert_eq!(node.my_pid(), local("\u{e9}t\u{e9}@h"));
}

#[test]
fn the_local_pid_has_a_name() {
    let mut node = Node::new("", "c", 0, &own("x@y")).ok().unwrap();
    let pid = node.my_pid();
    assert!(!pid.name.is_empty());
    assert!(!pid.name.contains('\0'));
}

#[test]
fn a_set_up_without_a_readable_pid_has_failed() {
    assert_eq!(Node::new("a", "c", 0, &raw(b"", 0)).err(), Some(EiError::Init));
    assert_eq!(Node::new("a", "c", 0, &own("")).err(), Some(EiError::Init));
    assert_eq!(Node::new("a", "c", 0, &raw(b"", b'x')).err(), Some(EiError::Init));
    assert_eq!(Node::new("a", "c", 0, &raw(&[b'a', 0xFF, 0], 0)).err(), Some(EiError::Init));
    assert!(Node::new("a", "c", 0, &raw(&[b'a', 0, 0xFF], 0xFF)).is_ok());
}

#[test]
fn connect_needs_a_handle() {
    let node = fresh("a@host", "secret");
    assert_eq!(node.connect("b@host", -1).err(), Some(EiError::Connect));
    let node = fresh("a@host", "secret");
    assert_eq!(node.connect("b@host", i32::MIN).err(), Some(EiError::Connect));
    let node = fresh("a@host", "secret");
    assert_eq!(node.connect("b@host", 0).ok().unwrap().fd(), 0);
}

#[test]
fn connect_needs_a_name_without_null() {
    let node = fresh("a@host", "secret");
    assert_eq!(node.connect("b\0@host", 3).err(), Some(EiError::Connect));
}

#[test]
fn ping_is_sent_and_pong_comes_back() {
    let local_node = fresh("a@host", "secret");
    let mut connection = local_node.connect("b@host", 5).ok().unwrap();
    assert_eq!(connection.fd(), 5);

    let ping = RawTerm::from(Term::Atom("ping".to_string())).to_bytes();
    let out = connection.reg_send("echo_server", Buff(ping.clone())).ok().unwrap();
    assert_eq!(out.fd, 5);
    match &out.to {
        Destination::Name(name) => assert_eq!(name.as_slice(), b"echo_server\0"),
        Destination::Pid(_) => panic!("addressed to a pid"),
    }
    assert_eq!(out.payload.0, ping);
    assert_eq!(out.completed(0), Ok(()));

    let pong = RawTerm::from(Term::Atom("pong".to_string())).to_bytes();
    connection.deliver(Frame::Data(Buff(pong)));
    match connection.receive() {
        Step::Done(Ok(term)) => assert_eq!(Term::from(term), Term::Atom("pong".to_string())),
        other => panic!("{:?}", other),
    }
}

#[test]
fn a_refused_handshake_gives_no_connection() {
    let node = fresh("a@host", "other");
    assert_eq!(node.connect("b@host", ERL_ERROR).err(), Some(EiError::Connect));
}
