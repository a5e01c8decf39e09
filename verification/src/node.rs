//! Process identifiers, the local node and its connection.

use std::collections::VecDeque;
use vstd::prelude::*;
use vstd::utf8::*;
use vstd::pervasive::unreached;
use vstd::std_specs::convert::FromSpecImpl;
use erlang_term::{RawTerm, Term};
use crate::codec::{decode, decode_spec};
use crate::ei::{c_string, Buff, ErlangPid, WirePid, ERL_ERROR, ERL_TICK, MAXATOMLEN_UTF8};
use crate::error::{EiError, EiResult};
use crate::text::{lemma_no_nul_iff_no_zero, no_nul, no_zero, string_from_utf8};

verus! {

/// The identity of a process on some node.
#[derive(Debug, Clone, PartialEq, Eq)]
pub struct Pid {
    pub name: String,
    pub id: u32,
    pub serial: u32,
    pub creation: u32,
}

/// What a [`Pid`] holds, with the node name as a sequence of characters.
pub struct PidView {
    pub name: Seq<char>,
    pub id: u32,
    pub serial: u32,
    pub creation: u32,
}

impl View for Pid {
    type V = PidView;

    open spec fn view(&self) -> PidView {
        PidView { name: self.name@, id: self.id, serial: self.serial, creation: self.creation }
    }
}

/// The longest node name, in bytes, that the node field holds together with
/// its terminating zero byte.
pub const MAX_NODE_NAME: usize = 1020;

/// The node field for a name: the first [`MAX_NODE_NAME`] bytes of its UTF-8
/// encoding, and zero bytes up to the width of the field.
pub open spec fn node_field(name: Seq<char>) -> Seq<u8> {
    let bytes = encode_utf8(name);
    Seq::new(
        MAXATOMLEN_UTF8 as nat,
        |i: int|
            if i < bytes.len() && i < MAX_NODE_NAME {
                bytes[i]
            } else {
                0u8
            },
    )
}

/// The fixed layout of a process identifier.
pub open spec fn local_to_wire(p: PidView) -> WirePid {
    WirePid { node: node_field(p.name), num: p.id, serial: p.serial, creation: p.creation }
}

/// The first zero byte of `node` stands at `n`.
pub open spec fn terminated_at(node: Seq<u8>, n: int) -> bool {
    &&& 0 <= n < node.len()
    &&& node[n] == 0
    &&& no_zero(node.subrange(0, n))
}

/// The name that a node field holds: the text that the bytes before its
/// first zero byte encode. A field without a zero byte, or whose bytes before
/// it are not UTF-8, holds no name.
pub open spec fn node_name(node: Seq<u8>) -> Option<Seq<char>> {
    if exists|n: int| terminated_at(node, n) {
        let n = choose|n: int| terminated_at(node, n);
        if valid_utf8(node.subrange(0, n)) {
            Some(decode_utf8(node.subrange(0, n)))
        } else {
            None
        }
    } else {
        None
    }
}

/// The process identifier that a fixed layout stands for, if its node field
/// holds a name.
pub open spec fn wire_to_local(w: WirePid) -> Option<PidView> {
    match node_name(w.node) {
        Some(name) => Some(PidView { name, id: w.num, serial: w.serial, creation: w.creation }),
        None => None,
    }
}

/// A node field has at most one first zero byte.
pub proof fn lemma_terminator_unique(node: Seq<u8>, n: int, m: int)
    requires
        terminated_at(node, n),
        terminated_at(node, m),
    ensures
        n == m,
{
    if n < m {
        assert(node.subrange(0, m)[n] == node[n]);
    } else if m < n {
        assert(node.subrange(0, n)[m] == node[m]);
    }
}

/// A name without a null character that fits the node field is read back
/// from it unchanged.
pub proof fn lemma_node_name_of_field(name: Seq<char>)
    requires
        no_nul(name),
        encode_utf8(name).len() <= MAX_NODE_NAME,
    ensures
        terminated_at(node_field(name), encode_utf8(name).len() as int),
        node_field(name).subrange(0, encode_utf8(name).len() as int) == encode_utf8(name),
        node_name(node_field(name)) == Some(name),
{
    let bytes = encode_utf8(name);
    let node = node_field(name);
    let n = bytes.len() as int;
    lemma_no_nul_iff_no_zero(name);
    assert(node.subrange(0, n) =~= bytes);
    assert(terminated_at(node, n));
    let m = choose|m: int| terminated_at(node, m);
    lemma_terminator_unique(node, n, m);
    encode_utf8_valid_utf8(name);
    encode_utf8_decode_utf8(name);
}

/// The identifier can be laid out without loss: its node name holds no null
/// character and fits the node field.
pub open spec fn fits_wire(p: PidView) -> bool {
    &&& no_nul(p.name)
    &&& encode_utf8(p.name).len() <= MAX_NODE_NAME
}

/// Laying a process identifier out and reading it back gives the same
/// identifier, for every name without a null character whose encoding fits
/// the node field.
pub proof fn lemma_pid_round_trip(p: PidView)
    requires
        fits_wire(p),
    ensures
        wire_to_local(local_to_wire(p)) == Some(p),
{
    lemma_node_name_of_field(p.name);
}

/// A process identifier that was read from a fixed layout can be laid out
/// again without loss, so a message can be routed back to where one came
/// from.
pub proof fn lemma_received_pid_fits(w: WirePid, p: PidView)
    requires
        w.node.len() == MAXATOMLEN_UTF8,
        wire_to_local(w) == Some(p),
    ensures
        fits_wire(p),
        wire_to_local(local_to_wire(p)) == Some(p),
{
    let n = choose|n: int| terminated_at(w.node, n);
    let bytes = w.node.subrange(0, n);
    decode_utf8_encode_utf8(bytes);
    lemma_no_nul_iff_no_zero(p.name);
    lemma_pid_round_trip(p);
}

/// The fixed layout with the given view.
pub open spec fn erlang_pid_of(w: WirePid) -> ErlangPid {
    choose|e: ErlangPid| e@ == w
}

impl FromSpecImpl<&Pid> for ErlangPid {
    open spec fn obeys_from_spec() -> bool {
        true
    }

    open spec fn from_spec(pid: &Pid) -> ErlangPid {
        erlang_pid_of(local_to_wire(pid@))
    }
}

impl From<&Pid> for ErlangPid {
    /// Lays the identifier out in its fixed form. Bytes of the node name
    /// beyond [`MAX_NODE_NAME`] are dropped.
    fn from(pid: &Pid) -> (wire: ErlangPid)
        ensures
            wire@ == local_to_wire(pid@),
    {
        let bytes = pid.name.as_str().as_bytes();
        let mut node: [u8; MAXATOMLEN_UTF8] = [0u8; MAXATOMLEN_UTF8];
        let mut i: usize = 0;
        while i < bytes.len() && i < MAX_NODE_NAME
            invariant
                i <= MAX_NODE_NAME,
                i <= bytes.len(),
                bytes@ == encode_utf8(pid.name@),
                node@.len() == MAXATOMLEN_UTF8,
                forall|k: int| 0 <= k < i ==> node@[k] == bytes@[k],
                forall|k: int| i <= k < MAXATOMLEN_UTF8 ==> node@[k] == 0,
            decreases bytes.len() - i,
        {
            node[i] = bytes[i];
            i += 1;
        }
        let wire = ErlangPid { node, num: pid.id, serial: pid.serial, creation: pid.creation };
        proof {
            assert(wire.node@ =~= node_field(pid.name@));
            let other = erlang_pid_of(local_to_wire(pid@));
            assert(other@ == wire@);
            assert(other.node =~= wire.node);
        }
        wire
    }
}

/// Reads a process identifier back from its fixed layout. The node name is
/// the text before the first zero byte of the node field; a field that is not
/// closed by a zero byte, or that does not hold UTF-8, is refused.
pub fn extract_pid(pid: &ErlangPid) -> (r: EiResult<Pid>)
    ensures
        match wire_to_local(pid@) {
            Some(p) => r matches Ok(out) && out@ == p,
            None => r == Err::<Pid, EiError>(EiError::Decode),
        },
{
    let mut name: Vec<u8> = Vec::new();
    let mut n: usize = 0;
    while n < MAXATOMLEN_UTF8 && pid.node[n] != 0
        invariant
            n <= MAXATOMLEN_UTF8,
            pid.node@.len() == MAXATOMLEN_UTF8,
            name@ == pid.node@.subrange(0, n as int),
            no_zero(name@),
        decreases MAXATOMLEN_UTF8 - n,
    {
        name.push(pid.node[n]);
        n += 1;
        assert(name@ == pid.node@.subrange(0, n as int));
    }
    if n == MAXATOMLEN_UTF8 {
        proof {
            assert(pid.node@.subrange(0, n as int) == pid.node@);
            assert forall|m: int| !terminated_at(pid.node@, m) by {
                if terminated_at(pid.node@, m) {
                    assert(pid.node@.subrange(0, n as int)[m] == 0);
                }
            }
        }
        return Err(EiError::Decode);
    }
    proof {
        assert(terminated_at(pid.node@, n as int));
        let m = choose|m: int| terminated_at(pid.node@, m);
        lemma_terminator_unique(pid.node@, n as int, m);
    }
    match string_from_utf8(name) {
        Some(text) => Ok(Pid { name: text, id: pid.num, serial: pid.serial, creation: pid.creation }),
        None => Err(EiError::Decode),
    }
}

/// The term that stands for a process identifier.
pub uninterp spec fn pid_term(pid: PidView) -> Term;

/// `Term::from` on a raw term: a new-style process identifier, with the node
/// name as an atom, is wrapped as it is. What comes back depends on the four
/// fields alone.
#[verifier::external_body]
fn term_of_pid(pid: Pid) -> (term: Term)
    ensures
        term == pid_term(pid@),
{
    Term::from(
        RawTerm::NewPid {
            node: Box::new(RawTerm::Atom(pid.name)),
            id: pid.id,
            serial: pid.serial,
            creation: pid.creation,
        },
    )
}

impl FromSpecImpl<Pid> for Term {
    open spec fn obeys_from_spec() -> bool {
        true
    }

    open spec fn from_spec(pid: Pid) -> Term {
        pid_term(pid@)
    }
}

impl From<Pid> for Term {
    /// The identifier as a term, to be sent as part of a message.
    fn from(value: Pid) -> (term: Term) {
        term_of_pid(value)
    }
}

/// What a [`Node`] holds.
pub struct NodeView {
    pub name: Seq<char>,
    pub cookie: Seq<char>,
    pub creation: u32,
    /// The process identifier that the native layer set up for the node.
    pub own: WirePid,
}

/// The creation counter that a node is set up with.
pub const CREATION: u32 = 0;

/// A fixed layout holds a process identifier that can stand for a node: its
/// node field holds a name, and the name is not empty.
pub open spec fn readable_pid(w: WirePid) -> bool {
    wire_to_local(w) matches Some(p) && p.name.len() > 0
}

/// The identity under which a node tags what it sends: the process
/// identifier that the native layer set up for it.
pub open spec fn local_pid(node: NodeView) -> PidView {
    wire_to_local(node.own).unwrap()
}

/// The set-up of a node has succeeded: neither the name nor the cookie holds
/// a null character, the native layer reported no failure, and the process
/// identifier that it set up can be read.
pub open spec fn set_up(name: Seq<char>, cookie: Seq<char>, status: i32, own: WirePid) -> bool {
    &&& no_nul(name)
    &&& no_nul(cookie)
    &&& status >= 0
    &&& readable_pid(own)
}

/// With a name and a cookie that can be handed over, and a process identifier
/// that can be read, the status of the native call alone decides the set-up.
pub proof fn lemma_status_decides_set_up(
    name: Seq<char>,
    cookie: Seq<char>,
    status: i32,
    own: WirePid,
)
    requires
        no_nul(name),
        no_nul(cookie),
        readable_pid(own),
    ensures
        set_up(name, cookie, status, own) <==> status >= 0,
{
}

/// The local identity: a node name, the cookie it shares with its peers, and
/// the process identifier that was set up for it.
pub struct Node {
    name: String,
    cookie: String,
    creation: u32,
    own: ErlangPid,
}

impl View for Node {
    type V = NodeView;

    closed spec fn view(&self) -> NodeView {
        NodeView {
            name: self.name@,
            cookie: self.cookie@,
            creation: self.creation,
            own: self.own@,
        }
    }
}

impl Node {
    #[verifier::type_invariant]
    spec fn well_formed(&self) -> bool {
        &&& no_nul(self.name@)
        &&& no_nul(self.cookie@)
        &&& readable_pid(self.own@)
    }

    /// Makes the local identity of what the native layer answered when it was
    /// asked to set up `name` and `cookie` with creation counter
    /// [`CREATION`]: the status of the call and the process identifier that
    /// it set up for the node.
    ///
    /// Fails with [`EiError::Init`] where the name or the cookie holds a null
    /// character and so could not be handed over, where the status is
    /// negative, and where the set-up left no process identifier that can be
    /// read: nothing can be promised of the native layer, and a node without
    /// an identity of its own has not been set up.
    pub fn new(name: &str, cookie: &str, status: i32, own: &ErlangPid) -> (r: EiResult<Node>)
        ensures
            r is Ok <==> set_up(name@, cookie@, status, own@),
            r matches Ok(node) ==> node@ == (NodeView {
                name: name@,
                cookie: cookie@,
                creation: CREATION,
                own: own@,
            }),
            r matches Err(e) ==> e == EiError::Init,
    {
        if c_string(name).is_none() || c_string(cookie).is_none() || status < 0 {
            return Err(EiError::Init);
        }
        match extract_pid(own) {
            Ok(pid) => {
                if pid.name.as_str().is_empty() {
                    Err(EiError::Init)
                } else {
                    Ok(
                        Node {
                            name: name.to_owned(),
                            cookie: cookie.to_owned(),
                            creation: CREATION,
                            own: *own,
                        },
                    )
                }
            },
            Err(_) => Err(EiError::Init),
        }
    }

    /// The node name.
    pub fn name(&self) -> (name: &str)
        ensures
            name@ == self@.name,
    {
        self.name.as_str()
    }

    /// The shared secret. It is handed out for the handshake only and must
    /// never be logged.
    pub fn cookie(&self) -> (cookie: &str)
        ensures
            cookie@ == self@.cookie,
    {
        self.cookie.as_str()
    }

    /// The creation counter, which tells this instance of the node from
    /// earlier ones of the same name.
    pub fn creation(&self) -> (creation: u32)
        ensures
            creation == self@.creation,
    {
        self.creation
    }

    /// Takes the transport's answer to a connection attempt to `server`: a
    /// handle, or a negative status where the target was not found, not
    /// reached, or the handshake was refused. The node is used up either way,
    /// and a connection exists only behind a handle.
    pub fn connect(self, server: &str, handle: i32) -> (r: EiResult<Connection>)
        ensures
            r is Ok <==> no_nul(server@) && handle >= 0,
            r matches Ok(connection) ==> connection@ == (ConnectionView {
                node: self@,
                fd: handle,
                inbox: Seq::empty(),
            }),
            r matches Err(e) ==> e == EiError::Connect,
    {
        if c_string(server).is_none() || handle < 0 {
            return Err(EiError::Connect);
        }
        Ok(Connection { node: self, fd: handle, inbox: VecDeque::new() })
    }

    /// The identity that this node tags outbound messages with: the process
    /// identifier that the native layer set up, read from its fixed layout.
    /// It is the same at every call, and its node name is not empty and holds
    /// no null character.
    pub fn my_pid(&mut self) -> (pid: Pid)
        ensures
            pid@ == local_pid(old(self)@),
            pid@.name.len() > 0,
            no_nul(pid@.name),
            *final(self) == *old(self),
    {
        proof {
            use_type_invariant(&*self);
            lemma_received_pid_fits(self.own@, local_pid(self@));
        }
        match extract_pid(&self.own) {
            Ok(pid) => pid,
            Err(_) => unreached(),
        }
    }
}

/// One frame, as the transport hands it over.
#[derive(Debug, Clone)]
pub enum Frame {
    /// A keepalive tick, which carries nothing.
    Heartbeat,
    /// A message, with the bytes of its term.
    Data(Buff),
    /// The transport failed, the peer signalled an error, or the wait ran
    /// out.
    Error,
}

/// The frame that a receive status and the buffer it filled stand for.
pub open spec fn classify_spec(resp: i32, buff: Buff) -> Frame {
    if resp == ERL_TICK {
        Frame::Heartbeat
    } else if resp == ERL_ERROR {
        Frame::Error
    } else {
        Frame::Data(buff)
    }
}

/// Tells a heartbeat, a failure and a message apart by the status of the
/// receive.
pub fn classify(resp: i32, buff: Buff) -> (frame: Frame)
    ensures
        frame == classify_spec(resp, buff),
{
    if resp == ERL_TICK {
        Frame::Heartbeat
    } else if resp == ERL_ERROR {
        Frame::Error
    } else {
        Frame::Data(buff)
    }
}

/// What the caller is asked to do next: wait for one frame on the handle, for
/// at most `timeout_ms` milliseconds where a bound is given, and deliver it.
/// A wait that runs out is delivered as [`Frame::Error`]. A receive never
/// asks for a wait with a bound of zero.
#[derive(Debug, Clone, Copy, PartialEq, Eq)]
pub struct Wait {
    pub fd: i32,
    pub timeout_ms: Option<u32>,
}

/// Where a receive stands.
#[derive(Debug, PartialEq)]
pub enum Step {
    /// No message yet: the caller waits as told and asks again.
    AwaitFrame(Wait),
    /// The receive is over, with a term or a failure.
    Done(EiResult<RawTerm>),
}

/// What a receive makes of the frames that have arrived.
pub struct Received {
    /// The result, if a frame decided it.
    pub outcome: Option<EiResult<RawTerm>>,
    /// The frames that were not looked at.
    pub rest: Seq<Frame>,
}

/// A receive passes over heartbeats. The first other frame ends it: an error
/// frame with a receive failure, a message with what its payload decodes to.
/// The frames behind that one stay for the next receive.
pub open spec fn receive_spec(inbox: Seq<Frame>) -> Received
    decreases inbox.len(),
{
    if inbox.len() == 0 {
        Received { outcome: None, rest: inbox }
    } else {
        match inbox[0] {
            Frame::Heartbeat => receive_spec(inbox.drop_first()),
            Frame::Error => Received {
                outcome: Some(Err(EiError::Receive)),
                rest: inbox.drop_first(),
            },
            Frame::Data(buff) => Received {
                outcome: Some(decode_spec(buff@)),
                rest: inbox.drop_first(),
            },
        }
    }
}

/// The step that a receive reports. Where no frame has decided it, the
/// caller is asked to wait; a wait with a bound of zero has run out before it
/// began, and the receive ends with a receive failure.
pub open spec fn step_spec(received: Received, fd: i32, timeout_ms: Option<u32>) -> Step {
    match received.outcome {
        Some(result) => Step::Done(result),
        None => if timeout_ms == Some(0u32) {
            Step::Done(Err(EiError::Receive))
        } else {
            Step::AwaitFrame(Wait { fd, timeout_ms })
        },
    }
}

/// `n` heartbeats in a row.
pub open spec fn heartbeats(n: nat) -> Seq<Frame> {
    Seq::new(n, |i: int| Frame::Heartbeat)
}

/// Heartbeats are transparent: however many of them stand before the other
/// frames, a receive ends as it would without them.
pub proof fn lemma_heartbeats_transparent(n: nat, frames: Seq<Frame>)
    ensures
        receive_spec(heartbeats(n) + frames) == receive_spec(frames),
    decreases n,
{
    if n == 0 {
        assert(heartbeats(0) + frames =~= frames);
    } else {
        let all = heartbeats(n) + frames;
        assert(all[0] == Frame::Heartbeat);
        assert(all.drop_first() =~= heartbeats((n - 1) as nat) + frames);
        lemma_heartbeats_transparent((n - 1) as nat, frames);
    }
}

/// A message behind any number of heartbeats is received as that message
/// alone would be: the result is what its payload decodes to, and nothing
/// else is used up.
pub proof fn lemma_message_after_heartbeats(n: nat, payload: Buff, rest: Seq<Frame>)
    ensures
        receive_spec(heartbeats(n) + seq![Frame::Data(payload)] + rest) == (Received {
            outcome: Some(decode_spec(payload@)),
            rest,
        }),
{
    let tail = seq![Frame::Data(payload)] + rest;
    assert(heartbeats(n) + seq![Frame::Data(payload)] + rest =~= heartbeats(n) + tail);
    lemma_heartbeats_transparent(n, tail);
    assert(tail.drop_first() =~= rest);
}

/// An error frame behind any number of heartbeats ends the receive with a
/// receive failure, never with a decode failure.
pub proof fn lemma_error_after_heartbeats(n: nat, rest: Seq<Frame>)
    ensures
        receive_spec(heartbeats(n) + seq![Frame::Error] + rest) == (Received {
            outcome: Some(Err(EiError::Receive)),
            rest,
        }),
{
    let tail = seq![Frame::Error] + rest;
    assert(heartbeats(n) + seq![Frame::Error] + rest =~= heartbeats(n) + tail);
    lemma_heartbeats_transparent(n, tail);
    assert(tail.drop_first() =~= rest);
}

/// A payload that does not decode costs its own frame and nothing else: the
/// receive ends with a decode failure, and the frames behind it are there
/// for the next receive as if it had never come.
pub proof fn lemma_decode_failure_isolated(payload: Buff, rest: Seq<Frame>)
    requires
        decode_spec(payload@) is Err,
    ensures
        receive_spec(seq![Frame::Data(payload)] + rest) == (Received {
            outcome: Some(Err(EiError::Decode)),
            rest,
        }),
{
    let inbox = seq![Frame::Data(payload)] + rest;
    assert(inbox[0] == Frame::Data(payload));
    assert(inbox.drop_first() =~= rest);
}

/// Where a message goes.
#[derive(Debug, Clone)]
pub enum Destination {
    /// To the process registered under a name on the peer; the name is held
    /// as a null-terminated string.
    Name(Vec<u8>),
    /// To a process, by its identifier.
    Pid(ErlangPid),
}

/// One whole message that the caller is asked to write to the handle. It is
/// written in one piece or not at all.
#[derive(Debug, Clone)]
pub struct Outbound {
    pub fd: i32,
    pub to: Destination,
    pub payload: Buff,
}

/// The longest payload that can be handed to the transport in one piece.
pub const MAX_PAYLOAD: usize = 0x7FFF_FFFF;

impl Outbound {
    /// The result of a send, given the status of the write: a negative
    /// status, which also stands for a write that stopped half-way, is a send
    /// failure.
    pub fn completed(&self, status: i32) -> (r: EiResult<()>)
        ensures
            r == (if status < 0 {
                Err::<(), EiError>(EiError::Send)
            } else {
                Ok(())
            }),
    {
        if status < 0 {
            Err(EiError::Send)
        } else {
            Ok(())
        }
    }
}

/// What a [`Connection`] holds.
pub struct ConnectionView {
    pub node: NodeView,
    pub fd: i32,
    /// The frames that arrived and no receive has looked at yet.
    pub inbox: Seq<Frame>,
}

/// The open channel to one peer.
pub struct Connection {
    node: Node,
    fd: i32,
    inbox: VecDeque<Frame>,
}

impl View for Connection {
    type V = ConnectionView;

    closed spec fn view(&self) -> ConnectionView {
        ConnectionView { node: self.node@, fd: self.fd, inbox: self.inbox@ }
    }
}

impl Connection {
    /// The transport handle.
    pub fn fd(&self) -> (fd: i32)
        ensures
            fd == self@.fd,
    {
        self.fd
    }

    /// The identity that this side tags its messages with: that of the node
    /// behind the connection.
    pub fn my_pid(&mut self) -> (pid: Pid)
        ensures
            pid@ == local_pid(old(self)@.node),
            pid@.name.len() > 0,
            no_nul(pid@.name),
            final(self)@ == old(self)@,
    {
        self.node.my_pid()
    }

    /// Takes a frame that the transport has read.
    pub fn deliver(&mut self, frame: Frame)
        ensures
            final(self)@ == (ConnectionView {
                inbox: old(self)@.inbox.push(frame),
                ..old(self)@
            }),
    {
        self.inbox.push_back(frame);
    }

    fn drain(&mut self, timeout_ms: Option<u32>) -> (step: Step)
        ensures
            step == step_spec(receive_spec(old(self)@.inbox), old(self)@.fd, timeout_ms),
            final(self)@ == (ConnectionView {
                inbox: receive_spec(old(self)@.inbox).rest,
                ..old(self)@
            }),
    {
        loop
            invariant
                self@.node == old(self)@.node,
                self@.fd == old(self)@.fd,
                receive_spec(self@.inbox) == receive_spec(old(self)@.inbox),
            decreases self@.inbox.len(),
        {
            match self.inbox.pop_front() {
                None => {
                    return match timeout_ms {
                        Some(0) => Step::Done(Err(EiError::Receive)),
                        _ => Step::AwaitFrame(Wait { fd: self.fd, timeout_ms }),
                    };
                },
                Some(Frame::Heartbeat) => {},
                Some(Frame::Error) => {
                    return Step::Done(Err(EiError::Receive));
                },
                Some(Frame::Data(buff)) => {
                    return Step::Done(decode(buff.0.as_slice()));
                },
            }
        }
    }

    /// Receives the next message from the frames delivered so far, with no
    /// bound on the wait where none of them is one.
    pub fn receive(&mut self) -> (step: Step)
        ensures
            step == step_spec(receive_spec(old(self)@.inbox), old(self)@.fd, None),
            final(self)@ == (ConnectionView {
                inbox: receive_spec(old(self)@.inbox).rest,
                ..old(self)@
            }),
    {
        self.drain(None)
    }

    /// Receives the next message from the frames delivered so far. Where none
    /// of them is one, the caller is to wait for at most `tmo` milliseconds:
    /// the bound holds for each wait and starts anew after every heartbeat.
    /// With a bound of zero there is nothing to wait for, and the receive
    /// fails as a wait that has run out.
    pub fn receive_tmo(&mut self, tmo: u32) -> (step: Step)
        ensures
            step == step_spec(receive_spec(old(self)@.inbox), old(self)@.fd, Some(tmo)),
            final(self)@ == (ConnectionView {
                inbox: receive_spec(old(self)@.inbox).rest,
                ..old(self)@
            }),
    {
        self.drain(Some(tmo))
    }

    /// Addresses an encoded term to the process registered as `dst` on the
    /// peer. Fails, before anything is written, where the name cannot stand
    /// as a null-terminated string or the payload is longer than
    /// [`MAX_PAYLOAD`].
    pub fn reg_send(&mut self, dst: &str, payload: Buff) -> (r: EiResult<Outbound>)
        ensures
            r is Ok <==> no_nul(dst@) && payload@.len() <= MAX_PAYLOAD,
            r matches Ok(out) ==> {
                &&& out.fd == old(self)@.fd
                &&& out.to matches Destination::Name(name)
                &&& name@ == encode_utf8(dst@).push(0u8)
                &&& out.payload == payload
            },
            r matches Err(e) ==> e == EiError::Send,
            final(self)@ == old(self)@,
    {
        if payload.0.len() > MAX_PAYLOAD {
            return Err(EiError::Send);
        }
        match c_string(dst) {
            Some(name) => Ok(Outbound { fd: self.fd, to: Destination::Name(name), payload }),
            None => Err(EiError::Send),
        }
    }

    /// Addresses an encoded term to a process. Fails, before anything is
    /// written, where the payload is longer than [`MAX_PAYLOAD`].
    pub fn send(&mut self, pid: &Pid, payload: Buff) -> (r: EiResult<Outbound>)
        ensures
            r is Ok <==> payload@.len() <= MAX_PAYLOAD,
            r matches Ok(out) ==> {
                &&& out.fd == old(self)@.fd
                &&& out.to matches Destination::Pid(to)
                &&& to@ == local_to_wire(pid@)
                &&& out.payload == payload
            },
            r matches Err(e) ==> e == EiError::Send,
            final(self)@ == old(self)@,
    {
        if payload.0.len() > MAX_PAYLOAD {
            return Err(EiError::Send);
        }
        Ok(Outbound { fd: self.fd, to: Destination::Pid(ErlangPid::from(pid)), payload })
    }
}

} // verus!
