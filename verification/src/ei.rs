//! The plain-value model of the native distribution layer: its status codes,
//! its fixed-width process identifier, its message buffer, and the rule for
//! what may be handed to it as a null-terminated string.

use vstd::prelude::*;
use vstd::utf8::*;
use crate::text::{lemma_no_nul_iff_no_zero, no_nul, no_zero};

verus! {

/// Status of a receive that met a keepalive tick and no message.
pub const ERL_TICK: i32 = 0;

/// Status of a call that failed.
pub const ERL_ERROR: i32 = -1;

/// Width in bytes of the node-name field of a process identifier, its
/// terminating zero byte included.
pub const MAXATOMLEN_UTF8: usize = 1021;

/// A process identifier in its fixed layout: a node field, which holds the
/// node name as the bytes before its first zero byte, and three counters.
#[derive(Debug, Clone, Copy)]
pub struct ErlangPid {
    pub node: [u8; MAXATOMLEN_UTF8],
    pub num: u32,
    pub serial: u32,
    pub creation: u32,
}

/// What an [`ErlangPid`] holds, with the node field as a sequence of bytes.
pub struct WirePid {
    pub node: Seq<u8>,
    pub num: u32,
    pub serial: u32,
    pub creation: u32,
}

impl View for ErlangPid {
    type V = WirePid;

    open spec fn view(&self) -> WirePid {
        WirePid { node: self.node@, num: self.num, serial: self.serial, creation: self.creation }
    }
}

/// The bytes of a message, staged for sending or as they were received.
#[derive(Debug, Clone)]
pub struct Buff(pub Vec<u8>);

impl View for Buff {
    type V = Seq<u8>;

    open spec fn view(&self) -> Seq<u8> {
        self.0@
    }
}

/// A fresh buffer that holds nothing.
pub fn ei_x_new() -> (buff: Buff)
    ensures
        buff@ == Seq::<u8>::empty(),
{
    Buff(Vec::new())
}

/// The bytes of `s` closed by a zero byte, where `s` holds no null character;
/// a text that holds one cannot be written as a null-terminated string.
pub fn c_string(s: &str) -> (r: Option<Vec<u8>>)
    ensures
        r is Some <==> no_nul(s@),
        r matches Some(v) ==> v@ == encode_utf8(s@).push(0u8),
{
    let bytes = s.as_bytes();
    let mut out: Vec<u8> = Vec::new();
    let mut i: usize = 0;
    proof {
        lemma_no_nul_iff_no_zero(s@);
    }
    while i < bytes.len()
        invariant
            i <= bytes.len(),
            bytes@ == encode_utf8(s@),
            out@ == bytes@.subrange(0, i as int),
            no_zero(out@),
            no_nul(s@) <==> no_zero(encode_utf8(s@)),
        decreases bytes.len() - i,
    {
        let b = bytes[i];
        if b == 0 {
            return None;
        }
        out.push(b);
        i += 1;
        assert(out@ == bytes@.subrange(0, i as int));
    }
    assert(out@ == bytes@);
    out.push(0u8);
    Some(out)
}

} // verus!
