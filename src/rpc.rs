//! The RPC message envelope: decoding calls and encoding replies.
use crate::xdr::{be32, get_opaque, get_u32, parse_opaque, put_u32, word_at};
use vstd::prelude::*;

verus! {

pub const MSG_CALL: u32 = 0;

pub const MSG_REPLY: u32 = 1;

/// The only RPC protocol version this server speaks.
pub const RPC_VERSION: u32 = 2;

/// The flavor of the empty credential, the only one that is processed.
pub const AUTH_NONE: u32 = 0;

/// Largest credential or verifier body that a call may carry.
pub const MAX_AUTH_BYTES: u32 = 400;

/// Authentication status sent when a call's credential flavor is refused.
pub const AUTH_TOOWEAK: u32 = 5;

/// A credential or verifier: a flavor and an opaque body.
pub struct OpaqueAuth {
    pub flavor: u32,
    pub body: Vec<u8>,
}

/// A decoded call envelope and the procedure arguments that follow it.
pub struct RpcCall {
    pub xid: u32,
    pub prog: u32,
    pub vers: u32,
    pub proc_: u32,
    pub cred: OpaqueAuth,
    pub verf: OpaqueAuth,
    pub args: Vec<u8>,
}

/// Why a message could not be decoded as a call.
#[derive(PartialEq, Eq, Structural, Clone, Copy, Debug)]
pub enum CallError {
    /// Too short to hold even a correlation id: nothing can be answered.
    Truncated,
    /// Not a well-formed call; the correlation id could be read.
    Malformed { xid: u32 },
    /// A well-formed call of an RPC version other than 2.
    RpcMismatch { xid: u32 },
}

/// Accept status of a reply to an accepted call.
#[derive(PartialEq, Eq, Structural, Clone, Copy, Debug)]
pub enum AcceptStat {
    Success,
    ProgUnavail,
    ProgMismatch { low: u32, high: u32 },
    ProcUnavail,
    GarbageArgs,
    SystemErr,
}

/// Why a call was denied.
#[derive(PartialEq, Eq, Structural, Clone, Copy, Debug)]
pub enum RejectStat {
    RpcMismatch { low: u32, high: u32 },
    AuthError { stat: u32 },
}

#[derive(PartialEq, Eq, Structural, Clone, Copy, Debug)]
pub enum ReplyStat {
    Accepted(AcceptStat),
    Denied(RejectStat),
}

/// A reply envelope, without procedure results.
#[derive(PartialEq, Eq, Structural, Clone, Copy, Debug)]
pub struct RpcReply {
    pub xid: u32,
    pub stat: ReplyStat,
}

/// A credential or verifier at `p`: its flavor, its body and the position
/// just past it.
pub open spec fn parse_auth(s: Seq<u8>, p: int) -> Option<(u32, Seq<u8>, int)> {
    if 0 <= p && p + 4 <= s.len() {
        match parse_opaque(s, p + 4, MAX_AUTH_BYTES as int) {
            Some((body, end)) => Some((word_at(s, p), body, end)),
            None => None,
        }
    } else {
        None
    }
}

/// What is wrong with `s` as a call, if anything.
pub open spec fn call_error(s: Seq<u8>) -> Option<CallError> {
    if s.len() < 4 {
        Some(CallError::Truncated)
    } else if s.len() < 12 || word_at(s, 4) != MSG_CALL {
        Some(CallError::Malformed { xid: word_at(s, 0) })
    } else if word_at(s, 8) != RPC_VERSION {
        Some(CallError::RpcMismatch { xid: word_at(s, 0) })
    } else if s.len() < 24 {
        Some(CallError::Malformed { xid: word_at(s, 0) })
    } else {
        match parse_auth(s, 24) {
            Some((_, _, p1)) => match parse_auth(s, p1) {
                Some(_) => None,
                None => Some(CallError::Malformed { xid: word_at(s, 0) }),
            },
            None => Some(CallError::Malformed { xid: word_at(s, 0) }),
        }
    }
}

/// `c` holds the fields of the well-formed call `s`.
pub open spec fn decoded_as(c: RpcCall, s: Seq<u8>) -> bool {
    &&& c.xid == word_at(s, 0)
    &&& c.prog == word_at(s, 12)
    &&& c.vers == word_at(s, 16)
    &&& c.proc_ == word_at(s, 20)
    &&& match parse_auth(s, 24) {
        Some((cf, cb, p1)) => {
            &&& cf == c.cred.flavor
            &&& cb == c.cred.body@
            &&& match parse_auth(s, p1) {
                Some((vf, vb, p2)) => {
                    &&& vf == c.verf.flavor
                    &&& vb == c.verf.body@
                    &&& c.args@ == s.subrange(p2, s.len() as int)
                },
                None => false,
            }
        },
        None => false,
    }
}

/// The correlation id that a reply to the message `s` carries, where one
/// can be given.
pub open spec fn call_xid(s: Seq<u8>) -> Option<u32> {
    if s.len() < 4 {
        None
    } else {
        Some(word_at(s, 0))
    }
}

pub open spec fn accept_bytes(a: AcceptStat) -> Seq<u8> {
    match a {
        AcceptStat::Success => be32(0),
        AcceptStat::ProgUnavail => be32(1),
        AcceptStat::ProgMismatch { low, high } => be32(2) + be32(low) + be32(high),
        AcceptStat::ProcUnavail => be32(3),
        AcceptStat::GarbageArgs => be32(4),
        AcceptStat::SystemErr => be32(5),
    }
}

/// The wire form of a reply envelope. An accepted reply carries the empty
/// verifier.
pub open spec fn reply_bytes(r: RpcReply) -> Seq<u8> {
    be32(r.xid) + be32(MSG_REPLY) + match r.stat {
        ReplyStat::Accepted(a) => be32(0) + be32(AUTH_NONE) + be32(0) + accept_bytes(a),
        ReplyStat::Denied(RejectStat::RpcMismatch { low, high }) => be32(1) + be32(0) + be32(low)
            + be32(high),
        ReplyStat::Denied(RejectStat::AuthError { stat }) => be32(1) + be32(1) + be32(stat),
    }
}

/// The bytes of an accepted reply with status `a` to call `xid`.
pub open spec fn accepted_bytes(xid: u32, a: AcceptStat) -> Seq<u8> {
    reply_bytes(RpcReply { xid, stat: ReplyStat::Accepted(a) })
}

/// A successful reply to call `xid` that carries `results`.
pub open spec fn success_bytes(xid: u32, results: Seq<u8>) -> Seq<u8> {
    accepted_bytes(xid, AcceptStat::Success) + results
}

/// Every encoded reply starts with the correlation id it was given.
pub proof fn lemma_reply_starts_with_xid(r: RpcReply, tail: Seq<u8>)
    ensures
        (reply_bytes(r) + tail).len() >= 4,
        (reply_bytes(r) + tail).subrange(0, 4) == be32(r.xid),
{
    assert((reply_bytes(r) + tail).subrange(0, 4) =~= be32(r.xid));
}

fn get_auth(s: &[u8], pos: usize) -> (r: Option<(OpaqueAuth, usize)>)
    ensures
        match parse_auth(s@, pos as int) {
            Some((f, b, end)) => r.is_some() && r.unwrap().0.flavor == f && r.unwrap().0.body@ == b
                && r.unwrap().1 == end,
            None => r.is_none(),
        },
{
    if s.len() < 4 || pos > s.len() - 4 {
        return None;
    }
    let flavor = get_u32(s, pos);
    match get_opaque(s, pos + 4, MAX_AUTH_BYTES) {
        Some((body, end)) => Some((OpaqueAuth { flavor, body }, end)),
        None => None,
    }
}

/// Codec of the RPC envelope.
pub struct RpcMessage;

impl RpcMessage {
    /// Decodes a call envelope; the rest of the message is the procedure's
    /// arguments.
    pub fn deserialize_call(data: &[u8]) -> (r: Result<RpcCall, CallError>)
        ensures
            match r {
                Ok(c) => call_error(data@).is_none() && decoded_as(c, data@),
                Err(e) => call_error(data@) == Some(e),
            },
    {
        let len = data.len();
        if len < 4 {
            return Err(CallError::Truncated);
        }
        let xid = get_u32(data, 0);
        if len < 12 || get_u32(data, 4) != MSG_CALL {
            return Err(CallError::Malformed { xid });
        }
        if get_u32(data, 8) != RPC_VERSION {
            return Err(CallError::RpcMismatch { xid });
        }
        if len < 24 {
            return Err(CallError::Malformed { xid });
        }
        let prog = get_u32(data, 12);
        let vers = get_u32(data, 16);
        let proc_ = get_u32(data, 20);
        let (cred, p1) = match get_auth(data, 24) {
            Some(x) => x,
            None => {
                return Err(CallError::Malformed { xid });
            },
        };
        let (verf, p2) = match get_auth(data, p1) {
            Some(x) => x,
            None => {
                return Err(CallError::Malformed { xid });
            },
        };
        let args = crate::xdr::copy_range(data, p2, len);
        Ok(RpcCall { xid, prog, vers, proc_, cred, verf, args })
    }

    /// Encodes a reply envelope.
    pub fn serialize_reply(reply: &RpcReply) -> (r: Vec<u8>)
        ensures
            r@ == reply_bytes(*reply),
    {
        let mut out: Vec<u8> = Vec::new();
        put_u32(&mut out, reply.xid);
        put_u32(&mut out, MSG_REPLY);
        match reply.stat {
            ReplyStat::Accepted(a) => {
                put_u32(&mut out, 0);
                put_u32(&mut out, AUTH_NONE);
                put_u32(&mut out, 0);
                match a {
                    AcceptStat::Success => put_u32(&mut out, 0),
                    AcceptStat::ProgUnavail => put_u32(&mut out, 1),
                    AcceptStat::ProgMismatch { low, high } => {
                        put_u32(&mut out, 2);
                        put_u32(&mut out, low);
                        put_u32(&mut out, high);
                    },
                    AcceptStat::ProcUnavail => put_u32(&mut out, 3),
                    AcceptStat::GarbageArgs => put_u32(&mut out, 4),
                    AcceptStat::SystemErr => put_u32(&mut out, 5),
                }
            },
            ReplyStat::Denied(RejectStat::RpcMismatch { low, high }) => {
                put_u32(&mut out, 1);
                put_u32(&mut out, 0);
                put_u32(&mut out, low);
                put_u32(&mut out, high);
            },
            ReplyStat::Denied(RejectStat::AuthError { stat }) => {
                put_u32(&mut out, 1);
                put_u32(&mut out, 1);
                put_u32(&mut out, stat);
            },
        }
        assert(out@ =~= reply_bytes(*reply));
        out
    }

    /// The envelope of a successful reply to call `xid`.
    pub fn create_null_reply(xid: u32) -> (r: RpcReply)
        ensures
            r == (RpcReply { xid, stat: ReplyStat::Accepted(AcceptStat::Success) }),
    {
        RpcReply { xid, stat: ReplyStat::Accepted(AcceptStat::Success) }
    }

    /// A successful reply to call `xid` followed by the procedure's results.
    pub fn create_success_reply_with_data(xid: u32, proc_data: &[u8]) -> (r: Vec<u8>)
        ensures
            r@ == success_bytes(xid, proc_data@),
    {
        reply_with(xid, ReplyStat::Accepted(AcceptStat::Success), proc_data)
    }

    /// The reply to call `xid` for a program this server does not run.
    pub fn create_prog_unavail_reply(xid: u32) -> (r: Vec<u8>)
        ensures
            r@ == accepted_bytes(xid, AcceptStat::ProgUnavail),
    {
        accepted_reply(xid, AcceptStat::ProgUnavail)
    }
}

/// The bytes of a reply to call `xid` with status `stat`, followed by
/// `results`.
pub open spec fn answer_bytes(xid: u32, stat: ReplyStat, results: Seq<u8>) -> Seq<u8> {
    reply_bytes(RpcReply { xid, stat }) + results
}

/// A reply to call `xid` with status `stat`, followed by `results`.
pub fn reply_with(xid: u32, stat: ReplyStat, results: &[u8]) -> (r: Vec<u8>)
    ensures
        r@ == answer_bytes(xid, stat, results@),
{
    let mut out = RpcMessage::serialize_reply(&RpcReply { xid, stat });
    let ghost head = out@;
    let mut i: usize = 0;
    while i < results.len()
        invariant
            i <= results@.len(),
            out@ == head + results@.subrange(0, i as int),
        decreases results@.len() - i,
    {
        out.push(results[i]);
        i += 1;
        assert(out@ =~= head + results@.subrange(0, i as int));
    }
    assert(results@.subrange(0, i as int) =~= results@);
    out
}

/// An accepted reply to call `xid` with status `a` and no results.
pub fn accepted_reply(xid: u32, a: AcceptStat) -> (r: Vec<u8>)
    ensures
        r@ == accepted_bytes(xid, a),
{
    RpcMessage::serialize_reply(&RpcReply { xid, stat: ReplyStat::Accepted(a) })
}

} // verus!
