//! Routing of decoded calls to the portmapper, MOUNT and NFS procedure
//! tables, and the replies built from what the filesystem reports.
//!
//! Handling a message either answers it at once, drops it, or names one
//! filesystem operation to perform; the caller performs it and hands the
//! outcome to [`complete`], which builds the reply.
use crate::mount::{
    mount_status, mount_status_of, parse_dirpath, MountMessage, FHSIZE3, MNT3ERR_NOENT, MNT3_OK,
};
use crate::nfs::{
    fattr_bytes, fsinfo_bytes, fsstat_bytes, nfs_status, not_supported_bytes, parse_access,
    parse_handle, parse_lookup, parse_read, post_op_bytes, put_fattr, put_fsinfo, put_fsstat,
    put_post_op, status_of, FileAttr, FsError, FsInfo, FsStat, NfsMessage, NFS3ERR_NOTSUPP,
    NFS3_FHSIZE, NFS3_OK,
};
use crate::registry::{
    ProgramRegistry, MOUNT_PROGRAM, MOUNT_VERSION, NFS_PROGRAM, NFS_VERSION, PMAP_PROGRAM,
    PMAP_VERSION,
};
use crate::rpc::{
    answer_bytes, call_error, call_xid, parse_auth, reply_with, AcceptStat, CallError,
    RejectStat, ReplyStat, RpcCall, RpcMessage, AUTH_NONE, AUTH_TOOWEAK, RPC_VERSION,
};
use crate::xdr::{be32, get_u32, lemma_word_be32, opaque, put_bool, put_opaque, put_u32, word_at, xdr_bool};
use vstd::prelude::*;

verus! {

/// A filesystem operation that a call needs.
pub enum FsRequest {
    /// The root handle of the export.
    MountRoot,
    GetAttr { handle: Vec<u8> },
    Lookup { dir: Vec<u8>, name: Vec<u8> },
    Access { handle: Vec<u8>, mask: u32 },
    Read { handle: Vec<u8>, offset: u64, count: u32 },
    FsStat { handle: Vec<u8> },
    FsInfo { handle: Vec<u8> },
}

/// The model of a filesystem operation.
pub enum Request {
    MountRoot,
    GetAttr(Seq<u8>),
    Lookup(Seq<u8>, Seq<u8>),
    Access(Seq<u8>, u32),
    Read(Seq<u8>, u64, u32),
    FsStat(Seq<u8>),
    FsInfo(Seq<u8>),
}

impl View for FsRequest {
    type V = Request;

    open spec fn view(&self) -> Request {
        match self {
            FsRequest::MountRoot => Request::MountRoot,
            FsRequest::GetAttr { handle } => Request::GetAttr(handle@),
            FsRequest::Lookup { dir, name } => Request::Lookup(dir@, name@),
            FsRequest::Access { handle, mask } => Request::Access(handle@, *mask),
            FsRequest::Read { handle, offset, count } => Request::Read(handle@, *offset, *count),
            FsRequest::FsStat { handle } => Request::FsStat(handle@),
            FsRequest::FsInfo { handle } => Request::FsInfo(handle@),
        }
    }
}

/// A call that waits for a filesystem operation.
pub struct PendingCall {
    pub xid: u32,
    pub request: FsRequest,
}

/// What the filesystem reported for an operation.
pub enum FsReply {
    Root(Result<Vec<u8>, FsError>),
    Attr(Result<FileAttr, FsError>),
    Lookup(Result<(Vec<u8>, FileAttr), FsError>),
    Access(Result<(u32, FileAttr), FsError>),
    Read(Result<(Vec<u8>, bool, FileAttr), FsError>),
    Stat(Result<(FsStat, FileAttr), FsError>),
    Info(Result<(FsInfo, FileAttr), FsError>),
}

/// What to do with one inbound message.
pub enum Action {
    /// Send these reply bytes.
    Reply(Vec<u8>),
    /// Nothing can be answered: the message holds no correlation id.
    Ignore,
    /// Perform a filesystem operation, then [`complete`] the call.
    Consult(PendingCall),
}

/// The model of an [`Action`].
pub enum Decision {
    Reply { xid: u32, stat: ReplyStat, results: Seq<u8> },
    Ignore,
    Consult { xid: u32, request: Request },
}

/// `a` carries out the decision `d`.
pub open spec fn fits(a: Action, d: Decision) -> bool {
    match d {
        Decision::Reply { xid, stat, results } => a matches Action::Reply(b) && b@ == answer_bytes(
            xid,
            stat,
            results,
        ),
        Decision::Ignore => a is Ignore,
        Decision::Consult { xid, request } => a matches Action::Consult(p) && p.xid == xid
            && p.request@ == request,
    }
}

pub open spec fn succeed(xid: u32, results: Seq<u8>) -> Decision {
    Decision::Reply { xid, stat: ReplyStat::Accepted(AcceptStat::Success), results }
}

pub open spec fn refuse(xid: u32, a: AcceptStat) -> Decision {
    Decision::Reply { xid, stat: ReplyStat::Accepted(a), results: Seq::empty() }
}

/// The NFS procedure table.
pub open spec fn nfs_decision(xid: u32, procedure: u32, args: Seq<u8>) -> Decision {
    if procedure == 0 {
        succeed(xid, Seq::empty())
    } else if procedure == 1 {
        match parse_handle(args, 0) {
            Some((h, _)) => Decision::Consult { xid, request: Request::GetAttr(h) },
            None => refuse(xid, AcceptStat::GarbageArgs),
        }
    } else if procedure == 3 {
        match parse_lookup(args) {
            Some((d, n)) => Decision::Consult { xid, request: Request::Lookup(d, n) },
            None => refuse(xid, AcceptStat::GarbageArgs),
        }
    } else if procedure == 4 {
        match parse_access(args) {
            Some((h, m)) => Decision::Consult { xid, request: Request::Access(h, m) },
            None => refuse(xid, AcceptStat::GarbageArgs),
        }
    } else if procedure == 6 {
        match parse_read(args) {
            Some((h, o, c)) => Decision::Consult { xid, request: Request::Read(h, o, c) },
            None => refuse(xid, AcceptStat::GarbageArgs),
        }
    } else if procedure == 18 {
        match parse_handle(args, 0) {
            Some((h, _)) => Decision::Consult { xid, request: Request::FsStat(h) },
            None => refuse(xid, AcceptStat::GarbageArgs),
        }
    } else if procedure == 19 {
        match parse_handle(args, 0) {
            Some((h, _)) => Decision::Consult { xid, request: Request::FsInfo(h) },
            None => refuse(xid, AcceptStat::GarbageArgs),
        }
    } else if procedure == 7 || procedure == 8 || procedure == 9 {
        succeed(xid, not_supported_bytes())
    } else {
        refuse(xid, AcceptStat::ProcUnavail)
    }
}

/// The NFS program: version 3 only.
pub open spec fn nfs_program_decision(xid: u32, vers: u32, procedure: u32, args: Seq<u8>) -> Decision {
    if vers != NFS_VERSION {
        refuse(xid, AcceptStat::ProgMismatch { low: NFS_VERSION, high: NFS_VERSION })
    } else {
        nfs_decision(xid, procedure, args)
    }
}

/// The MOUNT program: NULL, MNT of the export, and UMNT.
pub open spec fn mount_decision(
    export: Seq<u8>,
    xid: u32,
    vers: u32,
    procedure: u32,
    args: Seq<u8>,
) -> Decision {
    if vers != MOUNT_VERSION {
        refuse(xid, AcceptStat::ProgMismatch { low: MOUNT_VERSION, high: MOUNT_VERSION })
    } else if procedure == 0 || procedure == 3 {
        succeed(xid, Seq::empty())
    } else if procedure == 1 {
        match parse_dirpath(args) {
            Some(p) => if p == export {
                Decision::Consult { xid, request: Request::MountRoot }
            } else {
                succeed(xid, be32(MNT3ERR_NOENT))
            },
            None => refuse(xid, AcceptStat::GarbageArgs),
        }
    } else {
        refuse(xid, AcceptStat::ProcUnavail)
    }
}

/// The port that GETPORT reports: zero where nothing is registered.
pub open spec fn port_or_zero(p: Option<u32>) -> u32 {
    match p {
        Some(x) => x,
        None => 0,
    }
}

/// The portmapper program: NULL and GETPORT.
pub open spec fn portmap_decision(
    reg: ProgramRegistry,
    xid: u32,
    vers: u32,
    procedure: u32,
    args: Seq<u8>,
) -> Decision {
    if vers != PMAP_VERSION {
        refuse(xid, AcceptStat::ProgMismatch { low: PMAP_VERSION, high: PMAP_VERSION })
    } else if procedure == 0 {
        succeed(xid, Seq::empty())
    } else if procedure == 3 {
        if args.len() >= 16 {
            succeed(
                xid,
                be32(
                    port_or_zero(
                        reg.port_of((word_at(args, 0), word_at(args, 4), word_at(args, 8))),
                    ),
                ),
            )
        } else {
            refuse(xid, AcceptStat::GarbageArgs)
        }
    } else {
        refuse(xid, AcceptStat::ProcUnavail)
    }
}

/// Routing by program number.
pub open spec fn program_decision(
    reg: ProgramRegistry,
    export: Seq<u8>,
    xid: u32,
    prog: u32,
    vers: u32,
    procedure: u32,
    args: Seq<u8>,
) -> Decision {
    if prog == PMAP_PROGRAM {
        portmap_decision(reg, xid, vers, procedure, args)
    } else if prog == MOUNT_PROGRAM {
        mount_decision(export, xid, vers, procedure, args)
    } else if prog == NFS_PROGRAM {
        nfs_program_decision(xid, vers, procedure, args)
    } else {
        refuse(xid, AcceptStat::ProgUnavail)
    }
}

/// The credential flavor of a well-formed call.
pub open spec fn cred_flavor(s: Seq<u8>) -> u32 {
    parse_auth(s, 24).unwrap().0
}

/// The procedure arguments of a well-formed call.
pub open spec fn call_args(s: Seq<u8>) -> Seq<u8> {
    let p1 = parse_auth(s, 24).unwrap().2;
    let p2 = parse_auth(s, p1).unwrap().2;
    s.subrange(p2, s.len() as int)
}

/// What is done with the inbound message `s`.
pub open spec fn message_decision(reg: ProgramRegistry, export: Seq<u8>, s: Seq<u8>) -> Decision {
    match call_error(s) {
        Some(CallError::Truncated) => Decision::Ignore,
        Some(CallError::Malformed { xid }) => refuse(xid, AcceptStat::GarbageArgs),
        Some(CallError::RpcMismatch { xid }) => Decision::Reply {
            xid,
            stat: ReplyStat::Denied(RejectStat::RpcMismatch { low: RPC_VERSION, high: RPC_VERSION }),
            results: Seq::empty(),
        },
        None => if cred_flavor(s) != AUTH_NONE {
            Decision::Reply {
                xid: word_at(s, 0),
                stat: ReplyStat::Denied(RejectStat::AuthError { stat: AUTH_TOOWEAK }),
                results: Seq::empty(),
            }
        } else {
            program_decision(
                reg,
                export,
                word_at(s, 0),
                word_at(s, 12),
                word_at(s, 16),
                word_at(s, 20),
                call_args(s),
            )
        },
    }
}

/// The result of a successful MNT.
pub open spec fn mount_ok_bytes(h: Seq<u8>) -> Seq<u8> {
    be32(MNT3_OK) + opaque(h) + be32(1) + be32(AUTH_NONE)
}

pub open spec fn mount_completion(rep: FsReply) -> (AcceptStat, Seq<u8>) {
    match rep {
        FsReply::Root(Ok(h)) => if h@.len() <= FHSIZE3 {
            (AcceptStat::Success, mount_ok_bytes(h@))
        } else {
            (AcceptStat::SystemErr, Seq::empty())
        },
        FsReply::Root(Err(e)) => (AcceptStat::Success, be32(mount_status(e))),
        _ => (AcceptStat::SystemErr, Seq::empty()),
    }
}

pub open spec fn attr_completion(rep: FsReply) -> (AcceptStat, Seq<u8>) {
    match rep {
        FsReply::Attr(Ok(a)) => (AcceptStat::Success, be32(NFS3_OK) + fattr_bytes(a)),
        FsReply::Attr(Err(e)) => (AcceptStat::Success, be32(nfs_status(e))),
        _ => (AcceptStat::SystemErr, Seq::empty()),
    }
}

/// The results of a failed procedure that reports no attributes.
pub open spec fn error_bytes(e: FsError) -> Seq<u8> {
    be32(nfs_status(e)) + post_op_bytes(None)
}

pub open spec fn lookup_completion(rep: FsReply) -> (AcceptStat, Seq<u8>) {
    match rep {
        FsReply::Lookup(Ok((h, a))) => if h@.len() <= NFS3_FHSIZE {
            (
                AcceptStat::Success,
                be32(NFS3_OK) + opaque(h@) + post_op_bytes(Some(a)) + post_op_bytes(None),
            )
        } else {
            (AcceptStat::SystemErr, Seq::empty())
        },
        FsReply::Lookup(Err(e)) => (AcceptStat::Success, error_bytes(e)),
        _ => (AcceptStat::SystemErr, Seq::empty()),
    }
}

/// ACCESS grants only bits that were asked for.
pub open spec fn access_completion(mask: u32, rep: FsReply) -> (AcceptStat, Seq<u8>) {
    match rep {
        FsReply::Access(Ok((granted, a))) => (
            AcceptStat::Success,
            be32(NFS3_OK) + post_op_bytes(Some(a)) + be32(granted & mask),
        ),
        FsReply::Access(Err(e)) => (AcceptStat::Success, error_bytes(e)),
        _ => (AcceptStat::SystemErr, Seq::empty()),
    }
}

/// READ returns at most `count` bytes; end of file is reported only when
/// nothing was cut off.
pub open spec fn read_completion(count: u32, rep: FsReply) -> (AcceptStat, Seq<u8>) {
    match rep {
        FsReply::Read(Ok((data, eof, a))) => {
            let n = if data@.len() <= count {
                data@.len() as int
            } else {
                count as int
            };
            (
                AcceptStat::Success,
                be32(NFS3_OK) + post_op_bytes(Some(a)) + be32(n as u32) + xdr_bool(
                    eof && data@.len() <= count,
                ) + opaque(data@.subrange(0, n)),
            )
        },
        FsReply::Read(Err(e)) => (AcceptStat::Success, error_bytes(e)),
        _ => (AcceptStat::SystemErr, Seq::empty()),
    }
}

pub open spec fn stat_completion(rep: FsReply) -> (AcceptStat, Seq<u8>) {
    match rep {
        FsReply::Stat(Ok((s, a))) => (
            AcceptStat::Success,
            be32(NFS3_OK) + post_op_bytes(Some(a)) + fsstat_bytes(s),
        ),
        FsReply::Stat(Err(e)) => (AcceptStat::Success, error_bytes(e)),
        _ => (AcceptStat::SystemErr, Seq::empty()),
    }
}

pub open spec fn info_completion(rep: FsReply) -> (AcceptStat, Seq<u8>) {
    match rep {
        FsReply::Info(Ok((i, a))) => (
            AcceptStat::Success,
            be32(NFS3_OK) + post_op_bytes(Some(a)) + fsinfo_bytes(i),
        ),
        FsReply::Info(Err(e)) => (AcceptStat::Success, error_bytes(e)),
        _ => (AcceptStat::SystemErr, Seq::empty()),
    }
}

/// The status and results of a reply to a call that asked for `req`, once
/// the filesystem has reported `rep`. A report of another kind than the
/// operation asked for is a system error.
pub open spec fn completion(req: FsRequest, rep: FsReply) -> (AcceptStat, Seq<u8>) {
    match req {
        FsRequest::MountRoot => mount_completion(rep),
        FsRequest::GetAttr { .. } => attr_completion(rep),
        FsRequest::Lookup { .. } => lookup_completion(rep),
        FsRequest::Access { mask, .. } => access_completion(mask, rep),
        FsRequest::Read { count, .. } => read_completion(count, rep),
        FsRequest::FsStat { .. } => stat_completion(rep),
        FsRequest::FsInfo { .. } => info_completion(rep),
    }
}

/// What the server knows when it routes calls: the portmapper registry and
/// the one exported directory path.
pub struct Router {
    pub registry: ProgramRegistry,
    pub export_path: Vec<u8>,
}

fn reply_action(xid: u32, stat: ReplyStat, results: &[u8]) -> (r: Action)
    ensures
        fits(r, Decision::Reply { xid, stat, results: results@ }),
{
    Action::Reply(reply_with(xid, stat, results))
}

fn refuse_action(xid: u32, a: AcceptStat) -> (r: Action)
    ensures
        fits(r, refuse(xid, a)),
{
    let none: Vec<u8> = Vec::new();
    reply_action(xid, ReplyStat::Accepted(a), none.as_slice())
}

fn succeed_action(xid: u32, results: &[u8]) -> (r: Action)
    ensures
        fits(r, succeed(xid, results@)),
{
    reply_action(xid, ReplyStat::Accepted(AcceptStat::Success), results)
}

fn consult(xid: u32, request: FsRequest) -> (r: Action)
    ensures
        fits(r, Decision::Consult { xid, request: request@ }),
{
    Action::Consult(PendingCall { xid, request })
}

fn handle_only(xid: u32, args: &[u8], stat_only: bool) -> (r: Action)
    ensures
        match parse_handle(args@, 0) {
            Some((h, _)) => fits(
                r,
                Decision::Consult {
                    xid,
                    request: if stat_only {
                        Request::FsStat(h)
                    } else {
                        Request::FsInfo(h)
                    },
                },
            ),
            None => fits(r, refuse(xid, AcceptStat::GarbageArgs)),
        },
{
    match NfsMessage::deserialize_getattr3args(args) {
        Some(handle) => if stat_only {
            consult(xid, FsRequest::FsStat { handle })
        } else {
            consult(xid, FsRequest::FsInfo { handle })
        },
        None => refuse_action(xid, AcceptStat::GarbageArgs),
    }
}

/// The NFS procedure table, for a call of version 3.
pub fn handle_nfs_call(call: &RpcCall) -> (r: Action)
    ensures
        fits(r, nfs_decision(call.xid, call.proc_, call.args@)),
{
    let xid = call.xid;
    let args = call.args.as_slice();
    match call.proc_ {
        0 => {
            let none: Vec<u8> = Vec::new();
            succeed_action(xid, none.as_slice())
        },
        1 => match NfsMessage::deserialize_getattr3args(args) {
            Some(handle) => consult(xid, FsRequest::GetAttr { handle }),
            None => refuse_action(xid, AcceptStat::GarbageArgs),
        },
        3 => match NfsMessage::deserialize_lookup3args(args) {
            Some(a) => consult(xid, FsRequest::Lookup { dir: a.dir, name: a.name }),
            None => refuse_action(xid, AcceptStat::GarbageArgs),
        },
        4 => match NfsMessage::deserialize_access3args(args) {
            Some((handle, mask)) => consult(xid, FsRequest::Access { handle, mask }),
            None => refuse_action(xid, AcceptStat::GarbageArgs),
        },
        6 => match NfsMessage::deserialize_read3args(args) {
            Some(a) => consult(
                xid,
                FsRequest::Read { handle: a.file, offset: a.offset, count: a.count },
            ),
            None => refuse_action(xid, AcceptStat::GarbageArgs),
        },
        18 => handle_only(xid, args, true),
        19 => handle_only(xid, args, false),
        7 | 8 | 9 => {
            let mut out: Vec<u8> = Vec::new();
            put_u32(&mut out, NFS3ERR_NOTSUPP);
            put_bool(&mut out, false);
            put_bool(&mut out, false);
            assert(out@ =~= not_supported_bytes());
            succeed_action(xid, out.as_slice())
        },
        _ => refuse_action(xid, AcceptStat::ProcUnavail),
    }
}

/// The NFS program: checks the version, then runs the procedure table.
pub fn dispatch(call: &RpcCall) -> (r: Action)
    ensures
        fits(r, nfs_program_decision(call.xid, call.vers, call.proc_, call.args@)),
{
    if call.vers != NFS_VERSION {
        refuse_action(call.xid, AcceptStat::ProgMismatch { low: NFS_VERSION, high: NFS_VERSION })
    } else {
        handle_nfs_call(call)
    }
}

/// The MOUNT program, serving the directory `export`.
pub fn handle_mount_call(export: &[u8], call: &RpcCall) -> (r: Action)
    ensures
        fits(r, mount_decision(export@, call.xid, call.vers, call.proc_, call.args@)),
{
    let xid = call.xid;
    if call.vers != MOUNT_VERSION {
        return refuse_action(xid, AcceptStat::ProgMismatch { low: MOUNT_VERSION, high: MOUNT_VERSION });
    }
    if call.proc_ == 0 || call.proc_ == 3 {
        let none: Vec<u8> = Vec::new();
        return succeed_action(xid, none.as_slice());
    }
    if call.proc_ != 1 {
        return refuse_action(xid, AcceptStat::ProcUnavail);
    }
    match MountMessage::deserialize_dirpath(call.args.as_slice()) {
        Some(path) => {
            if bytes_equal(path.as_slice(), export) {
                consult(xid, FsRequest::MountRoot)
            } else {
                let mut out: Vec<u8> = Vec::new();
                put_u32(&mut out, MNT3ERR_NOENT);
                succeed_action(xid, out.as_slice())
            }
        },
        None => refuse_action(xid, AcceptStat::GarbageArgs),
    }
}

/// Whether two byte strings are equal.
pub fn bytes_equal(a: &[u8], b: &[u8]) -> (r: bool)
    ensures
        r == (a@ == b@),
{
    if a.len() != b.len() {
        return false;
    }
    let mut i: usize = 0;
    while i < a.len()
        invariant
            a@.len() == b@.len(),
            i <= a@.len(),
            forall|j: int| 0 <= j < i ==> a@[j] == b@[j],
        decreases a@.len() - i,
    {
        if a[i] != b[i] {
            return false;
        }
        i += 1;
    }
    assert(a@ =~= b@);
    true
}

/// The portmapper program, answering from `registry`.
pub fn handle_portmap_call(registry: &ProgramRegistry, call: &RpcCall) -> (r: Action)
    ensures
        fits(r, portmap_decision(*registry, call.xid, call.vers, call.proc_, call.args@)),
{
    let xid = call.xid;
    if call.vers != PMAP_VERSION {
        return refuse_action(xid, AcceptStat::ProgMismatch { low: PMAP_VERSION, high: PMAP_VERSION });
    }
    if call.proc_ == 0 {
        let none: Vec<u8> = Vec::new();
        return succeed_action(xid, none.as_slice());
    }
    if call.proc_ != 3 {
        return refuse_action(xid, AcceptStat::ProcUnavail);
    }
    let args = call.args.as_slice();
    if args.len() < 16 {
        return refuse_action(xid, AcceptStat::GarbageArgs);
    }
    let prog = get_u32(args, 0);
    let vers = get_u32(args, 4);
    let prot = get_u32(args, 8);
    let port = match registry.get(prog, vers, prot) {
        Some(p) => p,
        None => 0,
    };
    let mut out: Vec<u8> = Vec::new();
    put_u32(&mut out, port);
    assert(out@ =~= be32(port));
    succeed_action(xid, out.as_slice())
}

/// Routes a decoded call by its program number.
pub fn dispatch_nfs_call(router: &Router, call: &RpcCall) -> (r: Action)
    ensures
        fits(
            r,
            program_decision(
                router.registry,
                router.export_path@,
                call.xid,
                call.prog,
                call.vers,
                call.proc_,
                call.args@,
            ),
        ),
{
    if call.prog == PMAP_PROGRAM {
        handle_portmap_call(&router.registry, call)
    } else if call.prog == MOUNT_PROGRAM {
        handle_mount_call(router.export_path.as_slice(), call)
    } else if call.prog == NFS_PROGRAM {
        dispatch(call)
    } else {
        refuse_action(call.xid, AcceptStat::ProgUnavail)
    }
}

/// Handles one complete inbound message.
pub fn handle_rpc_message(router: &Router, data: &[u8]) -> (r: Action)
    ensures
        fits(r, message_decision(router.registry, router.export_path@, data@)),
{
    match RpcMessage::deserialize_call(data) {
        Err(CallError::Truncated) => Action::Ignore,
        Err(CallError::Malformed { xid }) => refuse_action(xid, AcceptStat::GarbageArgs),
        Err(CallError::RpcMismatch { xid }) => {
            let none: Vec<u8> = Vec::new();
            reply_action(
                xid,
                ReplyStat::Denied(RejectStat::RpcMismatch { low: RPC_VERSION, high: RPC_VERSION }),
                none.as_slice(),
            )
        },
        Ok(call) => {
            if call.cred.flavor != AUTH_NONE {
                let none: Vec<u8> = Vec::new();
                reply_action(
                    call.xid,
                    ReplyStat::Denied(RejectStat::AuthError { stat: AUTH_TOOWEAK }),
                    none.as_slice(),
                )
            } else {
                dispatch_nfs_call(router, &call)
            }
        },
    }
}

fn error_results(e: FsError) -> (r: Vec<u8>)
    ensures
        r@ == error_bytes(e),
{
    let mut out: Vec<u8> = Vec::new();
    put_u32(&mut out, status_of(e));
    put_post_op(&mut out, &None);
    assert(out@ =~= be32(nfs_status(e)) + post_op_bytes(None));
    out
}

fn mount_results(outcome: &FsReply) -> (r: (AcceptStat, Vec<u8>))
    ensures
        r.0 == mount_completion(*outcome).0,
        r.1@ == mount_completion(*outcome).1,
{
    let mut out: Vec<u8> = Vec::new();
    match outcome {
        FsReply::Root(Ok(h)) => {
            if h.len() <= FHSIZE3 as usize {
                let res = MountMessage::create_mount_ok(h.clone());
                out = MountMessage::serialize_mountres3(&res);
                proof {
                    let fl = seq![AUTH_NONE];
                    assert(fl.drop_last() =~= Seq::<u32>::empty());
                    assert(crate::mount::words(fl.drop_last()) =~= Seq::<u8>::empty());
                    assert(crate::mount::words(fl) =~= be32(AUTH_NONE));
                }
                (AcceptStat::Success, out)
            } else {
                (AcceptStat::SystemErr, out)
            }
        },
        FsReply::Root(Err(e)) => {
            put_u32(&mut out, mount_status_of(*e));
            assert(out@ =~= be32(mount_status(*e)));
            (AcceptStat::Success, out)
        },
        _ => (AcceptStat::SystemErr, out),
    }
}

fn attr_results(outcome: &FsReply) -> (r: (AcceptStat, Vec<u8>))
    ensures
        r.0 == attr_completion(*outcome).0,
        r.1@ == attr_completion(*outcome).1,
{
    let mut out: Vec<u8> = Vec::new();
    match outcome {
        FsReply::Attr(Ok(a)) => {
            put_u32(&mut out, NFS3_OK);
            put_fattr(&mut out, a);
            assert(out@ =~= be32(NFS3_OK) + fattr_bytes(*a));
            (AcceptStat::Success, out)
        },
        FsReply::Attr(Err(e)) => {
            put_u32(&mut out, status_of(*e));
            assert(out@ =~= be32(nfs_status(*e)));
            (AcceptStat::Success, out)
        },
        _ => (AcceptStat::SystemErr, out),
    }
}

fn lookup_results(outcome: &FsReply) -> (r: (AcceptStat, Vec<u8>))
    ensures
        r.0 == lookup_completion(*outcome).0,
        r.1@ == lookup_completion(*outcome).1,
{
    let mut out: Vec<u8> = Vec::new();
    match outcome {
        FsReply::Lookup(Ok((h, a))) => {
            if h.len() <= NFS3_FHSIZE as usize {
                put_u32(&mut out, NFS3_OK);
                put_opaque(&mut out, h.as_slice());
                put_post_op(&mut out, &Some(*a));
                put_post_op(&mut out, &None);
                assert(out@ =~= be32(NFS3_OK) + opaque(h@) + post_op_bytes(Some(*a))
                    + post_op_bytes(None));
                (AcceptStat::Success, out)
            } else {
                (AcceptStat::SystemErr, out)
            }
        },
        FsReply::Lookup(Err(e)) => (AcceptStat::Success, error_results(*e)),
        _ => (AcceptStat::SystemErr, out),
    }
}

fn access_results(mask: u32, outcome: &FsReply) -> (r: (AcceptStat, Vec<u8>))
    ensures
        r.0 == access_completion(mask, *outcome).0,
        r.1@ == access_completion(mask, *outcome).1,
{
    let mut out: Vec<u8> = Vec::new();
    match outcome {
        FsReply::Access(Ok((granted, a))) => {
            put_u32(&mut out, NFS3_OK);
            put_post_op(&mut out, &Some(*a));
            put_u32(&mut out, *granted & mask);
            assert(out@ =~= be32(NFS3_OK) + post_op_bytes(Some(*a)) + be32(*granted & mask));
            (AcceptStat::Success, out)
        },
        FsReply::Access(Err(e)) => (AcceptStat::Success, error_results(*e)),
        _ => (AcceptStat::SystemErr, out),
    }
}

fn read_results(count: u32, outcome: &FsReply) -> (r: (AcceptStat, Vec<u8>))
    ensures
        r.0 == read_completion(count, *outcome).0,
        r.1@ == read_completion(count, *outcome).1,
{
    let mut out: Vec<u8> = Vec::new();
    match outcome {
        FsReply::Read(Ok((data, eof, a))) => {
            let whole = data.len() <= count as usize;
            let n: usize = if whole {
                data.len()
            } else {
                count as usize
            };
            put_u32(&mut out, NFS3_OK);
            put_post_op(&mut out, &Some(*a));
            put_u32(&mut out, n as u32);
            put_bool(&mut out, *eof && whole);
            let part = crate::xdr::copy_range(data.as_slice(), 0, n);
            put_opaque(&mut out, part.as_slice());
            assert(out@ =~= be32(NFS3_OK) + post_op_bytes(Some(*a)) + be32(n as u32) + xdr_bool(
                *eof && whole,
            ) + opaque(data@.subrange(0, n as int)));
            (AcceptStat::Success, out)
        },
        FsReply::Read(Err(e)) => (AcceptStat::Success, error_results(*e)),
        _ => (AcceptStat::SystemErr, out),
    }
}

fn stat_results(outcome: &FsReply) -> (r: (AcceptStat, Vec<u8>))
    ensures
        r.0 == stat_completion(*outcome).0,
        r.1@ == stat_completion(*outcome).1,
{
    let mut out: Vec<u8> = Vec::new();
    match outcome {
        FsReply::Stat(Ok((s, a))) => {
            put_u32(&mut out, NFS3_OK);
            put_post_op(&mut out, &Some(*a));
            put_fsstat(&mut out, s);
            assert(out@ =~= be32(NFS3_OK) + post_op_bytes(Some(*a)) + fsstat_bytes(*s));
            (AcceptStat::Success, out)
        },
        FsReply::Stat(Err(e)) => (AcceptStat::Success, error_results(*e)),
        _ => (AcceptStat::SystemErr, out),
    }
}

fn info_results(outcome: &FsReply) -> (r: (AcceptStat, Vec<u8>))
    ensures
        r.0 == info_completion(*outcome).0,
        r.1@ == info_completion(*outcome).1,
{
    let mut out: Vec<u8> = Vec::new();
    match outcome {
        FsReply::Info(Ok((i, a))) => {
            put_u32(&mut out, NFS3_OK);
            put_post_op(&mut out, &Some(*a));
            put_fsinfo(&mut out, i);
            assert(out@ =~= be32(NFS3_OK) + post_op_bytes(Some(*a)) + fsinfo_bytes(*i));
            (AcceptStat::Success, out)
        },
        FsReply::Info(Err(e)) => (AcceptStat::Success, error_results(*e)),
        _ => (AcceptStat::SystemErr, out),
    }
}

/// Builds the reply to a pending call from what the filesystem reported.
/// A report of another kind than the operation asked for is a system error.
pub fn complete(pending: &PendingCall, outcome: &FsReply) -> (r: Vec<u8>)
    ensures
        r@ == answer_bytes(
            pending.xid,
            ReplyStat::Accepted(completion(pending.request, *outcome).0),
            completion(pending.request, *outcome).1,
        ),
{
    let (stat, out) = match &pending.request {
        FsRequest::MountRoot => mount_results(outcome),
        FsRequest::GetAttr { .. } => attr_results(outcome),
        FsRequest::Lookup { .. } => lookup_results(outcome),
        FsRequest::Access { mask, .. } => access_results(*mask, outcome),
        FsRequest::Read { count, .. } => read_results(*count, outcome),
        FsRequest::FsStat { .. } => stat_results(outcome),
        FsRequest::FsInfo { .. } => info_results(outcome),
    };
    reply_with(pending.xid, ReplyStat::Accepted(stat), out.as_slice())
}

/// The version that this server runs of a program it offers.
pub open spec fn program_version(prog: u32) -> u32 {
    if prog == PMAP_PROGRAM {
        PMAP_VERSION
    } else if prog == MOUNT_PROGRAM {
        MOUNT_VERSION
    } else {
        NFS_VERSION
    }
}

/// The correlation id that a decision answers with, if it answers.
pub open spec fn decision_xid(d: Decision) -> Option<u32> {
    match d {
        Decision::Reply { xid, .. } => Some(xid),
        Decision::Consult { xid, .. } => Some(xid),
        Decision::Ignore => None,
    }
}

proof fn lemma_answer_xid(xid: u32, stat: ReplyStat, results: Seq<u8>)
    ensures
        word_at(answer_bytes(xid, stat, results), 0) == xid,
{
    let b = answer_bytes(xid, stat, results);
    lemma_word_be32(xid);
    assert(b =~= be32(xid) + b.subrange(4, b.len() as int));
}

proof fn lemma_program_xid(
    reg: ProgramRegistry,
    export: Seq<u8>,
    xid: u32,
    prog: u32,
    vers: u32,
    procedure: u32,
    args: Seq<u8>,
)
    ensures
        decision_xid(program_decision(reg, export, xid, prog, vers, procedure, args)) == Some(xid),
{
    if prog == NFS_PROGRAM && vers == NFS_VERSION {
        assert(decision_xid(nfs_decision(xid, procedure, args)) == Some(xid));
    }
}

/// Every reply carries the correlation id of the message it answers. A
/// message too short to hold one is the only one left unanswered, and a
/// call that waits for the filesystem keeps its id, so that the reply
/// completed from any report carries it too.
pub proof fn lemma_reply_echoes_xid(reg: ProgramRegistry, export: Seq<u8>, s: Seq<u8>)
    ensures
        decision_xid(message_decision(reg, export, s)) == call_xid(s),
        message_decision(reg, export, s) matches Decision::Reply { xid, stat, results }
            ==> word_at(answer_bytes(xid, stat, results), 0) == word_at(s, 0),
        forall|p: PendingCall, rep: FsReply|
            #![trigger completion(p.request, rep)]
            word_at(
                answer_bytes(
                    p.xid,
                    ReplyStat::Accepted(completion(p.request, rep).0),
                    completion(p.request, rep).1,
                ),
                0,
            ) == p.xid,
{
    if call_error(s) is None && cred_flavor(s) == AUTH_NONE {
        lemma_program_xid(
            reg,
            export,
            word_at(s, 0),
            word_at(s, 12),
            word_at(s, 16),
            word_at(s, 20),
            call_args(s),
        );
    }
    match message_decision(reg, export, s) {
        Decision::Reply { xid, stat, results } => lemma_answer_xid(xid, stat, results),
        _ => {},
    }
    assert forall|p: PendingCall, rep: FsReply|
        #![trigger completion(p.request, rep)]
        word_at(
            answer_bytes(
                p.xid,
                ReplyStat::Accepted(completion(p.request, rep).0),
                completion(p.request, rep).1,
            ),
            0,
        ) == p.xid by {
        lemma_answer_xid(
            p.xid,
            ReplyStat::Accepted(completion(p.request, rep).0),
            completion(p.request, rep).1,
        );
    }
}

/// A call to any program other than the portmapper, MOUNT and NFS is
/// answered with "program unavailable", and the connection goes on.
pub proof fn lemma_unknown_program(reg: ProgramRegistry, export: Seq<u8>, s: Seq<u8>)
    requires
        call_error(s) is None,
        cred_flavor(s) == AUTH_NONE,
        word_at(s, 12) != PMAP_PROGRAM,
        word_at(s, 12) != MOUNT_PROGRAM,
        word_at(s, 12) != NFS_PROGRAM,
    ensures
        message_decision(reg, export, s) == refuse(word_at(s, 0), AcceptStat::ProgUnavail),
{
}

/// A call to a program this server offers, in a version it does not run,
/// is answered with "program version mismatch" naming the version it runs,
/// never with "procedure unavailable".
pub proof fn lemma_version_mismatch(reg: ProgramRegistry, export: Seq<u8>, s: Seq<u8>)
    requires
        call_error(s) is None,
        cred_flavor(s) == AUTH_NONE,
        word_at(s, 12) == PMAP_PROGRAM || word_at(s, 12) == MOUNT_PROGRAM || word_at(s, 12)
            == NFS_PROGRAM,
        word_at(s, 16) != program_version(word_at(s, 12)),
    ensures
        message_decision(reg, export, s) == refuse(
            word_at(s, 0),
            AcceptStat::ProgMismatch {
                low: program_version(word_at(s, 12)),
                high: program_version(word_at(s, 12)),
            },
        ),
        message_decision(reg, export, s) != refuse(word_at(s, 0), AcceptStat::ProcUnavail),
{
}

} // verus!
