use arcticwolf::dispatcher::{complete, handle_rpc_message, Action, FsReply, FsRequest, PendingCall, Router};
use arcticwolf::framing::{encode_record, RecordDecoder};
use arcticwolf::mount::{MountMessage, MountRes3};
use arcticwolf::nfs::{FileAttr, FsError, FsInfo, FsStat, Getattr3Res, Lookup3Res, NfsMessage, NfsTime};
use arcticwolf::registry::ProgramRegistry;
use arcticwolf::rpc::{AcceptStat, CallError, RpcMessage};
use arcticwolf::server::RpcServer;

fn word(out: &mut Vec<u8>, x: u32) {
    out.extend_from_slice(&x.to_be_bytes());
}

fn opaque(out: &mut Vec<u8>, b: &[u8]) {
    word(out, b.len() as u32);
    out.extend_from_slice(b);
    while out.len() % 4 != 0 {
        out.push(0);
    }
}

fn call_with_flavor(xid: u32, prog: u32, vers: u32, procedure: u32, flavor: u32, args: &[u8]) -> Vec<u8> {
    let mut m = Vec::new();
    for w in [xid, 0, 2, prog, vers, procedure, flavor, 0, 0, 0] {
        word(&mut m, w);
    }
    m.extend_from_slice(args);
    m
}

fn call(xid: u32, prog: u32, vers: u32, procedure: u32, args: &[u8]) -> Vec<u8> {
    call_with_flavor(xid, prog, vers, procedure, 0, args)
}

fn accepted(xid: u32, stat: u32) -> Vec<u8> {
    let mut r = Vec::new();
    for w in [xid, 1, 0, 0, 0, stat] {
        word(&mut r, w);
    }
    r
}

fn router() -> Router {
    Router {
        registry: ProgramRegistry::for_server(2049),
        export_path: b"/export".to_vec(),
    }
}

fn reply_of(a: Action) -> Vec<u8> {
    match a {
        Action::Reply(b) => b,
        Action::Ignore => panic!("message ignored"),
        Action::Consult(_) => panic!("filesystem consulted"),
    }
}

fn pending_of(a: Action) -> PendingCall {
    match a {
        Action::Consult(p) => p,
        _ => panic!("no filesystem operation"),
    }
}

fn attr(fileid: u64) -> FileAttr {
    let t = NfsTime { seconds: 1_700_000_000, nseconds: 5 };
    FileAttr {
        ftype: 1,
        mode: 0o644,
        nlink: 1,
        uid: 1000,
        gid: 1000,
        size: 12,
        used: 4096,
        rdev_major: 0,
        rdev_minor: 0,
        fsid: 7,
        fileid,
        atime: t,
        mtime: t,
        ctime: t,
    }
}

fn attr_bytes(a: &FileAttr) -> Vec<u8> {
    let mut r = Vec::new();
    for w in [a.ftype, a.mode, a.nlink, a.uid, a.gid] {
        word(&mut r, w);
    }
    r.extend_from_slice(&a.size.to_be_bytes());
    r.extend_from_slice(&a.used.to_be_bytes());
    word(&mut r, a.rdev_major);
    word(&mut r, a.rdev_minor);
    r.extend_from_slice(&a.fsid.to_be_bytes());
    r.extend_from_slice(&a.fileid.to_be_bytes());
    for t in [a.atime, a.mtime, a.ctime] {
        word(&mut r, t.seconds);
        word(&mut r, t.nseconds);
    }
    r
}

fn frame(body: &[u8], last: bool) -> Vec<u8> {
    let mut r = Vec::new();
    word(&mut r, body.len() as u32 | if last { 0x8000_0000 } else { 0 });
    r.extend_from_slice(body);
    r
}

#[test]
fn nfs_null_call_gets_empty_success_with_same_xid() {
    let r = router();
    let reply = reply_of(handle_rpc_message(&r, &call(42, 100003, 3, 0, &[])));
    assert_eq!(reply, accepted(42, 0));
}

#[test]
fn mount_of_export_returns_root_handle_and_null_flavor() {
    let r = router();
    let mut args = Vec::new();
    opaque(&mut args, b"/export");
    let p = pending_of(handle_rpc_message(&r, &call(7, 100005, 3, 1, &args)));
    assert_eq!(p.xid, 7);
    assert!(matches!(p.request, FsRequest::MountRoot));
    let handle = vec![1u8, 2, 3, 4, 5];
    let reply = complete(&p, &FsReply::Root(Ok(handle.clone())));
    let mut expect = accepted(7, 0);
    word(&mut expect, 0);
    opaque(&mut expect, &handle);
    word(&mut expect, 1);
    word(&mut expect, 0);
    assert_eq!(reply, expect);
}

#[test]
fn mount_of_other_path_is_a_mount_level_failure() {
    let r = router();
    let mut args = Vec::new();
    opaque(&mut args, b"/elsewhere");
    let reply = reply_of(handle_rpc_message(&r, &call(8, 100005, 3, 1, &args)));
    let mut expect = accepted(8, 0);
    word(&mut expect, 2);
    assert_eq!(reply, expect);
}

#[test]
fn mount_root_failure_and_oversized_handle() {
    let p = PendingCall { xid: 3, request: FsRequest::MountRoot };
    let mut expect = accepted(3, 0);
    word(&mut expect, 13);
    assert_eq!(complete(&p, &FsReply::Root(Err(FsError::PermissionDenied))), expect);
    assert_eq!(complete(&p, &FsReply::Root(Ok(vec![0u8; 65]))), accepted(3, 5));
}

#[test]
fn umount_and_mount_null_succeed() {
    let r = router();
    let mut args = Vec::new();
    opaque(&mut args, b"/export");
    assert_eq!(reply_of(handle_rpc_message(&r, &call(10, 100005, 3, 3, &args))), accepted(10, 0));
    assert_eq!(reply_of(handle_rpc_message(&r, &call(11, 100005, 3, 0, &[]))), accepted(11, 0));
    assert_eq!(reply_of(handle_rpc_message(&r, &call(12, 100005, 3, 5, &[]))), accepted(12, 3));
}

#[test]
fn getattr_of_unknown_handle_reports_stale_and_connection_goes_on() {
    let r = router();
    let mut decoder = RecordDecoder::new();
    let mut args = Vec::new();
    opaque(&mut args, &[9, 9, 9, 9]);
    let first = frame(&call(9, 100003, 3, 1, &args), true);
    let msgs = decoder.feed(&first);
    assert_eq!(msgs.len(), 1);
    let p = pending_of(handle_rpc_message(&r, &msgs[0]));
    match &p.request {
        FsRequest::GetAttr { handle } => assert_eq!(handle, &vec![9u8, 9, 9, 9]),
        _ => panic!("wrong operation"),
    }
    let reply = complete(&p, &FsReply::Attr(Err(FsError::StaleHandle)));
    let mut expect = accepted(9, 0);
    word(&mut expect, 70);
    assert_eq!(reply, expect);
    let missing = complete(&p, &FsReply::Attr(Err(FsError::NotFound)));
    let mut expect = accepted(9, 0);
    word(&mut expect, 2);
    assert_eq!(missing, expect);

    let second = frame(&call(10, 100003, 3, 0, &[]), true);
    let msgs = decoder.feed(&second);
    assert_eq!(msgs.len(), 1);
    assert_eq!(reply_of(handle_rpc_message(&r, &msgs[0])), accepted(10, 0));
}

#[test]
fn getattr_success_carries_attributes() {
    let p = PendingCall { xid: 5, request: FsRequest::GetAttr { handle: vec![1] } };
    let a = attr(77);
    let reply = complete(&p, &FsReply::Attr(Ok(a)));
    let mut expect = accepted(5, 0);
    word(&mut expect, 0);
    expect.extend_from_slice(&attr_bytes(&a));
    assert_eq!(reply, expect);
    assert_eq!(attr_bytes(&a).len(), 84);
}

#[test]
fn two_connections_interleaved_both_complete() {
    let r = router();
    let mut one = RecordDecoder::new();
    let mut two = RecordDecoder::new();
    let mut a1 = Vec::new();
    opaque(&mut a1, &[1, 1]);
    let mut a2 = Vec::new();
    opaque(&mut a2, &[2, 2, 2]);
    let s1 = frame(&call(101, 100003, 3, 1, &a1), true);
    let s2 = frame(&call(202, 100003, 3, 1, &a2), true);
    let (h1, t1) = s1.split_at(10);
    let (h2, t2) = s2.split_at(7);
    assert!(one.feed(h1).is_empty());
    assert!(two.feed(h2).is_empty());
    let m2 = two.feed(t2);
    let m1 = one.feed(t1);
    let p2 = pending_of(handle_rpc_message(&r, &m2[0]));
    let p1 = pending_of(handle_rpc_message(&r, &m1[0]));
    let r2 = complete(&p2, &FsReply::Attr(Ok(attr(2))));
    let r1 = complete(&p1, &FsReply::Attr(Ok(attr(1))));
    let mut e1 = accepted(101, 0);
    word(&mut e1, 0);
    e1.extend_from_slice(&attr_bytes(&attr(1)));
    let mut e2 = accepted(202, 0);
    word(&mut e2, 0);
    e2.extend_from_slice(&attr_bytes(&attr(2)));
    assert_eq!(r1, e1);
    assert_eq!(r2, e2);
}

#[test]
fn three_fragments_are_dispatched_after_the_last() {
    let msg = call(55, 100003, 3, 0, &[]);
    let (a, rest) = msg.split_at(8);
    let (b, c) = rest.split_at(12);
    let mut decoder = RecordDecoder::new();
    assert!(decoder.feed(&frame(a, false)).is_empty());
    assert!(decoder.feed(&frame(b, false)).is_empty());
    let out = decoder.feed(&frame(c, true));
    assert_eq!(out.len(), 1);
    let mut joined = a.to_vec();
    joined.extend_from_slice(b);
    joined.extend_from_slice(c);
    assert_eq!(out[0], joined);
    assert_eq!(reply_of(handle_rpc_message(&router(), &out[0])), accepted(55, 0));
}

#[test]
fn byte_by_byte_chunks_give_the_single_fragment_message() {
    let msg: Vec<u8> = (0u8..37).collect();
    let mut stream = frame(&msg[..5], false);
    stream.extend_from_slice(&frame(&msg[5..20], false));
    stream.extend_from_slice(&frame(&msg[20..], true));
    stream.extend_from_slice(&frame(&[], false));
    stream.extend_from_slice(&frame(&[0xaa], true));
    let mut decoder = RecordDecoder::new();
    let mut out = Vec::new();
    for b in &stream {
        out.extend(decoder.feed(std::slice::from_ref(b)));
    }
    let mut whole = RecordDecoder::new();
    let single = whole.feed(&frame(&msg, true));
    assert_eq!(out.len(), 2);
    assert_eq!(out[0], single[0]);
    assert_eq!(out[0], msg);
    assert_eq!(out[1], vec![0xaa]);
}

#[test]
fn encoded_record_is_one_last_fragment() {
    let r = encode_record(&[1, 2, 3]);
    assert_eq!(r, vec![0x80, 0, 0, 3, 1, 2, 3]);
}

#[test]
fn unknown_program_is_unavailable() {
    let r = router();
    assert_eq!(reply_of(handle_rpc_message(&r, &call(13, 200000, 1, 0, &[]))), accepted(13, 1));
    assert_eq!(RpcMessage::create_prog_unavail_reply(13), accepted(13, 1));
}

#[test]
fn wrong_version_is_a_version_mismatch() {
    let r = router();
    let mut e = accepted(14, 2);
    word(&mut e, 3);
    word(&mut e, 3);
    assert_eq!(reply_of(handle_rpc_message(&r, &call(14, 100005, 1, 0, &[]))), e);
    assert_eq!(reply_of(handle_rpc_message(&r, &call(14, 100003, 4, 0, &[]))), e);
    let mut p = accepted(14, 2);
    word(&mut p, 2);
    word(&mut p, 2);
    assert_eq!(reply_of(handle_rpc_message(&r, &call(14, 100000, 3, 0, &[]))), p);
    assert_eq!(reply_of(handle_rpc_message(&r, &call(14, 100003, 3, 99, &[]))), accepted(14, 3));
}

#[test]
fn envelope_errors_are_answered() {
    let r = router();
    assert!(matches!(handle_rpc_message(&r, &[1, 2]), Action::Ignore));
    let mut not_call = Vec::new();
    for w in [15, 1, 2, 100003, 3, 0, 0, 0, 0, 0] {
        word(&mut not_call, w);
    }
    assert_eq!(reply_of(handle_rpc_message(&r, &not_call)), accepted(15, 4));
    let mut v3 = Vec::new();
    for w in [16, 0, 3, 100003, 3, 0, 0, 0, 0, 0] {
        word(&mut v3, w);
    }
    let mut denied = Vec::new();
    for w in [16, 1, 1, 0, 2, 2] {
        word(&mut denied, w);
    }
    assert_eq!(reply_of(handle_rpc_message(&r, &v3)), denied);
    let mut truncated = call(17, 100003, 3, 0, &[]);
    truncated.truncate(30);
    assert_eq!(reply_of(handle_rpc_message(&r, &truncated)), accepted(17, 4));
    let mut auth = Vec::new();
    for w in [18, 1, 1, 1, 5] {
        word(&mut auth, w);
    }
    assert_eq!(reply_of(handle_rpc_message(&r, &call_with_flavor(18, 100003, 3, 0, 1, &[]))), auth);
}

#[test]
fn decode_call_reports_each_error() {
    assert_eq!(RpcMessage::deserialize_call(&[0, 0]).err(), Some(CallError::Truncated));
    let mut v3 = call(19, 100003, 3, 0, &[]);
    v3[11] = 3;
    assert_eq!(RpcMessage::deserialize_call(&v3).err(), Some(CallError::RpcMismatch { xid: 19 }));
    let big_cred = call_with_flavor(20, 100003, 3, 0, 0, &[]);
    let mut bad = big_cred.clone();
    bad[31] = 0xff;
    assert_eq!(RpcMessage::deserialize_call(&bad).err(), Some(CallError::Malformed { xid: 20 }));
    let ok = RpcMessage::deserialize_call(&call(21, 100005, 3, 1, &[7, 7])).ok().unwrap();
    assert_eq!((ok.xid, ok.prog, ok.vers, ok.proc_), (21, 100005, 3, 1));
    assert_eq!(ok.args, vec![7, 7]);
}

#[test]
fn garbage_arguments_are_reported() {
    let r = router();
    assert_eq!(reply_of(handle_rpc_message(&r, &call(22, 100003, 3, 1, &[0, 0]))), accepted(22, 4));
    let mut long = Vec::new();
    opaque(&mut long, &[0u8; 65]);
    assert_eq!(reply_of(handle_rpc_message(&r, &call(23, 100003, 3, 1, &long))), accepted(23, 4));
}

#[test]
fn portmapper_reports_registered_ports() {
    let r = router();
    let mut args = Vec::new();
    for w in [100003, 3, 6, 0] {
        word(&mut args, w);
    }
    let mut e = accepted(24, 0);
    word(&mut e, 2049);
    assert_eq!(reply_of(handle_rpc_message(&r, &call(24, 100000, 2, 3, &args))), e);
    let mut other = Vec::new();
    for w in [100021, 4, 6, 0] {
        word(&mut other, w);
    }
    let mut z = accepted(25, 0);
    word(&mut z, 0);
    assert_eq!(reply_of(handle_rpc_message(&r, &call(25, 100000, 2, 3, &other))), z);
    assert_eq!(reply_of(handle_rpc_message(&r, &call(26, 100000, 2, 0, &[]))), accepted(26, 0));
}

#[test]
fn registry_set_overwrites_and_get_reports() {
    let mut reg = ProgramRegistry::new();
    assert_eq!(reg.get(100003, 3, 6), None);
    reg.set(100003, 3, 6, 2049);
    reg.set(100005, 3, 6, 2050);
    reg.set(100003, 3, 6, 4000);
    assert_eq!(reg.get(100003, 3, 6), Some(4000));
    assert_eq!(reg.get(100005, 3, 6), Some(2050));
    assert_eq!(reg.get(100005, 3, 17), None);
    let s = ProgramRegistry::for_server(111);
    assert_eq!(s.get(100000, 2, 6), Some(111));
    assert_eq!(s.get(100005, 3, 6), Some(111));
    assert_eq!(s.get(100003, 3, 6), Some(111));
}

#[test]
fn lookup_resolves_and_reports_missing_names() {
    let r = router();
    let mut args = Vec::new();
    opaque(&mut args, &[4, 4]);
    opaque(&mut args, b"file.txt");
    let p = pending_of(handle_rpc_message(&r, &call(27, 100003, 3, 3, &args)));
    match &p.request {
        FsRequest::Lookup { dir, name } => {
            assert_eq!(dir, &vec![4u8, 4]);
            assert_eq!(name, &b"file.txt".to_vec());
        }
        _ => panic!("wrong operation"),
    }
    let a = attr(9);
    let found = complete(&p, &FsReply::Lookup(Ok((vec![5, 5, 5], a))));
    let mut e = accepted(27, 0);
    word(&mut e, 0);
    opaque(&mut e, &[5, 5, 5]);
    word(&mut e, 1);
    e.extend_from_slice(&attr_bytes(&a));
    word(&mut e, 0);
    assert_eq!(found, e);
    let missing = complete(&p, &FsReply::Lookup(Err(FsError::NotFound)));
    let mut m = accepted(27, 0);
    word(&mut m, 2);
    word(&mut m, 0);
    assert_eq!(missing, m);
}

#[test]
fn access_grants_only_requested_bits() {
    let r = router();
    let mut args = Vec::new();
    opaque(&mut args, &[1]);
    word(&mut args, 0x06);
    let p = pending_of(handle_rpc_message(&r, &call(28, 100003, 3, 4, &args)));
    let a = attr(1);
    let reply = complete(&p, &FsReply::Access(Ok((0x03, a))));
    let mut e = accepted(28, 0);
    word(&mut e, 0);
    word(&mut e, 1);
    e.extend_from_slice(&attr_bytes(&a));
    word(&mut e, 0x02);
    assert_eq!(reply, e);
}

#[test]
fn read_returns_at_most_the_requested_count() {
    let r = router();
    let mut args = Vec::new();
    opaque(&mut args, &[1]);
    args.extend_from_slice(&10u64.to_be_bytes());
    word(&mut args, 3);
    let p = pending_of(handle_rpc_message(&r, &call(29, 100003, 3, 6, &args)));
    match &p.request {
        FsRequest::Read { offset, count, .. } => assert_eq!((*offset, *count), (10, 3)),
        _ => panic!("wrong operation"),
    }
    let a = attr(1);
    let cut = complete(&p, &FsReply::Read(Ok((vec![1, 2, 3, 4, 5], true, a))));
    let mut e = accepted(29, 0);
    word(&mut e, 0);
    word(&mut e, 1);
    e.extend_from_slice(&attr_bytes(&a));
    word(&mut e, 3);
    word(&mut e, 0);
    opaque(&mut e, &[1, 2, 3]);
    assert_eq!(cut, e);
    let end = complete(&p, &FsReply::Read(Ok((vec![9], true, a))));
    let mut e = accepted(29, 0);
    word(&mut e, 0);
    word(&mut e, 1);
    e.extend_from_slice(&attr_bytes(&a));
    word(&mut e, 1);
    word(&mut e, 1);
    opaque(&mut e, &[9]);
    assert_eq!(end, e);
    let failed = complete(&p, &FsReply::Read(Err(FsError::Io)));
    let mut f = accepted(29, 0);
    word(&mut f, 5);
    word(&mut f, 0);
    assert_eq!(failed, f);
}

#[test]
fn fsstat_and_fsinfo_carry_capacity() {
    let r = router();
    let mut args = Vec::new();
    opaque(&mut args, &[1]);
    let ps = pending_of(handle_rpc_message(&r, &call(30, 100003, 3, 18, &args)));
    let a = attr(1);
    let st = FsStat { tbytes: 1 << 40, fbytes: 2, abytes: 3, tfiles: 4, ffiles: 5, afiles: 6, invarsec: 0 };
    let mut e = accepted(30, 0);
    word(&mut e, 0);
    word(&mut e, 1);
    e.extend_from_slice(&attr_bytes(&a));
    for v in [1u64 << 40, 2, 3, 4, 5, 6] {
        e.extend_from_slice(&v.to_be_bytes());
    }
    word(&mut e, 0);
    assert_eq!(complete(&ps, &FsReply::Stat(Ok((st, a)))), e);
    let pi = pending_of(handle_rpc_message(&r, &call(31, 100003, 3, 19, &args)));
    let info = FsInfo {
        rtmax: 65536,
        rtpref: 65536,
        rtmult: 4096,
        wtmax: 65536,
        wtpref: 65536,
        wtmult: 4096,
        dtpref: 8192,
        maxfilesize: u64::MAX,
        time_delta: NfsTime { seconds: 0, nseconds: 1 },
        properties: 0x1b,
    };
    let mut e = accepted(31, 0);
    word(&mut e, 0);
    word(&mut e, 1);
    e.extend_from_slice(&attr_bytes(&a));
    for w in [65536, 65536, 4096, 65536, 65536, 4096, 8192] {
        word(&mut e, w);
    }
    e.extend_from_slice(&u64::MAX.to_be_bytes());
    word(&mut e, 0);
    word(&mut e, 1);
    word(&mut e, 0x1b);
    assert_eq!(complete(&pi, &FsReply::Info(Ok((info, a)))), e);
    let mut f = accepted(31, 0);
    word(&mut f, 10004);
    word(&mut f, 0);
    assert_eq!(complete(&pi, &FsReply::Info(Err(FsError::Unsupported))), f);
}

#[test]
fn write_side_procedures_are_not_supported() {
    let r = router();
    for procedure in [7, 8, 9] {
        let mut e = accepted(32, 0);
        word(&mut e, 10004);
        word(&mut e, 0);
        word(&mut e, 0);
        assert_eq!(reply_of(handle_rpc_message(&r, &call(32, 100003, 3, procedure, &[]))), e);
    }
}

#[test]
fn report_of_wrong_kind_is_a_system_error() {
    let p = PendingCall { xid: 33, request: FsRequest::GetAttr { handle: vec![1] } };
    assert_eq!(complete(&p, &FsReply::Root(Ok(vec![1]))), accepted(33, 5));
}

#[test]
fn codec_helpers_encode_and_decode() {
    let mut path = Vec::new();
    opaque(&mut path, b"/export");
    assert_eq!(MountMessage::deserialize_dirpath(&path), Some(b"/export".to_vec()));
    assert_eq!(MountMessage::deserialize_dirpath(&[0, 0, 0, 9]), None);
    let ok = MountMessage::create_mount_ok(vec![1, 2]);
    let mut e = Vec::new();
    word(&mut e, 0);
    opaque(&mut e, &[1, 2]);
    word(&mut e, 1);
    word(&mut e, 0);
    assert_eq!(MountMessage::serialize_mountres3(&ok), e);
    let err = MountMessage::create_mount_error(2);
    assert!(matches!(err, MountRes3::Fail(2)));
    assert_eq!(MountMessage::serialize_mountres3(&err), vec![0, 0, 0, 2]);

    let a = attr(3);
    let g = NfsMessage::create_getattr_ok(a);
    let mut ge = Vec::new();
    word(&mut ge, 0);
    ge.extend_from_slice(&attr_bytes(&a));
    assert_eq!(NfsMessage::serialize_getattr3res(&g), ge);
    let ge2 = NfsMessage::create_getattr_error(70);
    assert!(matches!(ge2, Getattr3Res::Fail(70)));
    assert_eq!(NfsMessage::serialize_getattr3res(&ge2), vec![0, 0, 0, 70]);
    let l = Lookup3Res::Fail { status: 2, dir_attributes: None };
    assert_eq!(NfsMessage::serialize_lookup3res(&l), vec![0, 0, 0, 2, 0, 0, 0, 0]);

    let mut h = Vec::new();
    opaque(&mut h, &[8, 8, 8]);
    assert_eq!(NfsMessage::deserialize_getattr3args(&h), Some(vec![8, 8, 8]));
    let reply = RpcMessage::create_success_reply_with_data(34, &[1, 2, 3, 4]);
    let mut e = accepted(34, 0);
    e.extend_from_slice(&[1, 2, 3, 4]);
    assert_eq!(reply, e);
    let null = RpcMessage::create_null_reply(35);
    assert_eq!(null.xid, 35);
    assert_eq!(RpcMessage::serialize_reply(&null), accepted(35, 0));
    assert_eq!(
        arcticwolf::rpc::accepted_reply(36, AcceptStat::SystemErr),
        accepted(36, 5)
    );
}

#[test]
fn server_keeps_its_address() {
    let s = RpcServer::new("0.0.0.0:4000".to_string());
    assert_eq!(s.addr(), "0.0.0.0:4000");
}
