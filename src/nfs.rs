//! NFS version 3 values: file attributes, the filesystem capability's
//! outcomes, procedure arguments and the wire form of procedure results.
use crate::xdr::{
    be32, be64, get_opaque, get_u32, get_u64, opaque, parse_opaque, put_bool, put_opaque, put_u32,
    put_u64, word_at, hyper_at, xdr_bool,
};
use vstd::prelude::*;

verus! {

pub const NFS3_OK: u32 = 0;

pub const NFS3ERR_NOENT: u32 = 2;

pub const NFS3ERR_IO: u32 = 5;

pub const NFS3ERR_ACCES: u32 = 13;

pub const NFS3ERR_STALE: u32 = 70;

pub const NFS3ERR_NOTSUPP: u32 = 10004;

/// Largest file handle, in bytes.
pub const NFS3_FHSIZE: u32 = 64;

#[derive(PartialEq, Eq, Structural, Clone, Copy, Debug)]
pub struct NfsTime {
    pub seconds: u32,
    pub nseconds: u32,
}

/// The attributes of a filesystem object, as the capability reports them.
#[derive(PartialEq, Eq, Structural, Clone, Copy, Debug)]
pub struct FileAttr {
    pub ftype: u32,
    pub mode: u32,
    pub nlink: u32,
    pub uid: u32,
    pub gid: u32,
    pub size: u64,
    pub used: u64,
    pub rdev_major: u32,
    pub rdev_minor: u32,
    pub fsid: u64,
    pub fileid: u64,
    pub atime: NfsTime,
    pub mtime: NfsTime,
    pub ctime: NfsTime,
}

/// How a filesystem operation failed.
#[derive(PartialEq, Eq, Structural, Clone, Copy, Debug)]
pub enum FsError {
    NotFound,
    PermissionDenied,
    StaleHandle,
    Io,
    Unsupported,
}

/// Aggregate capacity of a filesystem.
#[derive(PartialEq, Eq, Structural, Clone, Copy, Debug)]
pub struct FsStat {
    pub tbytes: u64,
    pub fbytes: u64,
    pub abytes: u64,
    pub tfiles: u64,
    pub ffiles: u64,
    pub afiles: u64,
    pub invarsec: u32,
}

/// Static capabilities of a filesystem.
#[derive(PartialEq, Eq, Structural, Clone, Copy, Debug)]
pub struct FsInfo {
    pub rtmax: u32,
    pub rtpref: u32,
    pub rtmult: u32,
    pub wtmax: u32,
    pub wtpref: u32,
    pub wtmult: u32,
    pub dtpref: u32,
    pub maxfilesize: u64,
    pub time_delta: NfsTime,
    pub properties: u32,
}

/// The NFS status that reports a filesystem error.
pub open spec fn nfs_status(e: FsError) -> u32 {
    match e {
        FsError::NotFound => NFS3ERR_NOENT,
        FsError::PermissionDenied => NFS3ERR_ACCES,
        FsError::StaleHandle => NFS3ERR_STALE,
        FsError::Io => NFS3ERR_IO,
        FsError::Unsupported => NFS3ERR_NOTSUPP,
    }
}

pub fn status_of(e: FsError) -> (r: u32)
    ensures
        r == nfs_status(e),
{
    match e {
        FsError::NotFound => NFS3ERR_NOENT,
        FsError::PermissionDenied => NFS3ERR_ACCES,
        FsError::StaleHandle => NFS3ERR_STALE,
        FsError::Io => NFS3ERR_IO,
        FsError::Unsupported => NFS3ERR_NOTSUPP,
    }
}

pub open spec fn time_bytes(t: NfsTime) -> Seq<u8> {
    be32(t.seconds) + be32(t.nseconds)
}

/// The wire form of `fattr3`.
pub open spec fn fattr_bytes(a: FileAttr) -> Seq<u8> {
    be32(a.ftype) + be32(a.mode) + be32(a.nlink) + be32(a.uid) + be32(a.gid) + be64(a.size)
        + be64(a.used) + be32(a.rdev_major) + be32(a.rdev_minor) + be64(a.fsid) + be64(a.fileid)
        + time_bytes(a.atime) + time_bytes(a.mtime) + time_bytes(a.ctime)
}

/// The wire form of `post_op_attr`: attributes, if any are known.
pub open spec fn post_op_bytes(a: Option<FileAttr>) -> Seq<u8> {
    match a {
        Some(x) => xdr_bool(true) + fattr_bytes(x),
        None => xdr_bool(false),
    }
}

pub open spec fn fsstat_bytes(s: FsStat) -> Seq<u8> {
    be64(s.tbytes) + be64(s.fbytes) + be64(s.abytes) + be64(s.tfiles) + be64(s.ffiles) + be64(
        s.afiles,
    ) + be32(s.invarsec)
}

pub open spec fn fsinfo_bytes(i: FsInfo) -> Seq<u8> {
    be32(i.rtmax) + be32(i.rtpref) + be32(i.rtmult) + be32(i.wtmax) + be32(i.wtpref) + be32(
        i.wtmult,
    ) + be32(i.dtpref) + be64(i.maxfilesize) + time_bytes(i.time_delta) + be32(i.properties)
}

/// The result of a write-side procedure that this server does not offer:
/// the status and empty before-and-after attributes.
pub open spec fn not_supported_bytes() -> Seq<u8> {
    be32(NFS3ERR_NOTSUPP) + xdr_bool(false) + xdr_bool(false)
}

pub fn put_time(out: &mut Vec<u8>, t: NfsTime)
    ensures
        final(out)@ == old(out)@ + time_bytes(t),
{
    put_u32(out, t.seconds);
    put_u32(out, t.nseconds);
    assert(out@ =~= old(out)@ + time_bytes(t));
}

pub fn put_fattr(out: &mut Vec<u8>, a: &FileAttr)
    ensures
        final(out)@ == old(out)@ + fattr_bytes(*a),
{
    let ghost start = out@;
    put_u32(out, a.ftype);
    put_u32(out, a.mode);
    put_u32(out, a.nlink);
    put_u32(out, a.uid);
    put_u32(out, a.gid);
    put_u64(out, a.size);
    put_u64(out, a.used);
    put_u32(out, a.rdev_major);
    put_u32(out, a.rdev_minor);
    put_u64(out, a.fsid);
    put_u64(out, a.fileid);
    put_time(out, a.atime);
    put_time(out, a.mtime);
    put_time(out, a.ctime);
    assert(out@ =~= start + fattr_bytes(*a));
}

pub fn put_post_op(out: &mut Vec<u8>, a: &Option<FileAttr>)
    ensures
        final(out)@ == old(out)@ + post_op_bytes(*a),
{
    match a {
        Some(x) => {
            put_bool(out, true);
            put_fattr(out, x);
            assert(out@ =~= old(out)@ + post_op_bytes(*a));
        },
        None => put_bool(out, false),
    }
}

pub fn put_fsstat(out: &mut Vec<u8>, s: &FsStat)
    ensures
        final(out)@ == old(out)@ + fsstat_bytes(*s),
{
    let ghost start = out@;
    put_u64(out, s.tbytes);
    put_u64(out, s.fbytes);
    put_u64(out, s.abytes);
    put_u64(out, s.tfiles);
    put_u64(out, s.ffiles);
    put_u64(out, s.afiles);
    put_u32(out, s.invarsec);
    assert(out@ =~= start + fsstat_bytes(*s));
}

pub fn put_fsinfo(out: &mut Vec<u8>, i: &FsInfo)
    ensures
        final(out)@ == old(out)@ + fsinfo_bytes(*i),
{
    let ghost start = out@;
    put_u32(out, i.rtmax);
    put_u32(out, i.rtpref);
    put_u32(out, i.rtmult);
    put_u32(out, i.wtmax);
    put_u32(out, i.wtpref);
    put_u32(out, i.wtmult);
    put_u32(out, i.dtpref);
    put_u64(out, i.maxfilesize);
    put_time(out, i.time_delta);
    put_u32(out, i.properties);
    assert(out@ =~= start + fsinfo_bytes(*i));
}

/// The result of GETATTR.
pub enum Getattr3Res {
    Done(FileAttr),
    Fail(u32),
}

/// The result of LOOKUP.
pub enum Lookup3Res {
    Found { object: Vec<u8>, obj_attributes: Option<FileAttr>, dir_attributes: Option<FileAttr> },
    Fail { status: u32, dir_attributes: Option<FileAttr> },
}

pub open spec fn getattr_bytes(r: Getattr3Res) -> Seq<u8> {
    match r {
        Getattr3Res::Done(a) => be32(NFS3_OK) + fattr_bytes(a),
        Getattr3Res::Fail(status) => be32(status),
    }
}

pub open spec fn lookup_bytes(r: Lookup3Res) -> Seq<u8> {
    match r {
        Lookup3Res::Found { object, obj_attributes, dir_attributes } => be32(NFS3_OK) + opaque(
            object@,
        ) + post_op_bytes(obj_attributes) + post_op_bytes(dir_attributes),
        Lookup3Res::Fail { status, dir_attributes } => be32(status) + post_op_bytes(
            dir_attributes,
        ),
    }
}

/// Arguments of LOOKUP: a directory handle and a name in it.
pub struct Lookup3Args {
    pub dir: Vec<u8>,
    pub name: Vec<u8>,
}

/// Arguments of READ.
pub struct Read3Args {
    pub file: Vec<u8>,
    pub offset: u64,
    pub count: u32,
}

/// The file handle at the front of `s`, and the position after it.
pub open spec fn parse_handle(s: Seq<u8>, p: int) -> Option<(Seq<u8>, int)> {
    parse_opaque(s, p, NFS3_FHSIZE as int)
}

/// LOOKUP's arguments: the directory handle and the name.
pub open spec fn parse_lookup(s: Seq<u8>) -> Option<(Seq<u8>, Seq<u8>)> {
    match parse_handle(s, 0) {
        Some((dir, p)) => match parse_opaque(s, p, u32::MAX as int) {
            Some((name, _)) => Some((dir, name)),
            None => None,
        },
        None => None,
    }
}

/// ACCESS's arguments: the handle and the permission bits asked for.
pub open spec fn parse_access(s: Seq<u8>) -> Option<(Seq<u8>, u32)> {
    match parse_handle(s, 0) {
        Some((h, p)) => if p + 4 <= s.len() {
            Some((h, word_at(s, p)))
        } else {
            None
        },
        None => None,
    }
}

/// READ's arguments: the handle, the offset and the byte count.
pub open spec fn parse_read(s: Seq<u8>) -> Option<(Seq<u8>, u64, u32)> {
    match parse_handle(s, 0) {
        Some((h, p)) => if p + 12 <= s.len() {
            Some((h, hyper_at(s, p), word_at(s, p + 8)))
        } else {
            None
        },
        None => None,
    }
}

/// Codec of NFS procedure arguments and results.
pub struct NfsMessage;

impl NfsMessage {
    /// Decodes the arguments of GETATTR (and of any procedure whose only
    /// argument is a file handle).
    pub fn deserialize_getattr3args(data: &[u8]) -> (r: Option<Vec<u8>>)
        ensures
            match parse_handle(data@, 0) {
                Some((h, _)) => r.is_some() && r.unwrap()@ == h,
                None => r.is_none(),
            },
    {
        match get_opaque(data, 0, NFS3_FHSIZE) {
            Some((h, _)) => Some(h),
            None => None,
        }
    }

    /// Encodes the result of GETATTR.
    pub fn serialize_getattr3res(res: &Getattr3Res) -> (r: Vec<u8>)
        ensures
            r@ == getattr_bytes(*res),
    {
        let mut out: Vec<u8> = Vec::new();
        match res {
            Getattr3Res::Done(a) => {
                put_u32(&mut out, NFS3_OK);
                put_fattr(&mut out, a);
            },
            Getattr3Res::Fail(status) => put_u32(&mut out, *status),
        }
        assert(out@ =~= getattr_bytes(*res));
        out
    }

    /// Decodes the arguments of LOOKUP.
    pub fn deserialize_lookup3args(data: &[u8]) -> (r: Option<Lookup3Args>)
        ensures
            match parse_lookup(data@) {
                Some((dir, name)) => r.is_some() && r.unwrap().dir@ == dir && r.unwrap().name@
                    == name,
                None => r.is_none(),
            },
    {
        match get_opaque(data, 0, NFS3_FHSIZE) {
            Some((dir, p)) => match get_opaque(data, p, u32::MAX) {
                Some((name, _)) => Some(Lookup3Args { dir, name }),
                None => None,
            },
            None => None,
        }
    }

    /// Decodes the arguments of ACCESS.
    pub fn deserialize_access3args(data: &[u8]) -> (r: Option<(Vec<u8>, u32)>)
        ensures
            match parse_access(data@) {
                Some((h, mask)) => r.is_some() && r.unwrap().0@ == h && r.unwrap().1 == mask,
                None => r.is_none(),
            },
    {
        match get_opaque(data, 0, NFS3_FHSIZE) {
            Some((h, p)) => {
                if p > data.len() || data.len() - p < 4 {
                    return None;
                }
                Some((h, get_u32(data, p)))
            },
            None => None,
        }
    }

    /// Decodes the arguments of READ.
    pub fn deserialize_read3args(data: &[u8]) -> (r: Option<Read3Args>)
        ensures
            match parse_read(data@) {
                Some((h, offset, count)) => r.is_some() && r.unwrap().file@ == h
                    && r.unwrap().offset == offset && r.unwrap().count == count,
                None => r.is_none(),
            },
    {
        match get_opaque(data, 0, NFS3_FHSIZE) {
            Some((file, p)) => {
                if p > data.len() || data.len() - p < 12 {
                    return None;
                }
                let offset = get_u64(data, p);
                let count = get_u32(data, p + 8);
                Some(Read3Args { file, offset, count })
            },
            None => None,
        }
    }

    /// Encodes the result of LOOKUP.
    pub fn serialize_lookup3res(res: &Lookup3Res) -> (r: Vec<u8>)
        requires
            res matches Lookup3Res::Found { object, .. } ==> object@.len() <= NFS3_FHSIZE,
        ensures
            r@ == lookup_bytes(*res),
    {
        let mut out: Vec<u8> = Vec::new();
        match res {
            Lookup3Res::Found { object, obj_attributes, dir_attributes } => {
                put_u32(&mut out, NFS3_OK);
                put_opaque(&mut out, object.as_slice());
                put_post_op(&mut out, obj_attributes);
                put_post_op(&mut out, dir_attributes);
            },
            Lookup3Res::Fail { status, dir_attributes } => {
                put_u32(&mut out, *status);
                put_post_op(&mut out, dir_attributes);
            },
        }
        assert(out@ =~= lookup_bytes(*res));
        out
    }

    /// A successful GETATTR result.
    pub fn create_getattr_ok(attrs: FileAttr) -> (r: Getattr3Res)
        ensures
            r == Getattr3Res::Done(attrs),
    {
        Getattr3Res::Done(attrs)
    }

    /// A failed GETATTR result with the given status.
    pub fn create_getattr_error(status: u32) -> (r: Getattr3Res)
        ensures
            r == Getattr3Res::Fail(status),
    {
        Getattr3Res::Fail(status)
    }
}

} // verus!
