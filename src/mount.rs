//! MOUNT protocol values: the directory path argument and the mount result.
use crate::nfs::FsError;
use crate::xdr::{be32, get_opaque, opaque, parse_opaque, put_opaque, put_u32};
use crate::rpc::AUTH_NONE;
use vstd::prelude::*;

verus! {

pub const MNT3_OK: u32 = 0;

pub const MNT3ERR_NOENT: u32 = 2;

pub const MNT3ERR_IO: u32 = 5;

pub const MNT3ERR_ACCES: u32 = 13;

pub const MNT3ERR_NOTSUPP: u32 = 10004;

/// Longest directory path a MOUNT call may name.
pub const MNTPATHLEN: u32 = 1024;

/// Largest MOUNT file handle, in bytes.
pub const FHSIZE3: u32 = 64;

/// The result of MNT.
pub enum MountRes3 {
    Mounted { fhandle: Vec<u8>, auth_flavors: Vec<u32> },
    Fail(u32),
}

/// The MOUNT status that reports a failure to resolve the export.
pub open spec fn mount_status(e: FsError) -> u32 {
    match e {
        FsError::NotFound => MNT3ERR_NOENT,
        FsError::PermissionDenied => MNT3ERR_ACCES,
        FsError::StaleHandle => MNT3ERR_NOENT,
        FsError::Io => MNT3ERR_IO,
        FsError::Unsupported => MNT3ERR_NOTSUPP,
    }
}

pub fn mount_status_of(e: FsError) -> (r: u32)
    ensures
        r == mount_status(e),
{
    match e {
        FsError::NotFound => MNT3ERR_NOENT,
        FsError::PermissionDenied => MNT3ERR_ACCES,
        FsError::StaleHandle => MNT3ERR_NOENT,
        FsError::Io => MNT3ERR_IO,
        FsError::Unsupported => MNT3ERR_NOTSUPP,
    }
}

/// The words of `v`, one after the other.
pub open spec fn words(v: Seq<u32>) -> Seq<u8>
    decreases v.len(),
{
    if v.len() == 0 {
        Seq::empty()
    } else {
        words(v.drop_last()) + be32(v.last())
    }
}

pub open spec fn mountres_bytes(r: MountRes3) -> Seq<u8> {
    match r {
        MountRes3::Mounted { fhandle, auth_flavors } => be32(MNT3_OK) + opaque(fhandle@) + be32(
            auth_flavors@.len() as u32,
        ) + words(auth_flavors@),
        MountRes3::Fail(status) => be32(status),
    }
}

/// The directory path at the front of a MNT or UMNT call's arguments.
pub open spec fn parse_dirpath(s: Seq<u8>) -> Option<Seq<u8>> {
    match parse_opaque(s, 0, MNTPATHLEN as int) {
        Some((path, _)) => Some(path),
        None => None,
    }
}

/// Codec of MOUNT arguments and results.
pub struct MountMessage;

impl MountMessage {
    /// Decodes the directory path of MNT or UMNT.
    pub fn deserialize_dirpath(data: &[u8]) -> (r: Option<Vec<u8>>)
        ensures
            match parse_dirpath(data@) {
                Some(p) => r.is_some() && r.unwrap()@ == p,
                None => r.is_none(),
            },
    {
        match get_opaque(data, 0, MNTPATHLEN) {
            Some((p, _)) => Some(p),
            None => None,
        }
    }

    /// Encodes the result of MNT.
    pub fn serialize_mountres3(res: &MountRes3) -> (r: Vec<u8>)
        requires
            res matches MountRes3::Mounted { fhandle, auth_flavors } ==> fhandle@.len()
                <= FHSIZE3 && auth_flavors@.len() <= u32::MAX,
        ensures
            r@ == mountres_bytes(*res),
    {
        let mut out: Vec<u8> = Vec::new();
        match res {
            MountRes3::Mounted { fhandle, auth_flavors } => {
                put_u32(&mut out, MNT3_OK);
                put_opaque(&mut out, fhandle.as_slice());
                put_u32(&mut out, auth_flavors.len() as u32);
                let ghost head = out@;
                let mut i: usize = 0;
                while i < auth_flavors.len()
                    invariant
                        i <= auth_flavors@.len(),
                        out@ == head + words(auth_flavors@.subrange(0, i as int)),
                    decreases auth_flavors@.len() - i,
                {
                    put_u32(&mut out, auth_flavors[i]);
                    let ghost next = auth_flavors@.subrange(0, i + 1);
                    assert(next.drop_last() =~= auth_flavors@.subrange(0, i as int));
                    i += 1;
                }
                assert(auth_flavors@.subrange(0, i as int) =~= auth_flavors@);
            },
            MountRes3::Fail(status) => put_u32(&mut out, *status),
        }
        assert(out@ =~= mountres_bytes(*res));
        out
    }

    /// A successful mount result: the handle, and the empty credential as
    /// the only flavor accepted.
    pub fn create_mount_ok(fhandle_bytes: Vec<u8>) -> (r: MountRes3)
        ensures
            r matches MountRes3::Mounted { fhandle, auth_flavors } && fhandle@ == fhandle_bytes@
                && auth_flavors@ == seq![AUTH_NONE],
    {
        let mut flavors: Vec<u32> = Vec::new();
        flavors.push(AUTH_NONE);
        assert(flavors@ =~= seq![AUTH_NONE]);
        MountRes3::Mounted { fhandle: fhandle_bytes, auth_flavors: flavors }
    }

    /// A failed mount result with the given status.
    pub fn create_mount_error(status: u32) -> (r: MountRes3)
        ensures
            r matches MountRes3::Fail(s) && s == status,
    {
        MountRes3::Fail(status)
    }
}

} // verus!
