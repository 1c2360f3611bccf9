//! The portmapper's table of (program, version, transport) to port.
use vstd::prelude::*;

verus! {

pub const PMAP_PROGRAM: u32 = 100000;

pub const PMAP_VERSION: u32 = 2;

pub const MOUNT_PROGRAM: u32 = 100005;

pub const MOUNT_VERSION: u32 = 3;

pub const NFS_PROGRAM: u32 = 100003;

pub const NFS_VERSION: u32 = 3;

/// Transport protocol number of TCP.
pub const IPPROTO_TCP: u32 = 6;

/// One registration: a program version on a transport, and its port.
#[derive(PartialEq, Eq, Structural, Clone, Copy, Debug)]
pub struct Mapping {
    pub prog: u32,
    pub vers: u32,
    pub prot: u32,
    pub port: u32,
}

pub open spec fn key_of(m: Mapping) -> (u32, u32, u32) {
    (m.prog, m.vers, m.prot)
}

/// The port registered under `k` in `s`.
pub open spec fn lookup(s: Seq<Mapping>, k: (u32, u32, u32)) -> Option<u32>
    decreases s.len(),
{
    if s.len() == 0 {
        None
    } else if key_of(s.last()) == k {
        Some(s.last().port)
    } else {
        lookup(s.drop_last(), k)
    }
}

/// No two registrations share a key.
pub open spec fn keys_unique(s: Seq<Mapping>) -> bool {
    forall|i: int, j: int| 0 <= i < j < s.len() ==> key_of(s[i]) != key_of(s[j])
}

proof fn lemma_lookup_absent(s: Seq<Mapping>, k: (u32, u32, u32))
    requires
        forall|j: int| 0 <= j < s.len() ==> key_of(#[trigger] s[j]) != k,
    ensures
        lookup(s, k) is None,
    decreases s.len(),
{
    if s.len() > 0 {
        lemma_lookup_absent(s.drop_last(), k);
    }
}

proof fn lemma_lookup_update(s: Seq<Mapping>, i: int, m: Mapping, k: (u32, u32, u32))
    requires
        0 <= i < s.len(),
        key_of(s[i]) == key_of(m),
        forall|j: int| i < j < s.len() ==> key_of(#[trigger] s[j]) != key_of(m),
    ensures
        lookup(s.update(i, m), k) == if k == key_of(m) {
            Some(m.port)
        } else {
            lookup(s, k)
        },
    decreases s.len(),
{
    let t = s.update(i, m);
    if i == s.len() - 1 {
        assert(t.drop_last() =~= s.drop_last());
    } else {
        assert(t.drop_last() =~= s.drop_last().update(i, m));
        lemma_lookup_update(s.drop_last(), i, m, k);
    }
}

/// The registrations of the programs this server offers. It is filled once
/// at startup and only read after that.
pub struct ProgramRegistry {
    entries: Vec<Mapping>,
}

impl ProgramRegistry {
    pub closed spec fn entries(&self) -> Seq<Mapping> {
        self.entries@
    }

    /// The port registered under a key, if any.
    pub open spec fn port_of(&self, k: (u32, u32, u32)) -> Option<u32> {
        lookup(self.entries(), k)
    }

    pub open spec fn wf(&self) -> bool {
        keys_unique(self.entries())
    }

    pub fn new() -> (r: ProgramRegistry)
        ensures
            r.wf(),
            forall|k: (u32, u32, u32)| r.port_of(k) is None,
    {
        ProgramRegistry { entries: Vec::new() }
    }

    /// Registers `port` for `(prog, vers, prot)`, replacing an earlier port.
    pub fn set(&mut self, prog: u32, vers: u32, prot: u32, port: u32)
        requires
            old(self).wf(),
        ensures
            final(self).wf(),
            forall|k: (u32, u32, u32)|
                final(self).port_of(k) == if k == (prog, vers, prot) {
                    Some(port)
                } else {
                    old(self).port_of(k)
                },
    {
        let m = Mapping { prog, vers, prot, port };
        let mut i: usize = 0;
        while i < self.entries.len()
            invariant
                self.entries@ == old(self).entries@,
                keys_unique(self.entries@),
                m == (Mapping { prog, vers, prot, port }),
                i <= self.entries@.len(),
                forall|j: int| 0 <= j < i ==> key_of(#[trigger] self.entries@[j]) != key_of(m),
            decreases self.entries@.len() - i,
        {
            let e = self.entries[i];
            if e.prog == prog && e.vers == vers && e.prot == prot {
                let ghost s = self.entries@;
                assert(key_of(s[i as int]) == key_of(m));
                assert(forall|j: int| i < j < s.len() ==> key_of(#[trigger] s[j]) != key_of(s[i as int]));
                self.entries.set(i, m);
                proof {
                    assert forall|k: (u32, u32, u32)|
                        lookup(self.entries@, k) == if k == key_of(m) {
                            Some(port)
                        } else {
                            lookup(s, k)
                        } by {
                        lemma_lookup_update(s, i as int, m, k);
                    }
                }
                return;
            }
            i += 1;
        }
        let ghost s = self.entries@;
        self.entries.push(m);
        assert(self.entries@.drop_last() =~= s);
        proof {
            lemma_lookup_absent(s, key_of(m));
        }
    }

    /// The port registered for `(prog, vers, prot)`.
    pub fn get(&self, prog: u32, vers: u32, prot: u32) -> (r: Option<u32>)
        ensures
            r == self.port_of((prog, vers, prot)),
    {
        let mut i: usize = self.entries.len();
        assert(self.entries@.subrange(0, i as int) =~= self.entries@);
        while i > 0
            invariant
                i <= self.entries@.len(),
                lookup(self.entries@, (prog, vers, prot)) == lookup(
                    self.entries@.subrange(0, i as int),
                    (prog, vers, prot),
                ),
            decreases i,
        {
            let e = self.entries[i - 1];
            assert(self.entries@.subrange(0, i - 1) =~= self.entries@.subrange(
                0,
                i as int,
            ).drop_last());
            if e.prog == prog && e.vers == vers && e.prot == prot {
                return Some(e.port);
            }
            i -= 1;
        }
        None
    }

    /// The table a server fills at startup: the portmapper, MOUNT and NFS,
    /// each over TCP on the one listening port.
    pub fn for_server(port: u32) -> (r: ProgramRegistry)
        ensures
            r.wf(),
            r.port_of((PMAP_PROGRAM, PMAP_VERSION, IPPROTO_TCP)) == Some(port),
            r.port_of((MOUNT_PROGRAM, MOUNT_VERSION, IPPROTO_TCP)) == Some(port),
            r.port_of((NFS_PROGRAM, NFS_VERSION, IPPROTO_TCP)) == Some(port),
            forall|k: (u32, u32, u32)|
                k != (PMAP_PROGRAM, PMAP_VERSION, IPPROTO_TCP) && k != (
                    MOUNT_PROGRAM,
                    MOUNT_VERSION,
                    IPPROTO_TCP,
                ) && k != (NFS_PROGRAM, NFS_VERSION, IPPROTO_TCP) ==> r.port_of(k) is None,
    {
        let mut r = ProgramRegistry::new();
        r.set(PMAP_PROGRAM, PMAP_VERSION, IPPROTO_TCP, port);
        r.set(MOUNT_PROGRAM, MOUNT_VERSION, IPPROTO_TCP, port);
        r.set(NFS_PROGRAM, NFS_VERSION, IPPROTO_TCP, port);
        r
    }
}

} // verus!
