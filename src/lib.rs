//! An NFS version 3 server core: record-marked framing, the RPC call and
//! reply envelope, the portmapper registry, and the MOUNT and NFS procedure
//! tables, each stated and proved over the bytes on the wire.
pub mod config;
pub mod dispatcher;
pub mod framing;
pub mod mount;
pub mod nfs;
pub mod registry;
pub mod rpc;
pub mod server;
pub mod xdr;
