//! Smart-protocol subtransports and the vocabulary they share.
use vstd::prelude::*;

pub mod http;
pub mod url;

verus! {

/// The transport that owns a subtransport. It carries nothing the
/// subtransport reads.
#[derive(PartialEq, Eq, Structural, Clone, Copy, Debug)]
pub struct GitTransport;

/// One phase of the smart protocol: reference listing or pack exchange, for
/// fetching (upload-pack) or for pushing (receive-pack).
#[derive(PartialEq, Eq, Structural, Clone, Copy, Debug)]
pub enum GitSmartService {
    UploadPackLs,
    UploadPack,
    ReceivePackLs,
    ReceivePack,
}

} // verus!
