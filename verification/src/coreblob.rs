//! Generated wrappers for the core blob registry contract: one call wrapper
//! per entry point, each pre-wired to the contract's identifier and the entry
//! point's identifier, with its parameter and result proxies.

use vstd::prelude::*;

use crate::calls::{ScFunc, ScFuncContext, ScView, ScViewContext};
use crate::hname::ScHname;

verus! {

pub const SC_NAME: &'static str = "blob";

pub const HSC_NAME: u32 = 0xfd91bc63;

pub const FUNC_STORE_BLOB: &'static str = "storeBlob";

pub const VIEW_GET_BLOB_FIELD: &'static str = "getBlobField";

pub const VIEW_GET_BLOB_INFO: &'static str = "getBlobInfo";

pub const VIEW_LIST_BLOBS: &'static str = "listBlobs";

pub const HFUNC_STORE_BLOB: u32 = 0xddd4c281;

pub const HVIEW_GET_BLOB_FIELD: u32 = 0x1f448130;

pub const HVIEW_GET_BLOB_INFO: u32 = 0xfde4ab46;

pub const HVIEW_LIST_BLOBS: u32 = 0x62ca7990;

/// Proxy over the parameters of a pending `storeBlob` call.
pub struct MutableStoreBlobParams {
    pub id: i32,
}

/// Proxy over the results of a finished `storeBlob` call.
pub struct ImmutableStoreBlobResults {
    pub id: i32,
}

/// Proxy over the parameters of a pending `getBlobField` call.
pub struct MutableGetBlobFieldParams {
    pub id: i32,
}

/// Proxy over the results of a finished `getBlobField` call.
pub struct ImmutableGetBlobFieldResults {
    pub id: i32,
}

/// Proxy over the parameters of a pending `getBlobInfo` call.
pub struct MutableGetBlobInfoParams {
    pub id: i32,
}

/// Proxy over the results of a finished `getBlobInfo` call.
pub struct ImmutableGetBlobInfoResults {
    pub id: i32,
}

/// Proxy over the results of a finished `listBlobs` call.
pub struct ImmutableListBlobsResults {
    pub id: i32,
}

/// Wrapper for the mutating `storeBlob` entry point.
pub struct StoreBlobCall {
    pub func: ScFunc,
    pub params: MutableStoreBlobParams,
    pub results: ImmutableStoreBlobResults,
}

impl StoreBlobCall {
    /// A fresh `storeBlob` call, bound to the blob contract's identifier and
    /// the entry point's identifier, its proxies unassigned.
    pub fn new(_ctx: &ScFuncContext) -> (f: StoreBlobCall)
        ensures
            f.func.hcontract.0 == HSC_NAME,
            f.func.hfunction.0 == HFUNC_STORE_BLOB,
            f.params.id == 0,
            f.results.id == 0,
    {
        StoreBlobCall {
            func: ScFunc::new(ScHname(HSC_NAME), ScHname(HFUNC_STORE_BLOB)),
            params: MutableStoreBlobParams { id: 0 },
            results: ImmutableStoreBlobResults { id: 0 },
        }
    }
}

/// Wrapper for the read-only `getBlobField` entry point.
pub struct GetBlobFieldCall {
    pub func: ScView,
    pub params: MutableGetBlobFieldParams,
    pub results: ImmutableGetBlobFieldResults,
}

impl GetBlobFieldCall {
    /// A fresh `getBlobField` call, bound to the blob contract's identifier
    /// and the entry point's identifier, its proxies unassigned.
    pub fn new(_ctx: &ScFuncContext) -> (f: GetBlobFieldCall)
        ensures
            f.func.hcontract.0 == HSC_NAME,
            f.func.hfunction.0 == HVIEW_GET_BLOB_FIELD,
            f.params.id == 0,
            f.results.id == 0,
    {
        GetBlobFieldCall {
            func: ScView::new(ScHname(HSC_NAME), ScHname(HVIEW_GET_BLOB_FIELD)),
            params: MutableGetBlobFieldParams { id: 0 },
            results: ImmutableGetBlobFieldResults { id: 0 },
        }
    }

    /// The same call, made from a view context.
    pub fn new_from_view(_ctx: &ScViewContext) -> (f: GetBlobFieldCall)
        ensures
            f.func.hcontract.0 == HSC_NAME,
            f.func.hfunction.0 == HVIEW_GET_BLOB_FIELD,
            f.params.id == 0,
            f.results.id == 0,
    {
        GetBlobFieldCall::new(&ScFuncContext {  })
    }
}

/// Wrapper for the read-only `getBlobInfo` entry point.
pub struct GetBlobInfoCall {
    pub func: ScView,
    pub params: MutableGetBlobInfoParams,
    pub results: ImmutableGetBlobInfoResults,
}

impl GetBlobInfoCall {
    /// A fresh `getBlobInfo` call, bound to the blob contract's identifier
    /// and the entry point's identifier, its proxies unassigned.
    pub fn new(_ctx: &ScFuncContext) -> (f: GetBlobInfoCall)
        ensures
            f.func.hcontract.0 == HSC_NAME,
            f.func.hfunction.0 == HVIEW_GET_BLOB_INFO,
            f.params.id == 0,
            f.results.id == 0,
    {
        GetBlobInfoCall {
            func: ScView::new(ScHname(HSC_NAME), ScHname(HVIEW_GET_BLOB_INFO)),
            params: MutableGetBlobInfoParams { id: 0 },
            results: ImmutableGetBlobInfoResults { id: 0 },
        }
    }

    /// The same call, made from a view context.
    pub fn new_from_view(_ctx: &ScViewContext) -> (f: GetBlobInfoCall)
        ensures
            f.func.hcontract.0 == HSC_NAME,
            f.func.hfunction.0 == HVIEW_GET_BLOB_INFO,
            f.params.id == 0,
            f.results.id == 0,
    {
        GetBlobInfoCall::new(&ScFuncContext {  })
    }
}

/// Wrapper for the read-only `listBlobs` entry point, which takes no
/// parameters.
pub struct ListBlobsCall {
    pub func: ScView,
    pub results: ImmutableListBlobsResults,
}

impl ListBlobsCall {
    /// A fresh `listBlobs` call, bound to the blob contract's identifier and
    /// the entry point's identifier, its result proxy unassigned.
    pub fn new(_ctx: &ScFuncContext) -> (f: ListBlobsCall)
        ensures
            f.func.hcontract.0 == HSC_NAME,
            f.func.hfunction.0 == HVIEW_LIST_BLOBS,
            f.results.id == 0,
    {
        ListBlobsCall {
            func: ScView::new(ScHname(HSC_NAME), ScHname(HVIEW_LIST_BLOBS)),
            results: ImmutableListBlobsResults { id: 0 },
        }
    }

    /// The same call, made from a view context.
    pub fn new_from_view(_ctx: &ScViewContext) -> (f: ListBlobsCall)
        ensures
            f.func.hcontract.0 == HSC_NAME,
            f.func.hfunction.0 == HVIEW_LIST_BLOBS,
            f.results.id == 0,
    {
        ListBlobsCall::new(&ScFuncContext {  })
    }
}

} // verus!
