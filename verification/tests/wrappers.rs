use wasmlib::{
    coreblob, hash, GetBlobFieldCall, GetBlobInfoCall, ListBlobsCall, ScFuncContext,
    ScViewContext, StoreBlobCall,
};

#[test]
fn store_blob_call_binds_identifiers() {
    let f = StoreBlobCall::new(&ScFuncContext {});
    assert_eq!(f.func.hcontract.0, 0xfd91bc63);
    assert_eq!(f.func.hfunction.0, 0xddd4c281);
    assert_eq!(f.func.hcontract.0, hash("blob"));
    assert_eq!(f.func.hfunction.0, hash("storeBlob"));
    assert_eq!(f.params.id, 0);
    assert_eq!(f.results.id, 0);
}

#[test]
fn get_blob_field_call_binds_identifiers() {
    let f = GetBlobFieldCall::new(&ScFuncContext {});
    assert_eq!(f.func.hcontract.0, coreblob::HSC_NAME);
    assert_eq!(f.func.hfunction.0, hash("getBlobField"));
    assert_eq!(f.func.hfunction.0, 0x1f448130);
    let v = GetBlobFieldCall::new_from_view(&ScViewContext {});
    assert_eq!(v.func.hcontract, f.func.hcontract);
    assert_eq!(v.func.hfunction, f.func.hfunction);
    assert_eq!(v.params.id, 0);
    assert_eq!(v.results.id, 0);
}

#[test]
fn get_blob_info_call_binds_identifiers() {
    let f = GetBlobInfoCall::new(&ScFuncContext {});
    assert_eq!(f.func.hcontract.0, coreblob::HSC_NAME);
    assert_eq!(f.func.hfunction.0, hash("getBlobInfo"));
    assert_eq!(f.func.hfunction.0, 0xfde4ab46);
    let v = GetBlobInfoCall::new_from_view(&ScViewContext {});
    assert_eq!(v.func.hcontract, f.func.hcontract);
    assert_eq!(v.func.hfunction, f.func.hfunction);
}

#[test]
fn list_blobs_call_binds_identifiers() {
    let f = ListBlobsCall::new(&ScFuncContext {});
    assert_eq!(f.func.hcontract.0, coreblob::HSC_NAME);
    assert_eq!(f.func.hfunction.0, hash("listBlobs"));
    assert_eq!(f.func.hfunction.0, 0x62ca7990);
    let v = ListBlobsCall::new_from_view(&ScViewContext {});
    assert_eq!(v.func.hcontract, f.func.hcontract);
    assert_eq!(v.func.hfunction, f.func.hfunction);
    assert_eq!(v.results.id, 0);
}
