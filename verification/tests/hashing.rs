use wasmlib::{coreaccounts, coreblob, hash, hname_from_digest};

#[test]
fn hash_is_deterministic() {
    let h1 = hash("accounts");
    let h2 = hash("accounts");
    assert_eq!(h1, h2);
    let h3 = hash("totalAssets");
    let h4 = hash("totalAssets");
    assert_eq!(h3, h4);
}

#[test]
fn hash_matches_reference_table() {
    assert_eq!(hash("accounts"), 0x3c4b5e02);
    assert_eq!(hash("deposit"), 0xbdc9102d);
    assert_eq!(hash("withdraw"), 0x9dcc0f41);
    assert_eq!(hash("balance"), 0x84168cb4);
    assert_eq!(hash("totalAssets"), 0xfab0f8d2);
}

#[test]
fn core_accounts_constants_match_hash() {
    assert_eq!(hash(coreaccounts::SC_NAME), coreaccounts::HSC_NAME);
    assert_eq!(hash(coreaccounts::FUNC_DEPOSIT), coreaccounts::HFUNC_DEPOSIT);
    assert_eq!(hash(coreaccounts::FUNC_WITHDRAW), coreaccounts::HFUNC_WITHDRAW);
    assert_eq!(hash(coreaccounts::VIEW_ACCOUNTS), coreaccounts::HVIEW_ACCOUNTS);
    assert_eq!(hash(coreaccounts::VIEW_BALANCE), coreaccounts::HVIEW_BALANCE);
    assert_eq!(
        hash(coreaccounts::VIEW_TOTAL_ASSETS),
        coreaccounts::HVIEW_TOTAL_ASSETS
    );
}

#[test]
fn core_blob_constants_match_hash() {
    assert_eq!(hash(coreblob::SC_NAME), coreblob::HSC_NAME);
    assert_eq!(hash(coreblob::FUNC_STORE_BLOB), coreblob::HFUNC_STORE_BLOB);
    assert_eq!(
        hash(coreblob::VIEW_GET_BLOB_FIELD),
        coreblob::HVIEW_GET_BLOB_FIELD
    );
    assert_eq!(
        hash(coreblob::VIEW_GET_BLOB_INFO),
        coreblob::HVIEW_GET_BLOB_INFO
    );
    assert_eq!(hash(coreblob::VIEW_LIST_BLOBS), coreblob::HVIEW_LIST_BLOBS);
}

#[test]
fn digest_scan_takes_first_word_little_endian() {
    let mut digest = [0u8; 32];
    digest[0] = 0x01;
    digest[1] = 0x02;
    digest[2] = 0x03;
    digest[3] = 0x04;
    assert_eq!(hname_from_digest(&digest), 0x04030201);
}

#[test]
fn digest_scan_skips_zero_words() {
    let mut digest = [0u8; 32];
    digest[4] = 0x05;
    assert_eq!(hname_from_digest(&digest), 0x05);
    let mut late = [0u8; 32];
    late[31] = 0xff;
    assert_eq!(hname_from_digest(&late), 0xff000000);
}

#[test]
fn digest_scan_of_all_zero_words_is_one() {
    let digest = [0u8; 32];
    assert_eq!(hname_from_digest(&digest), 1);
}
