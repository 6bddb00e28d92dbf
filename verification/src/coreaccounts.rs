//! Constant table of the core account ledger contract: the names of its entry
//! points and their 32-bit identifiers, each identifier the hash of the name
//! beside it.

use vstd::prelude::*;

verus! {

pub const SC_NAME: &'static str = "accounts";

pub const SC_DESCRIPTION: &'static str = "Core chain account ledger contract";

pub const HSC_NAME: u32 = 0x3c4b5e02;

pub const PARAM_AGENT_ID: &'static str = "a";

pub const FUNC_DEPOSIT: &'static str = "deposit";

pub const FUNC_WITHDRAW: &'static str = "withdraw";

pub const VIEW_ACCOUNTS: &'static str = "accounts";

pub const VIEW_BALANCE: &'static str = "balance";

pub const VIEW_TOTAL_ASSETS: &'static str = "totalAssets";

pub const HFUNC_DEPOSIT: u32 = 0xbdc9102d;

pub const HFUNC_WITHDRAW: u32 = 0x9dcc0f41;

pub const HVIEW_ACCOUNTS: u32 = 0x3c4b5e02;

pub const HVIEW_BALANCE: u32 = 0x84168cb4;

pub const HVIEW_TOTAL_ASSETS: u32 = 0xfab0f8d2;

} // verus!
