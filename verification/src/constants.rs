//! Result codes and flags exchanged with the host authentication framework.
//!
//! The numeric values are those the framework publishes; they are fixed by
//! its binary interface and never chosen here.

use vstd::prelude::*;

verus! {

/// Bit flags handed from the framework to a hook, passed through unchanged.
pub type PamFlag = u32;

/// Outcome of a hook or of an accessor operation.
#[allow(non_camel_case_types)]
#[derive(Clone, Copy, Debug, PartialEq, Eq, Structural)]
pub enum PamResultCode {
    /// The step succeeded.
    PAM_SUCCESS,
    PAM_OPEN_ERR,
    PAM_SYMBOL_ERR,
    PAM_SERVICE_ERR,
    PAM_SYSTEM_ERR,
    PAM_BUF_ERR,
    PAM_PERM_DENIED,
    PAM_AUTH_ERR,
    PAM_CRED_INSUFFICIENT,
    PAM_AUTHINFO_UNAVAIL,
    PAM_USER_UNKNOWN,
    PAM_MAXTRIES,
    PAM_NEW_AUTHTOK_REQD,
    PAM_ACCT_EXPIRED,
    PAM_SESSION_ERR,
    PAM_CRED_UNAVAIL,
    PAM_CRED_EXPIRED,
    PAM_CRED_ERR,
    /// No data is stored under the requested key.
    PAM_NO_MODULE_DATA,
    /// The conversation with the user failed.
    PAM_CONV_ERR,
    PAM_AUTHTOK_ERR,
    PAM_AUTHTOK_RECOVERY_ERR,
    PAM_AUTHTOK_LOCK_BUSY,
    PAM_AUTHTOK_DISABLE_AGING,
    /// The preliminary check asks for a later retry.
    PAM_TRY_AGAIN,
    /// The framework should skip this module for the step.
    PAM_IGNORE,
    PAM_ABORT,
    PAM_AUTHTOK_EXPIRED,
    PAM_MODULE_UNKNOWN,
    /// The item type is not one the framework accepts.
    PAM_BAD_ITEM,
    PAM_CONV_AGAIN,
    PAM_INCOMPLETE,
}

impl PamResultCode {
    /// The number the framework knows this outcome by.
    pub open spec fn spec_code(self) -> int {
        match self {
            PamResultCode::PAM_SUCCESS => 0,
            PamResultCode::PAM_OPEN_ERR => 1,
            PamResultCode::PAM_SYMBOL_ERR => 2,
            PamResultCode::PAM_SERVICE_ERR => 3,
            PamResultCode::PAM_SYSTEM_ERR => 4,
            PamResultCode::PAM_BUF_ERR => 5,
            PamResultCode::PAM_PERM_DENIED => 6,
            PamResultCode::PAM_AUTH_ERR => 7,
            PamResultCode::PAM_CRED_INSUFFICIENT => 8,
            PamResultCode::PAM_AUTHINFO_UNAVAIL => 9,
            PamResultCode::PAM_USER_UNKNOWN => 10,
            PamResultCode::PAM_MAXTRIES => 11,
            PamResultCode::PAM_NEW_AUTHTOK_REQD => 12,
            PamResultCode::PAM_ACCT_EXPIRED => 13,
            PamResultCode::PAM_SESSION_ERR => 14,
            PamResultCode::PAM_CRED_UNAVAIL => 15,
            PamResultCode::PAM_CRED_EXPIRED => 16,
            PamResultCode::PAM_CRED_ERR => 17,
            PamResultCode::PAM_NO_MODULE_DATA => 18,
            PamResultCode::PAM_CONV_ERR => 19,
            PamResultCode::PAM_AUTHTOK_ERR => 20,
            PamResultCode::PAM_AUTHTOK_RECOVERY_ERR => 21,
            PamResultCode::PAM_AUTHTOK_LOCK_BUSY => 22,
            PamResultCode::PAM_AUTHTOK_DISABLE_AGING => 23,
            PamResultCode::PAM_TRY_AGAIN => 24,
            PamResultCode::PAM_IGNORE => 25,
            PamResultCode::PAM_ABORT => 26,
            PamResultCode::PAM_AUTHTOK_EXPIRED => 27,
            PamResultCode::PAM_MODULE_UNKNOWN => 28,
            PamResultCode::PAM_BAD_ITEM => 29,
            PamResultCode::PAM_CONV_AGAIN => 30,
            PamResultCode::PAM_INCOMPLETE => 31,
        }
    }

    /// The number the framework knows this outcome by.
    pub fn code(self) -> (r: i32)
        ensures
            r == self.spec_code(),
            0 <= r <= 31,
    {
        match self {
            PamResultCode::PAM_SUCCESS => 0,
            PamResultCode::PAM_OPEN_ERR => 1,
            PamResultCode::PAM_SYMBOL_ERR => 2,
            PamResultCode::PAM_SERVICE_ERR => 3,
            PamResultCode::PAM_SYSTEM_ERR => 4,
            PamResultCode::PAM_BUF_ERR => 5,
            PamResultCode::PAM_PERM_DENIED => 6,
            PamResultCode::PAM_AUTH_ERR => 7,
            PamResultCode::PAM_CRED_INSUFFICIENT => 8,
            PamResultCode::PAM_AUTHINFO_UNAVAIL => 9,
            PamResultCode::PAM_USER_UNKNOWN => 10,
            PamResultCode::PAM_MAXTRIES => 11,
            PamResultCode::PAM_NEW_AUTHTOK_REQD => 12,
            PamResultCode::PAM_ACCT_EXPIRED => 13,
            PamResultCode::PAM_SESSION_ERR => 14,
            PamResultCode::PAM_CRED_UNAVAIL => 15,
            PamResultCode::PAM_CRED_EXPIRED => 16,
            PamResultCode::PAM_CRED_ERR => 17,
            PamResultCode::PAM_NO_MODULE_DATA => 18,
            PamResultCode::PAM_CONV_ERR => 19,
            PamResultCode::PAM_AUTHTOK_ERR => 20,
            PamResultCode::PAM_AUTHTOK_RECOVERY_ERR => 21,
            PamResultCode::PAM_AUTHTOK_LOCK_BUSY => 22,
            PamResultCode::PAM_AUTHTOK_DISABLE_AGING => 23,
            PamResultCode::PAM_TRY_AGAIN => 24,
            PamResultCode::PAM_IGNORE => 25,
            PamResultCode::PAM_ABORT => 26,
            PamResultCode::PAM_AUTHTOK_EXPIRED => 27,
            PamResultCode::PAM_MODULE_UNKNOWN => 28,
            PamResultCode::PAM_BAD_ITEM => 29,
            PamResultCode::PAM_CONV_AGAIN => 30,
            PamResultCode::PAM_INCOMPLETE => 31,
        }
    }

    /// The outcome a framework number stands for, if it stands for one.
    pub fn from_code(code: i32) -> (r: Option<PamResultCode>)
        ensures
            r is Some <==> 0 <= code <= 31,
            r matches Some(c) ==> c.spec_code() == code,
    {
        match code {
            0 => Some(PamResultCode::PAM_SUCCESS),
            1 => Some(PamResultCode::PAM_OPEN_ERR),
            2 => Some(PamResultCode::PAM_SYMBOL_ERR),
            3 => Some(PamResultCode::PAM_SERVICE_ERR),
            4 => Some(PamResultCode::PAM_SYSTEM_ERR),
            5 => Some(PamResultCode::PAM_BUF_ERR),
            6 => Some(PamResultCode::PAM_PERM_DENIED),
            7 => Some(PamResultCode::PAM_AUTH_ERR),
            8 => Some(PamResultCode::PAM_CRED_INSUFFICIENT),
            9 => Some(PamResultCode::PAM_AUTHINFO_UNAVAIL),
            10 => Some(PamResultCode::PAM_USER_UNKNOWN),
            11 => Some(PamResultCode::PAM_MAXTRIES),
            12 => Some(PamResultCode::PAM_NEW_AUTHTOK_REQD),
            13 => Some(PamResultCode::PAM_ACCT_EXPIRED),
            14 => Some(PamResultCode::PAM_SESSION_ERR),
            15 => Some(PamResultCode::PAM_CRED_UNAVAIL),
            16 => Some(PamResultCode::PAM_CRED_EXPIRED),
            17 => Some(PamResultCode::PAM_CRED_ERR),
            18 => Some(PamResultCode::PAM_NO_MODULE_DATA),
            19 => Some(PamResultCode::PAM_CONV_ERR),
            20 => Some(PamResultCode::PAM_AUTHTOK_ERR),
            21 => Some(PamResultCode::PAM_AUTHTOK_RECOVERY_ERR),
            22 => Some(PamResultCode::PAM_AUTHTOK_LOCK_BUSY),
            23 => Some(PamResultCode::PAM_AUTHTOK_DISABLE_AGING),
            24 => Some(PamResultCode::PAM_TRY_AGAIN),
            25 => Some(PamResultCode::PAM_IGNORE),
            26 => Some(PamResultCode::PAM_ABORT),
            27 => Some(PamResultCode::PAM_AUTHTOK_EXPIRED),
            28 => Some(PamResultCode::PAM_MODULE_UNKNOWN),
            29 => Some(PamResultCode::PAM_BAD_ITEM),
            30 => Some(PamResultCode::PAM_CONV_AGAIN),
            31 => Some(PamResultCode::PAM_INCOMPLETE),
            _ => None,
        }
    }
}

/// Distinct outcomes have distinct numbers, all of them from 0 to 31.
pub proof fn lemma_code_is_injective(a: PamResultCode, b: PamResultCode)
    ensures
        a.spec_code() == b.spec_code() ==> a == b,
        0 <= a.spec_code() <= 31,
{
}

} // verus!
