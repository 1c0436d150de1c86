//! The six operations a module may implement, the entry points the framework
//! calls them through, and the helpers that keep a hook's body linear.

use vstd::prelude::*;
use crate::constants::{PamFlag, PamResultCode};
use crate::cstr::{c_text, from_wire};
use crate::module::PamResult;

verus! {

/// The names of the six operations.
#[derive(Clone, Copy, Debug, PartialEq, Eq, Structural)]
pub enum Hook {
    AcctMgmt,
    SmAuthenticate,
    SmChauthtok,
    SmCloseSession,
    SmOpenSession,
    SmSetcred,
}

/// The operations the framework may ask of a module, over the handle `H` of
/// the transaction. Each one that a module leaves as it is answers "ignore"
/// and touches nothing.
pub trait PamHooks<H> {
    /// Whether the module implements `hook` itself. An operation it does not
    /// claim here is held to the "ignore" answer.
    spec fn handles(hook: Hook) -> bool;

    /// Decides whether the user may gain access at this time.
    fn acct_mgmt(pamh: &mut H, args: Vec<Vec<u8>>, flags: PamFlag) -> (r: PamResultCode)
        ensures
            !Self::handles(Hook::AcctMgmt) ==> r == PamResultCode::PAM_IGNORE,
            !Self::handles(Hook::AcctMgmt) ==> *final(pamh) == *old(pamh),
    {
        PamResultCode::PAM_IGNORE
    }

    /// Authenticates the user.
    fn sm_authenticate(pamh: &mut H, args: Vec<Vec<u8>>, flags: PamFlag) -> (r: PamResultCode)
        ensures
            !Self::handles(Hook::SmAuthenticate) ==> r == PamResultCode::PAM_IGNORE,
            !Self::handles(Hook::SmAuthenticate) ==> *final(pamh) == *old(pamh),
    {
        PamResultCode::PAM_IGNORE
    }

    /// Sets the user's authentication token anew.
    fn sm_chauthtok(pamh: &mut H, args: Vec<Vec<u8>>, flags: PamFlag) -> (r: PamResultCode)
        ensures
            !Self::handles(Hook::SmChauthtok) ==> r == PamResultCode::PAM_IGNORE,
            !Self::handles(Hook::SmChauthtok) ==> *final(pamh) == *old(pamh),
    {
        PamResultCode::PAM_IGNORE
    }

    /// Ends a session.
    fn sm_close_session(pamh: &mut H, args: Vec<Vec<u8>>, flags: PamFlag) -> (r: PamResultCode)
        ensures
            !Self::handles(Hook::SmCloseSession) ==> r == PamResultCode::PAM_IGNORE,
            !Self::handles(Hook::SmCloseSession) ==> *final(pamh) == *old(pamh),
    {
        PamResultCode::PAM_IGNORE
    }

    /// Begins a session.
    fn sm_open_session(pamh: &mut H, args: Vec<Vec<u8>>, flags: PamFlag) -> (r: PamResultCode)
        ensures
            !Self::handles(Hook::SmOpenSession) ==> r == PamResultCode::PAM_IGNORE,
            !Self::handles(Hook::SmOpenSession) ==> *final(pamh) == *old(pamh),
    {
        PamResultCode::PAM_IGNORE
    }

    /// Changes the user's credentials.
    fn sm_setcred(pamh: &mut H, args: Vec<Vec<u8>>, flags: PamFlag) -> (r: PamResultCode)
        ensures
            !Self::handles(Hook::SmSetcred) ==> r == PamResultCode::PAM_IGNORE,
            !Self::handles(Hook::SmSetcred) ==> *final(pamh) == *old(pamh),
    {
        PamResultCode::PAM_IGNORE
    }
}

/// A module that implements no operation of its own.
pub struct NoHooks;

impl<H> PamHooks<H> for NoHooks {
    open spec fn handles(hook: Hook) -> bool {
        false
    }
}

/// What `extract_argv` owes: one text per counted argument, in order, each
/// the text of its wire buffer.
pub open spec fn is_argv(argc: int, argv: Seq<Vec<u8>>, args: Seq<Vec<u8>>) -> bool {
    &&& args.len() == (if argc < 0 {
        0
    } else {
        argc
    })
    &&& forall|i: int| 0 <= i < args.len() ==> (#[trigger] args[i])@ == c_text(argv[i]@)
}

/// Turns the argument array of an entry point into the sequence of texts a
/// hook takes. A count below zero gives no argument.
pub fn extract_argv(argc: i32, argv: &Vec<Vec<u8>>) -> (args: Vec<Vec<u8>>)
    requires
        argc <= argv@.len(),
    ensures
        is_argv(argc as int, argv@, args@),
{
    let mut args: Vec<Vec<u8>> = Vec::new();
    let mut o: i32 = 0;
    while o < argc
        invariant
            0 <= o,
            o <= argc || o == 0,
            argc <= argv@.len(),
            args@.len() == o,
            forall|i: int| 0 <= i < o ==> (#[trigger] args@[i])@ == c_text(argv@[i]@),
        decreases argc - o,
    {
        args.push(from_wire(&argv[o as usize]));
        o += 1;
    }
    args
}

/// Entry point for account management.
pub fn pam_sm_acct_mgmt<H, M: PamHooks<H>>(
    pamh: &mut H,
    flags: PamFlag,
    argc: i32,
    argv: &Vec<Vec<u8>>,
) -> (r: PamResultCode)
    requires
        argc <= argv@.len(),
    ensures
        !M::handles(Hook::AcctMgmt) ==> r == PamResultCode::PAM_IGNORE,
        !M::handles(Hook::AcctMgmt) ==> *final(pamh) == *old(pamh),
{
    let args = extract_argv(argc, argv);
    M::acct_mgmt(pamh, args, flags)
}

/// Entry point for authentication.
pub fn pam_sm_authenticate<H, M: PamHooks<H>>(
    pamh: &mut H,
    flags: PamFlag,
    argc: i32,
    argv: &Vec<Vec<u8>>,
) -> (r: PamResultCode)
    requires
        argc <= argv@.len(),
    ensures
        !M::handles(Hook::SmAuthenticate) ==> r == PamResultCode::PAM_IGNORE,
        !M::handles(Hook::SmAuthenticate) ==> *final(pamh) == *old(pamh),
{
    let args = extract_argv(argc, argv);
    M::sm_authenticate(pamh, args, flags)
}

/// Entry point for changing the authentication token.
pub fn pam_sm_chauthtok<H, M: PamHooks<H>>(
    pamh: &mut H,
    flags: PamFlag,
    argc: i32,
    argv: &Vec<Vec<u8>>,
) -> (r: PamResultCode)
    requires
        argc <= argv@.len(),
    ensures
        !M::handles(Hook::SmChauthtok) ==> r == PamResultCode::PAM_IGNORE,
        !M::handles(Hook::SmChauthtok) ==> *final(pamh) == *old(pamh),
{
    let args = extract_argv(argc, argv);
    M::sm_chauthtok(pamh, args, flags)
}

/// Entry point for ending a session.
pub fn pam_sm_close_session<H, M: PamHooks<H>>(
    pamh: &mut H,
    flags: PamFlag,
    argc: i32,
    argv: &Vec<Vec<u8>>,
) -> (r: PamResultCode)
    requires
        argc <= argv@.len(),
    ensures
        !M::handles(Hook::SmCloseSession) ==> r == PamResultCode::PAM_IGNORE,
        !M::handles(Hook::SmCloseSession) ==> *final(pamh) == *old(pamh),
{
    let args = extract_argv(argc, argv);
    M::sm_close_session(pamh, args, flags)
}

/// Entry point for beginning a session.
pub fn pam_sm_open_session<H, M: PamHooks<H>>(
    pamh: &mut H,
    flags: PamFlag,
    argc: i32,
    argv: &Vec<Vec<u8>>,
) -> (r: PamResultCode)
    requires
        argc <= argv@.len(),
    ensures
        !M::handles(Hook::SmOpenSession) ==> r == PamResultCode::PAM_IGNORE,
        !M::handles(Hook::SmOpenSession) ==> *final(pamh) == *old(pamh),
{
    let args = extract_argv(argc, argv);
    M::sm_open_session(pamh, args, flags)
}

/// Entry point for changing credentials.
pub fn pam_sm_setcred<H, M: PamHooks<H>>(
    pamh: &mut H,
    flags: PamFlag,
    argc: i32,
    argv: &Vec<Vec<u8>>,
) -> (r: PamResultCode)
    requires
        argc <= argv@.len(),
    ensures
        !M::handles(Hook::SmSetcred) ==> r == PamResultCode::PAM_IGNORE,
        !M::handles(Hook::SmSetcred) ==> *final(pamh) == *old(pamh),
{
    let args = extract_argv(argc, argv);
    M::sm_setcred(pamh, args, flags)
}

/// The code a hook ends with: the one it computed, or the one that cut it
/// short.
pub fn outcome(r: PamResult<PamResultCode>) -> (code: PamResultCode)
    ensures
        code == (match r {
            Ok(c) => c,
            Err(e) => e,
        }),
{
    match r {
        Ok(c) => c,
        Err(e) => e,
    }
}

/// Keeps a success and replaces any failure by `code`.
pub fn or_code<T, E>(r: Result<T, E>, code: PamResultCode) -> (out: PamResult<T>)
    ensures
        out == (match r {
            Ok(t) => Ok::<T, PamResultCode>(t),
            Err(_) => Err::<T, PamResultCode>(code),
        }),
{
    match r {
        Ok(t) => Ok(t),
        Err(_) => Err(code),
    }
}

} // verus!
