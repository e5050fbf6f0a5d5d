//! The way from the framework's call into a module's hook and back.
//!
//! The framework enters a module with a handle, a flag word and an array of
//! raw argument strings, and expects a number in return. The functions here
//! turn the arguments into text, pick the hook of the phase and turn its
//! answer into that number.

use crate::flags::PamFlags;
use crate::pam::{Pam, PamError, PamResult, PamServiceModule};
use crate::text::text_from_bytes;
use vstd::prelude::*;
use vstd::utf8::{decode_utf8, valid_utf8};

verus! {

/// A phase of a transaction. The framework has one entry point for each.
#[derive(Clone, Copy, Debug, PartialEq, Eq, Structural)]
pub enum Phase {
    /// A session starts
    OpenSession,
    /// A session ends
    CloseSession,
    /// The user is authenticated
    Authenticate,
    /// The user's credentials are set
    SetCred,
    /// The account is checked
    AcctMgmt,
    /// The authentication token is changed
    ChAuthTok,
}

/// A module that serves no phase: it leaves every hook alone.
pub struct Unserved;

impl PamServiceModule for Unserved {

}

/// Whether every argument is valid UTF-8.
pub open spec fn args_valid(argv: Seq<Vec<u8>>) -> bool {
    forall|i: int| 0 <= i < argv.len() ==> valid_utf8(#[trigger] argv[i]@)
}

/// Whether `args` is the text of `argv`, argument by argument, in order.
pub open spec fn args_match(args: Seq<String>, argv: Seq<Vec<u8>>) -> bool {
    &&& args.len() == argv.len()
    &&& forall|i: int| 0 <= i < argv.len() ==> (#[trigger] args[i])@ == decode_utf8(argv[i]@)
}

/// Whether `r` is an answer that the hook of `phase` may give to these inputs.
pub open spec fn hook_returns<M: PamServiceModule>(
    phase: Phase,
    pamh: Pam,
    flags: PamFlags,
    args: Vec<String>,
    r: PamError,
) -> bool {
    match phase {
        Phase::OpenSession => call_ensures(M::open_session, (pamh, flags, args), r),
        Phase::CloseSession => call_ensures(M::close_session, (pamh, flags, args), r),
        Phase::Authenticate => call_ensures(M::authenticate, (pamh, flags, args), r),
        Phase::SetCred => call_ensures(M::setcred, (pamh, flags, args), r),
        Phase::AcctMgmt => call_ensures(M::acct_mgmt, (pamh, flags, args), r),
        Phase::ChAuthTok => call_ensures(M::chauthtok, (pamh, flags, args), r),
    }
}

/// The number of arguments to read, from the count that the framework gave.
/// A negative count is refused.
pub fn arg_count(argc: i32) -> (r: PamResult<usize>)
    ensures
        argc < 0 <==> r == Err::<usize, PamError>(PamError::SERVICE_ERR),
        argc >= 0 <==> r == Ok::<usize, PamError>(argc as usize),
{
    if argc < 0 {
        Err(PamError::SERVICE_ERR)
    } else {
        Ok(argc as usize)
    }
}

/// Turns the raw arguments into text, keeping their order. One argument that
/// is not valid UTF-8 refuses them all.
pub fn marshal_args(argv: &Vec<Vec<u8>>) -> (r: PamResult<Vec<String>>)
    ensures
        args_valid(argv@) <==> r.is_ok(),
        !args_valid(argv@) <==> r == Err::<Vec<String>, PamError>(PamError::SERVICE_ERR),
        r matches Ok(args) ==> args_match(args@, argv@),
{
    let mut args: Vec<String> = Vec::new();
    let n: usize = argv.len();
    let mut i: usize = 0;
    while i < n
        invariant
            n == argv@.len(),
            i <= n,
            args@.len() == i,
            forall|j: int| 0 <= j < i ==> valid_utf8(#[trigger] argv@[j]@),
            forall|j: int| 0 <= j < i ==> (#[trigger] args@[j])@ == decode_utf8(argv@[j]@),
        decreases n - i,
    {
        match text_from_bytes(argv[i].as_slice()) {
            Ok(s) => args.push(s),
            Err(_) => {
                assert(!valid_utf8(argv@[i as int]@));
                return Err(PamError::SERVICE_ERR);
            },
        }
        i = i + 1;
    }
    Ok(args)
}

/// Calls the hook of `phase`.
pub fn dispatch<M: PamServiceModule>(
    phase: Phase,
    pamh: Pam,
    flags: PamFlags,
    args: Vec<String>,
) -> (r: PamError)
    ensures
        hook_returns::<M>(phase, pamh, flags, args, r),
{
    match phase {
        Phase::OpenSession => M::open_session(pamh, flags, args),
        Phase::CloseSession => M::close_session(pamh, flags, args),
        Phase::Authenticate => M::authenticate(pamh, flags, args),
        Phase::SetCred => M::setcred(pamh, flags, args),
        Phase::AcctMgmt => M::acct_mgmt(pamh, flags, args),
        Phase::ChAuthTok => M::chauthtok(pamh, flags, args),
    }
}

/// One entry of the framework into the module `M`, from the raw arguments to
/// the number that goes back.
///
/// The arguments are turned into text; if one of them is not valid UTF-8 the
/// answer is `SERVICE_ERR` and no hook runs. Otherwise the hook of `phase`
/// gets the handle, the flag word as it came and the arguments in order, and
/// the number of its answer goes back unchanged.
pub fn pam_sm_entry<M: PamServiceModule>(
    phase: Phase,
    pamh: Pam,
    flags: i32,
    argv: &Vec<Vec<u8>>,
) -> (r: i32)
    ensures
        !args_valid(argv@) ==> r == PamError::SERVICE_ERR.spec_code(),
        args_valid(argv@) ==> exists|args: Vec<String>, e: PamError|
            args_match(args@, argv@) && #[trigger] hook_returns::<M>(
                phase,
                pamh,
                PamFlags::spec_from_bits_unchecked(flags),
                args,
                e,
            ) && r == e.spec_code(),
{
    match marshal_args(argv) {
        Err(e) => e.code(),
        Ok(args) => {
            let ghost given = args;
            let e = dispatch::<M>(phase, pamh, PamFlags::from_bits_unchecked(flags), args);
            assert(args_match(given@, argv@) && hook_returns::<M>(
                phase,
                pamh,
                PamFlags::spec_from_bits_unchecked(flags),
                given,
                e,
            ));
            e.code()
        },
    }
}

/// A module that leaves every hook alone answers `SERVICE_ERR` in each of
/// the six phases, whatever it is entered with.
pub proof fn lemma_unserved_phase(
    phase: Phase,
    pamh: Pam,
    flags: PamFlags,
    args: Vec<String>,
    r: PamError,
)
    requires
        hook_returns::<Unserved>(phase, pamh, flags, args, r),
    ensures
        r == PamError::SERVICE_ERR,
{
}

} // verus!
