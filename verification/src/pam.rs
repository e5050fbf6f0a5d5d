//! Result codes, the transaction handle and the service-module hooks.

use crate::flags::PamFlags;
use vstd::prelude::*;

verus! {

/// Result of an operation, as a service module or the framework reports it.
///
/// Every member stands for one fixed number that the framework knows; see
/// [`PamError::code`]. A number that the framework documents for no member is
/// read as [`PamError::UNKNOWN_RESULT`].
#[allow(non_camel_case_types)]
#[derive(Clone, Copy, Debug, PartialEq, Eq, Structural)]
pub enum PamError {
    /// Successful function return
    SUCCESS,
    /// dlopen() failure when dynamically loading a service module
    OPEN_ERR,
    /// Symbol not found
    SYMBOL_ERR,
    /// Error in service module
    SERVICE_ERR,
    /// System error
    SYSTEM_ERR,
    /// Memory buffer error
    BUF_ERR,
    /// Permission denied
    PERM_DENIED,
    /// Authentication failure
    AUTH_ERR,
    /// Can not access authentication data due to insufficient credentials
    CRED_INSUFFICIENT,
    /// Underlying authentication service can not retrieve authentication information
    AUTHINFO_UNAVAIL,
    /// User not known to the underlying authentication module
    USER_UNKNOWN,
    /// An authentication service has maintained a retry count which has been reached
    MAXTRIES,
    /// New authentication token required
    NEW_AUTHTOK_REQD,
    /// User account has expired
    ACCT_EXPIRED,
    /// Can not make/remove an entry for the specified session
    SESSION_ERR,
    /// Underlying authentication service can not retrieve user credentials
    CRED_UNAVAIL,
    /// User credentials expired
    CRED_EXPIRED,
    /// Failure setting user credentials
    CRED_ERR,
    /// No module specific data is present
    NO_MODULE_DATA,
    /// Conversation error
    CONV_ERR,
    /// Authentication token manipulation error
    AUTHTOK_ERR,
    /// Authentication information cannot be recovered
    AUTHTOK_RECOVERY_ERR,
    /// Authentication token lock busy
    AUTHTOK_LOCK_BUSY,
    /// Authentication token aging disabled
    AUTHTOK_DISABLE_AGING,
    /// Preliminary check by password service
    TRY_AGAIN,
    /// Ignore underlying account module
    IGNORE,
    /// Critical error, the module stack fails now
    ABORT,
    /// User's authentication token has expired
    AUTHTOK_EXPIRED,
    /// Module is not known
    MODULE_UNKNOWN,
    /// Bad item passed to an item accessor
    BAD_ITEM,
    /// Conversation function is event driven and data is not available yet
    CONV_AGAIN,
    /// Call this function again to complete the authentication stack
    INCOMPLETE,
    /// A number that stands for no documented result
    UNKNOWN_RESULT,
}

/// Result of an operation that yields a `T` or the framework's reason for failing.
pub type PamResult<T> = Result<T, PamError>;

impl PamError {
    /// The number that the framework knows this result by.
    pub open spec fn spec_code(self) -> int {
        match self {
            PamError::SUCCESS => 0,
            PamError::OPEN_ERR => 1,
            PamError::SYMBOL_ERR => 2,
            PamError::SERVICE_ERR => 3,
            PamError::SYSTEM_ERR => 4,
            PamError::BUF_ERR => 5,
            PamError::PERM_DENIED => 6,
            PamError::AUTH_ERR => 7,
            PamError::CRED_INSUFFICIENT => 8,
            PamError::AUTHINFO_UNAVAIL => 9,
            PamError::USER_UNKNOWN => 10,
            PamError::MAXTRIES => 11,
            PamError::NEW_AUTHTOK_REQD => 12,
            PamError::ACCT_EXPIRED => 13,
            PamError::SESSION_ERR => 14,
            PamError::CRED_UNAVAIL => 15,
            PamError::CRED_EXPIRED => 16,
            PamError::CRED_ERR => 17,
            PamError::NO_MODULE_DATA => 18,
            PamError::CONV_ERR => 19,
            PamError::AUTHTOK_ERR => 20,
            PamError::AUTHTOK_RECOVERY_ERR => 21,
            PamError::AUTHTOK_LOCK_BUSY => 22,
            PamError::AUTHTOK_DISABLE_AGING => 23,
            PamError::TRY_AGAIN => 24,
            PamError::IGNORE => 25,
            PamError::ABORT => 26,
            PamError::AUTHTOK_EXPIRED => 27,
            PamError::MODULE_UNKNOWN => 28,
            PamError::BAD_ITEM => 29,
            PamError::CONV_AGAIN => 30,
            PamError::INCOMPLETE => 31,
            PamError::UNKNOWN_RESULT => -1,
        }
    }

    /// The result that a number received from the framework stands for: the
    /// member with that number, and `UNKNOWN_RESULT` where there is none.
    pub open spec fn spec_new(r: int) -> PamError {
        if r == 0 {
            PamError::SUCCESS
        } else if r == 1 {
            PamError::OPEN_ERR
        } else if r == 2 {
            PamError::SYMBOL_ERR
        } else if r == 3 {
            PamError::SERVICE_ERR
        } else if r == 4 {
            PamError::SYSTEM_ERR
        } else if r == 5 {
            PamError::BUF_ERR
        } else if r == 6 {
            PamError::PERM_DENIED
        } else if r == 7 {
            PamError::AUTH_ERR
        } else if r == 8 {
            PamError::CRED_INSUFFICIENT
        } else if r == 9 {
            PamError::AUTHINFO_UNAVAIL
        } else if r == 10 {
            PamError::USER_UNKNOWN
        } else if r == 11 {
            PamError::MAXTRIES
        } else if r == 12 {
            PamError::NEW_AUTHTOK_REQD
        } else if r == 13 {
            PamError::ACCT_EXPIRED
        } else if r == 14 {
            PamError::SESSION_ERR
        } else if r == 15 {
            PamError::CRED_UNAVAIL
        } else if r == 16 {
            PamError::CRED_EXPIRED
        } else if r == 17 {
            PamError::CRED_ERR
        } else if r == 18 {
            PamError::NO_MODULE_DATA
        } else if r == 19 {
            PamError::CONV_ERR
        } else if r == 20 {
            PamError::AUTHTOK_ERR
        } else if r == 21 {
            PamError::AUTHTOK_RECOVERY_ERR
        } else if r == 22 {
            PamError::AUTHTOK_LOCK_BUSY
        } else if r == 23 {
            PamError::AUTHTOK_DISABLE_AGING
        } else if r == 24 {
            PamError::TRY_AGAIN
        } else if r == 25 {
            PamError::IGNORE
        } else if r == 26 {
            PamError::ABORT
        } else if r == 27 {
            PamError::AUTHTOK_EXPIRED
        } else if r == 28 {
            PamError::MODULE_UNKNOWN
        } else if r == 29 {
            PamError::BAD_ITEM
        } else if r == 30 {
            PamError::CONV_AGAIN
        } else if r == 31 {
            PamError::INCOMPLETE
        } else {
            PamError::UNKNOWN_RESULT
        }
    }

    /// Reads a number received from the framework. Never fails: a number
    /// outside the documented table gives `UNKNOWN_RESULT`.
    pub fn new(r: i32) -> (e: PamError)
        ensures
            e == Self::spec_new(r as int),
    {
        match r {
            0 => PamError::SUCCESS,
            1 => PamError::OPEN_ERR,
            2 => PamError::SYMBOL_ERR,
            3 => PamError::SERVICE_ERR,
            4 => PamError::SYSTEM_ERR,
            5 => PamError::BUF_ERR,
            6 => PamError::PERM_DENIED,
            7 => PamError::AUTH_ERR,
            8 => PamError::CRED_INSUFFICIENT,
            9 => PamError::AUTHINFO_UNAVAIL,
            10 => PamError::USER_UNKNOWN,
            11 => PamError::MAXTRIES,
            12 => PamError::NEW_AUTHTOK_REQD,
            13 => PamError::ACCT_EXPIRED,
            14 => PamError::SESSION_ERR,
            15 => PamError::CRED_UNAVAIL,
            16 => PamError::CRED_EXPIRED,
            17 => PamError::CRED_ERR,
            18 => PamError::NO_MODULE_DATA,
            19 => PamError::CONV_ERR,
            20 => PamError::AUTHTOK_ERR,
            21 => PamError::AUTHTOK_RECOVERY_ERR,
            22 => PamError::AUTHTOK_LOCK_BUSY,
            23 => PamError::AUTHTOK_DISABLE_AGING,
            24 => PamError::TRY_AGAIN,
            25 => PamError::IGNORE,
            26 => PamError::ABORT,
            27 => PamError::AUTHTOK_EXPIRED,
            28 => PamError::MODULE_UNKNOWN,
            29 => PamError::BAD_ITEM,
            30 => PamError::CONV_AGAIN,
            31 => PamError::INCOMPLETE,
            _ => PamError::UNKNOWN_RESULT,
        }
    }

    /// The number handed to the framework for this result.
    pub fn code(self) -> (r: i32)
        ensures
            r == self.spec_code(),
    {
        match self {
            PamError::SUCCESS => 0,
            PamError::OPEN_ERR => 1,
            PamError::SYMBOL_ERR => 2,
            PamError::SERVICE_ERR => 3,
            PamError::SYSTEM_ERR => 4,
            PamError::BUF_ERR => 5,
            PamError::PERM_DENIED => 6,
            PamError::AUTH_ERR => 7,
            PamError::CRED_INSUFFICIENT => 8,
            PamError::AUTHINFO_UNAVAIL => 9,
            PamError::USER_UNKNOWN => 10,
            PamError::MAXTRIES => 11,
            PamError::NEW_AUTHTOK_REQD => 12,
            PamError::ACCT_EXPIRED => 13,
            PamError::SESSION_ERR => 14,
            PamError::CRED_UNAVAIL => 15,
            PamError::CRED_EXPIRED => 16,
            PamError::CRED_ERR => 17,
            PamError::NO_MODULE_DATA => 18,
            PamError::CONV_ERR => 19,
            PamError::AUTHTOK_ERR => 20,
            PamError::AUTHTOK_RECOVERY_ERR => 21,
            PamError::AUTHTOK_LOCK_BUSY => 22,
            PamError::AUTHTOK_DISABLE_AGING => 23,
            PamError::TRY_AGAIN => 24,
            PamError::IGNORE => 25,
            PamError::ABORT => 26,
            PamError::AUTHTOK_EXPIRED => 27,
            PamError::MODULE_UNKNOWN => 28,
            PamError::BAD_ITEM => 29,
            PamError::CONV_AGAIN => 30,
            PamError::INCOMPLETE => 31,
            PamError::UNKNOWN_RESULT => -1,
        }
    }

    /// What an operation that ended with this result hands to its caller:
    /// the payload on `SUCCESS`, this result as the error otherwise.
    pub open spec fn spec_to_result<T>(self, ok: T) -> PamResult<T> {
        if self == PamError::SUCCESS {
            Ok(ok)
        } else {
            Err(self)
        }
    }

    /// Turns a result and the payload that goes with success into a `PamResult`.
    pub fn to_result<T>(self, ok: T) -> (r: PamResult<T>)
        ensures
            r == self.spec_to_result(ok),
    {
        if self == PamError::SUCCESS {
            Ok(ok)
        } else {
            Err(self)
        }
    }

    /// No two results share a number.
    pub proof fn lemma_code_injective()
        ensures
            forall|a: PamError, b: PamError|
                #[trigger] a.spec_code() == #[trigger] b.spec_code() ==> a == b,
    {
    }

    /// Reading back the number of a result gives that result again, and the
    /// way from there to a `PamResult` keeps the payload for the number 0
    /// and gives the result itself as the error for every other number.
    pub proof fn lemma_new_of_code<T>(e: PamError, ok: T)
        ensures
            Self::spec_new(e.spec_code()) == e,
            e.spec_code() == 0 ==> Self::spec_new(e.spec_code()).spec_to_result(ok) == Ok::<
                T,
                PamError,
            >(ok),
            e.spec_code() != 0 ==> Self::spec_new(e.spec_code()).spec_to_result(ok) == Err::<
                T,
                PamError,
            >(e),
    {
    }

    /// A number is read as the result that has this number, and as
    /// `UNKNOWN_RESULT` exactly when no result has it.
    pub proof fn lemma_new_is_nearest(r: int)
        ensures
            Self::spec_new(r).spec_code() == r || Self::spec_new(r) == PamError::UNKNOWN_RESULT,
            Self::spec_new(r) == PamError::UNKNOWN_RESULT <==> !(0 <= r <= 31),
            (exists|e: PamError| e.spec_code() == r) <==> -1 <= r <= 31,
    {
        if -1 <= r <= 31 {
            assert(Self::spec_new(r).spec_code() == r);
        }
    }
}

/// The framework's handle to one transaction.
///
/// It is made when the framework enters the module and is worth nothing once
/// the hook has returned. It stays on the thread it was made on.
#[derive(Debug)]
pub struct Pam {
    handle: usize,
    confined: core::marker::PhantomData<std::rc::Rc<()>>,
}

impl Pam {
    /// The address that the framework knows the transaction by.
    pub closed spec fn spec_handle(&self) -> usize {
        self.handle
    }

    /// Wraps the address that the framework passed on entry.
    pub fn from_raw(handle: usize) -> (pamh: Pam)
        ensures
            pamh.spec_handle() == handle,
    {
        Pam { handle, confined: core::marker::PhantomData }
    }

    /// The address to hand back to the framework with a request.
    pub fn as_raw(&self) -> (handle: usize)
        ensures
            handle == self.spec_handle(),
    {
        self.handle
    }
}

/// The six hooks of a service module, one for each phase of a transaction.
///
/// A module implements the hooks of the phases it serves. A hook that it
/// leaves alone answers `SERVICE_ERR`.
pub trait PamServiceModule {
    /// Starts a session.
    fn open_session(pamh: Pam, flags: PamFlags, args: Vec<String>) -> (r: PamError)
        default_ensures
            r == PamError::SERVICE_ERR,
    {
        PamError::SERVICE_ERR
    }

    /// Ends a session.
    fn close_session(pamh: Pam, flags: PamFlags, args: Vec<String>) -> (r: PamError)
        default_ensures
            r == PamError::SERVICE_ERR,
    {
        PamError::SERVICE_ERR
    }

    /// Verifies the identity of the user.
    fn authenticate(pamh: Pam, flags: PamFlags, args: Vec<String>) -> (r: PamError)
        default_ensures
            r == PamError::SERVICE_ERR,
    {
        PamError::SERVICE_ERR
    }

    /// Sets, refreshes or deletes the credentials of the user.
    fn setcred(pamh: Pam, flags: PamFlags, args: Vec<String>) -> (r: PamError)
        default_ensures
            r == PamError::SERVICE_ERR,
    {
        PamError::SERVICE_ERR
    }

    /// Decides whether the account may be used now.
    fn acct_mgmt(pamh: Pam, flags: PamFlags, args: Vec<String>) -> (r: PamError)
        default_ensures
            r == PamError::SERVICE_ERR,
    {
        PamError::SERVICE_ERR
    }

    /// Changes the authentication token of the user.
    fn chauthtok(pamh: Pam, flags: PamFlags, args: Vec<String>) -> (r: PamError)
        default_ensures
            r == PamError::SERVICE_ERR,
    {
        PamError::SERVICE_ERR
    }
}

} // verus!
