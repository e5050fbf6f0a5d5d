//! The small vocabularies shared with the framework: item slots, message
//! styles and log levels, each with the number the framework knows it by.

use vstd::prelude::*;

verus! {

/// How a message of a conversation is to be presented.
#[allow(non_camel_case_types)]
#[derive(Clone, Copy, Debug, PartialEq, Eq, Structural)]
pub enum PamMsgStyle {
    /// Ask for input without echo
    PROMPT_ECHO_OFF,
    /// Ask for input with echo
    PROMPT_ECHO_ON,
    /// Display an error message
    ERROR_MSG,
    /// Display arbitrary text
    TEXT_INFO,
    /// The largest number of messages in one exchange
    PAM_MAX_NUM_MSG,
    /// Yes/no/maybe conditionals
    PAM_RADIO_TYPE,
    /// Binary prompt
    PAM_BINARY_PROMPT,
}

impl PamMsgStyle {
    /// The number that the framework knows this style by.
    pub open spec fn spec_code(self) -> int {
        match self {
            PamMsgStyle::PROMPT_ECHO_OFF => 1,
            PamMsgStyle::PROMPT_ECHO_ON => 2,
            PamMsgStyle::ERROR_MSG => 3,
            PamMsgStyle::TEXT_INFO => 4,
            PamMsgStyle::PAM_MAX_NUM_MSG => 32,
            PamMsgStyle::PAM_RADIO_TYPE => 5,
            PamMsgStyle::PAM_BINARY_PROMPT => 7,
        }
    }

    /// The number handed to the framework for this style.
    pub fn code(self) -> (c: i32)
        ensures
            c == self.spec_code(),
    {
        match self {
            PamMsgStyle::PROMPT_ECHO_OFF => 1,
            PamMsgStyle::PROMPT_ECHO_ON => 2,
            PamMsgStyle::ERROR_MSG => 3,
            PamMsgStyle::TEXT_INFO => 4,
            PamMsgStyle::PAM_MAX_NUM_MSG => 32,
            PamMsgStyle::PAM_RADIO_TYPE => 5,
            PamMsgStyle::PAM_BINARY_PROMPT => 7,
        }
    }
}

/// Severity of a log line, as the system log counts it.
#[derive(Clone, Copy, Debug, PartialEq, Eq, Structural)]
pub enum LogLvl {
    /// System is unusable
    EMERG,
    /// Action must be taken immediately
    ALERT,
    /// Critical conditions
    CRIT,
    /// Error conditions
    ERR,
    /// Warning conditions
    WARNING,
    /// Normal but significant condition
    NOTICE,
    /// Informational
    INFO,
    /// Debug-level messages
    DEBUG,
}

impl LogLvl {
    /// The number that the system log knows this level by.
    pub open spec fn spec_code(self) -> int {
        match self {
            LogLvl::EMERG => 0,
            LogLvl::ALERT => 1,
            LogLvl::CRIT => 2,
            LogLvl::ERR => 3,
            LogLvl::WARNING => 4,
            LogLvl::NOTICE => 5,
            LogLvl::INFO => 6,
            LogLvl::DEBUG => 7,
        }
    }

    /// The number handed to the system log for this level.
    pub fn code(self) -> (c: i32)
        ensures
            c == self.spec_code(),
    {
        match self {
            LogLvl::EMERG => 0,
            LogLvl::ALERT => 1,
            LogLvl::CRIT => 2,
            LogLvl::ERR => 3,
            LogLvl::WARNING => 4,
            LogLvl::NOTICE => 5,
            LogLvl::INFO => 6,
            LogLvl::DEBUG => 7,
        }
    }
}

/// A slot of per-transaction data that the framework keeps.
#[allow(non_camel_case_types)]
#[derive(Clone, Copy, Debug, PartialEq, Eq, Structural)]
pub enum PamItemType {
    /// The service name
    SERVICE,
    /// The user name
    USER,
    /// The tty name
    TTY,
    /// The remote host name
    RHOST,
    /// The conversation structure
    CONV,
    /// The authentication token (password)
    AUTHTOK,
    /// The old authentication token
    OLDAUTHTOK,
    /// The remote user name
    RUSER,
    /// The prompt for getting a username
    USER_PROMPT,
    /// Application supplied function to override failure delays
    FAIL_DELAY,
    /// X display name
    XDISPLAY,
    /// X server authentication data
    XAUTHDATA,
    /// The type of the authentication token
    AUTHTOK_TYPE,
}

impl PamItemType {
    /// The number that the framework knows this slot by.
    pub open spec fn spec_code(self) -> int {
        match self {
            PamItemType::SERVICE => 1,
            PamItemType::USER => 2,
            PamItemType::TTY => 3,
            PamItemType::RHOST => 4,
            PamItemType::CONV => 5,
            PamItemType::AUTHTOK => 6,
            PamItemType::OLDAUTHTOK => 7,
            PamItemType::RUSER => 8,
            PamItemType::USER_PROMPT => 9,
            PamItemType::FAIL_DELAY => 10,
            PamItemType::XDISPLAY => 11,
            PamItemType::XAUTHDATA => 12,
            PamItemType::AUTHTOK_TYPE => 13,
        }
    }

    /// The number handed to the framework for this slot.
    pub fn code(self) -> (c: i32)
        ensures
            c == self.spec_code(),
    {
        match self {
            PamItemType::SERVICE => 1,
            PamItemType::USER => 2,
            PamItemType::TTY => 3,
            PamItemType::RHOST => 4,
            PamItemType::CONV => 5,
            PamItemType::AUTHTOK => 6,
            PamItemType::OLDAUTHTOK => 7,
            PamItemType::RUSER => 8,
            PamItemType::USER_PROMPT => 9,
            PamItemType::FAIL_DELAY => 10,
            PamItemType::XDISPLAY => 11,
            PamItemType::XAUTHDATA => 12,
            PamItemType::AUTHTOK_TYPE => 13,
        }
    }

    /// Whether the slot holds text. The conversation structure, the
    /// fail-delay function and the X authentication data are structures of
    /// their own and cannot be read as text.
    pub open spec fn spec_is_text(self) -> bool {
        self != PamItemType::CONV && self != PamItemType::FAIL_DELAY && self
            != PamItemType::XAUTHDATA
    }

    /// Whether the slot holds text.
    pub fn is_text(self) -> (b: bool)
        ensures
            b == self.spec_is_text(),
    {
        match self {
            PamItemType::CONV | PamItemType::FAIL_DELAY | PamItemType::XAUTHDATA => false,
            _ => true,
        }
    }
}

} // verus!
