//! The per-command code spaces and the top-level classifier for
//! standard-reply code tokens, following the IRCv3 registry.
//!
//! Each command with a defined code space gets a closed enumeration, a spec
//! function giving the exact token-to-variant table, and an executable lookup
//! proved against it.  Lookup is case-sensitive exact matching; a miss is
//! absence, not an error.

use vstd::prelude::*;
use crate::text::str_eq;

verus! {

/// Codes for the `BATCH` command (multiline batches).
#[derive(Debug, Clone, Copy, PartialEq, Eq, Structural)]
pub enum MultilineCodes {
    MaxBytes,
    MaxLines,
    InvalidTarget,
    Invalid,
}

/// The token table of the `BATCH` code space.
pub open spec fn multiline_code_of(code: Seq<char>) -> Option<MultilineCodes> {
    if code == "MULTILINE_MAX_BYTES"@ {
        Some(MultilineCodes::MaxBytes)
    } else if code == "MULTILINE_MAX_LINES"@ {
        Some(MultilineCodes::MaxLines)
    } else if code == "MULTILINE_INVALID_TARGET"@ {
        Some(MultilineCodes::InvalidTarget)
    } else if code == "MULTILINE_INVALID"@ {
        Some(MultilineCodes::Invalid)
    } else {
        None
    }
}

impl MultilineCodes {
    /// Looks a token up in the `BATCH` code space.
    pub fn from_code(code: &str) -> (r: Option<Self>)
        ensures
            r == multiline_code_of(code@),
    {
        if str_eq(code, "MULTILINE_MAX_BYTES") {
            Some(Self::MaxBytes)
        } else if str_eq(code, "MULTILINE_MAX_LINES") {
            Some(Self::MaxLines)
        } else if str_eq(code, "MULTILINE_INVALID_TARGET") {
            Some(Self::InvalidTarget)
        } else if str_eq(code, "MULTILINE_INVALID") {
            Some(Self::Invalid)
        } else {
            None
        }
    }
}

/// Codes for the `CHATHISTORY` command.
#[derive(Debug, Clone, Copy, PartialEq, Eq, Structural)]
pub enum ChatHistoryCodes {
    InvalidParams,
    InvalidTarget,
    MessageError,
    NeedMoreParams,
    UnknownCommand,
}

/// The token table of the `CHATHISTORY` code space.
pub open spec fn chat_history_code_of(code: Seq<char>) -> Option<ChatHistoryCodes> {
    if code == "INVALID_PARAMS"@ {
        Some(ChatHistoryCodes::InvalidParams)
    } else if code == "INVALID_TARGET"@ {
        Some(ChatHistoryCodes::InvalidTarget)
    } else if code == "MESSAGE_ERROR"@ {
        Some(ChatHistoryCodes::MessageError)
    } else if code == "NEED_MORE_PARAMS"@ {
        Some(ChatHistoryCodes::NeedMoreParams)
    } else if code == "UNKNOWN_COMMAND"@ {
        Some(ChatHistoryCodes::UnknownCommand)
    } else {
        None
    }
}

impl ChatHistoryCodes {
    /// Looks a token up in the `CHATHISTORY` code space.
    pub fn from_code(code: &str) -> (r: Option<Self>)
        ensures
            r == chat_history_code_of(code@),
    {
        if str_eq(code, "INVALID_PARAMS") {
            Some(Self::InvalidParams)
        } else if str_eq(code, "INVALID_TARGET") {
            Some(Self::InvalidTarget)
        } else if str_eq(code, "MESSAGE_ERROR") {
            Some(Self::MessageError)
        } else if str_eq(code, "NEED_MORE_PARAMS") {
            Some(Self::NeedMoreParams)
        } else if str_eq(code, "UNKNOWN_COMMAND") {
            Some(Self::UnknownCommand)
        } else {
            None
        }
    }
}

/// Codes for the `JOIN` command.
#[derive(Debug, Clone, Copy, PartialEq, Eq, Structural)]
pub enum JoinCodes {
    ChannelRenamed,
}

/// The token table of the `JOIN` code space.
pub open spec fn join_code_of(code: Seq<char>) -> Option<JoinCodes> {
    if code == "CHANNEL_RENAMED"@ {
        Some(JoinCodes::ChannelRenamed)
    } else {
        None
    }
}

impl JoinCodes {
    /// Looks a token up in the `JOIN` code space.
    pub fn from_code(code: &str) -> (r: Option<Self>)
        ensures
            r == join_code_of(code@),
    {
        if str_eq(code, "CHANNEL_RENAMED") {
            Some(Self::ChannelRenamed)
        } else {
            None
        }
    }
}

/// Codes for the `NICK` command.
#[derive(Debug, Clone, Copy, PartialEq, Eq, Structural)]
pub enum NickCodes {
    Reserved,
}

/// The token table of the `NICK` code space.
pub open spec fn nick_code_of(code: Seq<char>) -> Option<NickCodes> {
    if code == "NICKNAME_RESERVED"@ {
        Some(NickCodes::Reserved)
    } else {
        None
    }
}

impl NickCodes {
    /// Looks a token up in the `NICK` code space.
    pub fn from_code(code: &str) -> (r: Option<Self>)
        ensures
            r == nick_code_of(code@),
    {
        if str_eq(code, "NICKNAME_RESERVED") {
            Some(Self::Reserved)
        } else {
            None
        }
    }
}

/// Codes for the `REDACT` command.
#[derive(Debug, Clone, Copy, PartialEq, Eq, Structural)]
pub enum RedactCodes {
    InvalidTarget,
    Forbidden,
    WindowExpired,
    UnknownMsgid,
}

/// The token table of the `REDACT` code space.
pub open spec fn redact_code_of(code: Seq<char>) -> Option<RedactCodes> {
    if code == "INVALID_TARGET"@ {
        Some(RedactCodes::InvalidTarget)
    } else if code == "REACT_FORBIDDEN"@ {
        Some(RedactCodes::Forbidden)
    } else if code == "REACT_WINDOW_EXPIRED"@ {
        Some(RedactCodes::WindowExpired)
    } else if code == "UNKNOWN_MSGID"@ {
        Some(RedactCodes::UnknownMsgid)
    } else {
        None
    }
}

impl RedactCodes {
    /// Looks a token up in the `REDACT` code space.
    pub fn from_code(code: &str) -> (r: Option<Self>)
        ensures
            r == redact_code_of(code@),
    {
        if str_eq(code, "INVALID_TARGET") {
            Some(Self::InvalidTarget)
        } else if str_eq(code, "REACT_FORBIDDEN") {
            Some(Self::Forbidden)
        } else if str_eq(code, "REACT_WINDOW_EXPIRED") {
            Some(Self::WindowExpired)
        } else if str_eq(code, "UNKNOWN_MSGID") {
            Some(Self::UnknownMsgid)
        } else {
            None
        }
    }
}

/// Codes for the `REGISTER` command.
#[derive(Debug, Clone, Copy, PartialEq, Eq, Structural)]
pub enum RegisterCodes {
    AccountExists,
    AccountNameMustBeNick,
    AlreadyAuthenticated,
    BadAccountName,
    CompleteConnectionRequired,
    InvalidEmail,
    NeedNick,
    TemporarilyUnavailable,
    UnacceptableEmail,
    UnacceptablePassword,
    WeakPassword,
}

/// The token table of the `REGISTER` code space.
pub open spec fn register_code_of(code: Seq<char>) -> Option<RegisterCodes> {
    if code == "ACCOUNT_EXISTS"@ {
        Some(RegisterCodes::AccountExists)
    } else if code == "ACCOUNT_NAME_MUST_BE_NICK"@ {
        Some(RegisterCodes::AccountNameMustBeNick)
    } else if code == "ALREADY_AUTHENTICATED"@ {
        Some(RegisterCodes::AlreadyAuthenticated)
    } else if code == "BAD_ACCOUNT_NAME"@ {
        Some(RegisterCodes::BadAccountName)
    } else if code == "COMPLETE_CONNECTION_REQUIRED"@ {
        Some(RegisterCodes::CompleteConnectionRequired)
    } else if code == "INVALID_EMAIL"@ {
        Some(RegisterCodes::InvalidEmail)
    } else if code == "NEED_NICK"@ {
        Some(RegisterCodes::NeedNick)
    } else if code == "TEMPORARILY_UNAVAILABLE"@ {
        Some(RegisterCodes::TemporarilyUnavailable)
    } else if code == "UNACCEPTABLE_EMAIL"@ {
        Some(RegisterCodes::UnacceptableEmail)
    } else if code == "UNACCEPTABLE_PASSWORD"@ {
        Some(RegisterCodes::UnacceptablePassword)
    } else if code == "WEAK_PASSWORD"@ {
        Some(RegisterCodes::WeakPassword)
    } else {
        None
    }
}

impl RegisterCodes {
    /// Looks a token up in the `REGISTER` code space.
    pub fn from_code(code: &str) -> (r: Option<Self>)
        ensures
            r == register_code_of(code@),
    {
        if str_eq(code, "ACCOUNT_EXISTS") {
            Some(Self::AccountExists)
        } else if str_eq(code, "ACCOUNT_NAME_MUST_BE_NICK") {
            Some(Self::AccountNameMustBeNick)
        } else if str_eq(code, "ALREADY_AUTHENTICATED") {
            Some(Self::AlreadyAuthenticated)
        } else if str_eq(code, "BAD_ACCOUNT_NAME") {
            Some(Self::BadAccountName)
        } else if str_eq(code, "COMPLETE_CONNECTION_REQUIRED") {
            Some(Self::CompleteConnectionRequired)
        } else if str_eq(code, "INVALID_EMAIL") {
            Some(Self::InvalidEmail)
        } else if str_eq(code, "NEED_NICK") {
            Some(Self::NeedNick)
        } else if str_eq(code, "TEMPORARILY_UNAVAILABLE") {
            Some(Self::TemporarilyUnavailable)
        } else if str_eq(code, "UNACCEPTABLE_EMAIL") {
            Some(Self::UnacceptableEmail)
        } else if str_eq(code, "UNACCEPTABLE_PASSWORD") {
            Some(Self::UnacceptablePassword)
        } else if str_eq(code, "WEAK_PASSWORD") {
            Some(Self::WeakPassword)
        } else {
            None
        }
    }
}

/// Codes for the `RENAME` command.
#[derive(Debug, Clone, Copy, PartialEq, Eq, Structural)]
pub enum RenameCodes {
    ChannelNameInUse,
    CannotRename,
}

/// The token table of the `RENAME` code space.
pub open spec fn rename_code_of(code: Seq<char>) -> Option<RenameCodes> {
    if code == "CHANNEL_NAME_IN_USE"@ {
        Some(RenameCodes::ChannelNameInUse)
    } else if code == "CANNOT_RENAME"@ {
        Some(RenameCodes::CannotRename)
    } else {
        None
    }
}

impl RenameCodes {
    /// Looks a token up in the `RENAME` code space.
    pub fn from_code(code: &str) -> (r: Option<Self>)
        ensures
            r == rename_code_of(code@),
    {
        if str_eq(code, "CHANNEL_NAME_IN_USE") {
            Some(Self::ChannelNameInUse)
        } else if str_eq(code, "CANNOT_RENAME") {
            Some(Self::CannotRename)
        } else {
            None
        }
    }
}

/// Codes for the `SETNAME` command.
#[derive(Debug, Clone, Copy, PartialEq, Eq, Structural)]
pub enum SetNameCodes {
    CannotChangeRealname,
    InvalidRealname,
}

/// The token table of the `SETNAME` code space.
pub open spec fn set_name_code_of(code: Seq<char>) -> Option<SetNameCodes> {
    if code == "CANNOT_CHANGE_REALNAME"@ {
        Some(SetNameCodes::CannotChangeRealname)
    } else if code == "INVALID_REALNAME"@ {
        Some(SetNameCodes::InvalidRealname)
    } else {
        None
    }
}

impl SetNameCodes {
    /// Looks a token up in the `SETNAME` code space.
    pub fn from_code(code: &str) -> (r: Option<Self>)
        ensures
            r == set_name_code_of(code@),
    {
        if str_eq(code, "CANNOT_CHANGE_REALNAME") {
            Some(Self::CannotChangeRealname)
        } else if str_eq(code, "INVALID_REALNAME") {
            Some(Self::InvalidRealname)
        } else {
            None
        }
    }
}

/// Codes for the `VERIFY` command.
#[derive(Debug, Clone, Copy, PartialEq, Eq, Structural)]
pub enum VerifyCodes {
    AlreadyAuthenticated,
    InvalidCode,
    CompleteConnectionRequired,
    TemporarilyUnavailable,
}

/// The token table of the `VERIFY` code space.
pub open spec fn verify_code_of(code: Seq<char>) -> Option<VerifyCodes> {
    if code == "ALREADY_AUTHENTICATED"@ {
        Some(VerifyCodes::AlreadyAuthenticated)
    } else if code == "INVALID_CODE"@ {
        Some(VerifyCodes::InvalidCode)
    } else if code == "COMPLETE_CONNECTION_REQUIRED"@ {
        Some(VerifyCodes::CompleteConnectionRequired)
    } else if code == "TEMPORARILY_UNAVAILABLE"@ {
        Some(VerifyCodes::TemporarilyUnavailable)
    } else {
        None
    }
}

impl VerifyCodes {
    /// Looks a token up in the `VERIFY` code space.
    pub fn from_code(code: &str) -> (r: Option<Self>)
        ensures
            r == verify_code_of(code@),
    {
        if str_eq(code, "ALREADY_AUTHENTICATED") {
            Some(Self::AlreadyAuthenticated)
        } else if str_eq(code, "INVALID_CODE") {
            Some(Self::InvalidCode)
        } else if str_eq(code, "COMPLETE_CONNECTION_REQUIRED") {
            Some(Self::CompleteConnectionRequired)
        } else if str_eq(code, "TEMPORARILY_UNAVAILABLE") {
            Some(Self::TemporarilyUnavailable)
        } else {
            None
        }
    }
}

/// A classified standard-reply code: either one of the two global codes, a
/// variant of the originating command's code space, or the catch-all
/// [`StandardCodes::Custom`], which keeps the unrecognized token verbatim.
#[derive(Debug, Clone, PartialEq, Eq)]
pub enum StandardCodes {
    AccountRequired,
    InvalidUtf8,
    Multiline(MultilineCodes),
    ChatHistory(ChatHistoryCodes),
    Join(JoinCodes),
    Nick(NickCodes),
    Redact(RedactCodes),
    Register(RegisterCodes),
    Rename(RenameCodes),
    SetName(SetNameCodes),
    Verify(VerifyCodes),
    Custom(String),
}

/// The mathematical shape of a classification: [`StandardCodes`] with the
/// catch-all's text abstracted to a character sequence.
pub enum ClassifiedCode {
    AccountRequired,
    InvalidUtf8,
    Multiline(MultilineCodes),
    ChatHistory(ChatHistoryCodes),
    Join(JoinCodes),
    Nick(NickCodes),
    Redact(RedactCodes),
    Register(RegisterCodes),
    Rename(RenameCodes),
    SetName(SetNameCodes),
    Verify(VerifyCodes),
    Custom(Seq<char>),
}

impl View for StandardCodes {
    type V = ClassifiedCode;

    open spec fn view(&self) -> ClassifiedCode {
        match self {
            StandardCodes::AccountRequired => ClassifiedCode::AccountRequired,
            StandardCodes::InvalidUtf8 => ClassifiedCode::InvalidUtf8,
            StandardCodes::Multiline(c) => ClassifiedCode::Multiline(*c),
            StandardCodes::ChatHistory(c) => ClassifiedCode::ChatHistory(*c),
            StandardCodes::Join(c) => ClassifiedCode::Join(*c),
            StandardCodes::Nick(c) => ClassifiedCode::Nick(*c),
            StandardCodes::Redact(c) => ClassifiedCode::Redact(*c),
            StandardCodes::Register(c) => ClassifiedCode::Register(*c),
            StandardCodes::Rename(c) => ClassifiedCode::Rename(*c),
            StandardCodes::SetName(c) => ClassifiedCode::SetName(*c),
            StandardCodes::Verify(c) => ClassifiedCode::Verify(*c),
            StandardCodes::Custom(s) => ClassifiedCode::Custom(s@),
        }
    }
}

/// Whether `command` has a code space of its own.
pub open spec fn is_known_command(command: Seq<char>) -> bool {
    ||| command == "BATCH"@
    ||| command == "CHATHISTORY"@
    ||| command == "JOIN"@
    ||| command == "NICK"@
    ||| command == "REDACT"@
    ||| command == "REGISTER"@
    ||| command == "RENAME"@
    ||| command == "SETNAME"@
    ||| command == "VERIFY"@
}

/// The wrapped result of looking `code` up in `command`'s own code space;
/// `None` when the command has no space or the token is not in it.
pub open spec fn known_lookup(command: Seq<char>, code: Seq<char>) -> Option<ClassifiedCode> {
    if command == "BATCH"@ {
        match multiline_code_of(code) {
            Some(c) => Some(ClassifiedCode::Multiline(c)),
            None => None,
        }
    } else if command == "CHATHISTORY"@ {
        match chat_history_code_of(code) {
            Some(c) => Some(ClassifiedCode::ChatHistory(c)),
            None => None,
        }
    } else if command == "JOIN"@ {
        match join_code_of(code) {
            Some(c) => Some(ClassifiedCode::Join(c)),
            None => None,
        }
    } else if command == "NICK"@ {
        match nick_code_of(code) {
            Some(c) => Some(ClassifiedCode::Nick(c)),
            None => None,
        }
    } else if command == "REDACT"@ {
        match redact_code_of(code) {
            Some(c) => Some(ClassifiedCode::Redact(c)),
            None => None,
        }
    } else if command == "REGISTER"@ {
        match register_code_of(code) {
            Some(c) => Some(ClassifiedCode::Register(c)),
            None => None,
        }
    } else if command == "RENAME"@ {
        match rename_code_of(code) {
            Some(c) => Some(ClassifiedCode::Rename(c)),
            None => None,
        }
    } else if command == "SETNAME"@ {
        match set_name_code_of(code) {
            Some(c) => Some(ClassifiedCode::SetName(c)),
            None => None,
        }
    } else if command == "VERIFY"@ {
        match verify_code_of(code) {
            Some(c) => Some(ClassifiedCode::Verify(c)),
            None => None,
        }
    } else {
        None
    }
}

/// What classifying `(command, code)` yields.  A known command delegates to
/// its own code space and, on a miss, goes straight to the catch-all; only an
/// unknown command is checked against the two global codes.
pub open spec fn classify(command: Seq<char>, code: Seq<char>) -> ClassifiedCode {
    if is_known_command(command) {
        match known_lookup(command, code) {
            Some(c) => c,
            None => ClassifiedCode::Custom(code),
        }
    } else if code == "ACCOUNT_REQUIRED"@ {
        ClassifiedCode::AccountRequired
    } else if code == "INVALID_UTF8"@ {
        ClassifiedCode::InvalidUtf8
    } else {
        ClassifiedCode::Custom(code)
    }
}

impl StandardCodes {
    /// Classifies `(command, code)` when the pair is recognized: a hit in a
    /// known command's space, a global code, or the catch-all under an
    /// unknown command.  Returns `None` exactly when the command is known but
    /// the token is not in its space.
    pub fn known_from_message(command: &str, code: &str) -> (r: Option<Self>)
        ensures
            r matches Some(c) ==> c@ == classify(command@, code@),
            r is None <==> is_known_command(command@) && known_lookup(command@, code@) is None,
    {
        if str_eq(command, "BATCH") {
            match MultilineCodes::from_code(code) {
                Some(c) => Some(Self::Multiline(c)),
                None => None,
            }
        } else if str_eq(command, "CHATHISTORY") {
            match ChatHistoryCodes::from_code(code) {
                Some(c) => Some(Self::ChatHistory(c)),
                None => None,
            }
        } else if str_eq(command, "JOIN") {
            match JoinCodes::from_code(code) {
                Some(c) => Some(Self::Join(c)),
                None => None,
            }
        } else if str_eq(command, "NICK") {
            match NickCodes::from_code(code) {
                Some(c) => Some(Self::Nick(c)),
                None => None,
            }
        } else if str_eq(command, "REDACT") {
            match RedactCodes::from_code(code) {
                Some(c) => Some(Self::Redact(c)),
                None => None,
            }
        } else if str_eq(command, "REGISTER") {
            match RegisterCodes::from_code(code) {
                Some(c) => Some(Self::Register(c)),
                None => None,
            }
        } else if str_eq(command, "RENAME") {
            match RenameCodes::from_code(code) {
                Some(c) => Some(Self::Rename(c)),
                None => None,
            }
        } else if str_eq(command, "SETNAME") {
            match SetNameCodes::from_code(code) {
                Some(c) => Some(Self::SetName(c)),
                None => None,
            }
        } else if str_eq(command, "VERIFY") {
            match VerifyCodes::from_code(code) {
                Some(c) => Some(Self::Verify(c)),
                None => None,
            }
        } else if str_eq(code, "ACCOUNT_REQUIRED") {
            Some(Self::AccountRequired)
        } else if str_eq(code, "INVALID_UTF8") {
            Some(Self::InvalidUtf8)
        } else {
            Some(Self::Custom(code.to_owned()))
        }
    }

    /// Classifies `(command, code)`.  Total: an unrecognized token degrades
    /// to the catch-all case holding an owned copy of `code` unchanged.
    pub fn from_message(command: &str, code: &str) -> (r: Self)
        ensures
            r@ == classify(command@, code@),
    {
        match Self::known_from_message(command, code) {
            Some(r) => r,
            None => Self::Custom(code.to_owned()),
        }
    }
}

/// Under a known command, a token of that command's code space classifies to
/// exactly the wrapped variant that the space's table gives; no other
/// command's space takes part.
pub proof fn lemma_known_space_hit(command: Seq<char>, code: Seq<char>)
    ensures
        command == "BATCH"@ ==> (multiline_code_of(code) matches Some(c) ==> classify(
            command,
            code,
        ) == ClassifiedCode::Multiline(c)),
        command == "CHATHISTORY"@ ==> (chat_history_code_of(code) matches Some(c) ==> classify(
            command,
            code,
        ) == ClassifiedCode::ChatHistory(c)),
        command == "JOIN"@ ==> (join_code_of(code) matches Some(c) ==> classify(command, code)
            == ClassifiedCode::Join(c)),
        command == "NICK"@ ==> (nick_code_of(code) matches Some(c) ==> classify(command, code)
            == ClassifiedCode::Nick(c)),
        command == "REDACT"@ ==> (redact_code_of(code) matches Some(c) ==> classify(command, code)
            == ClassifiedCode::Redact(c)),
        command == "REGISTER"@ ==> (register_code_of(code) matches Some(c) ==> classify(
            command,
            code,
        ) == ClassifiedCode::Register(c)),
        command == "RENAME"@ ==> (rename_code_of(code) matches Some(c) ==> classify(command, code)
            == ClassifiedCode::Rename(c)),
        command == "SETNAME"@ ==> (set_name_code_of(code) matches Some(c) ==> classify(
            command,
            code,
        ) == ClassifiedCode::SetName(c)),
        command == "VERIFY"@ ==> (verify_code_of(code) matches Some(c) ==> classify(command, code)
            == ClassifiedCode::Verify(c)),
{
    broadcast use vstd::string::group_string_axioms;

    reveal_strlit("BATCH");
    reveal_strlit("CHATHISTORY");
    reveal_strlit("JOIN");
    reveal_strlit("NICK");
    reveal_strlit("REDACT");
    reveal_strlit("REGISTER");
    reveal_strlit("RENAME");
    reveal_strlit("SETNAME");
    reveal_strlit("VERIFY");
    assert("BATCH"@.len() == 5);
    assert("CHATHISTORY"@.len() == 11);
    assert("JOIN"@.len() == 4);
    assert("NICK"@.len() == 4);
    assert("REDACT"@.len() == 6);
    assert("REGISTER"@.len() == 8);
    assert("RENAME"@.len() == 6);
    assert("SETNAME"@.len() == 7);
    assert("VERIFY"@.len() == 6);
    assert("JOIN"@[0] == 'J' && "NICK"@[0] == 'N');
    assert("REDACT"@[1] == 'E' && "RENAME"@[1] == 'E' && "VERIFY"@[1] == 'E');
    assert("REDACT"@[2] == 'D' && "RENAME"@[2] == 'N' && "VERIFY"@[2] == 'R');
}

/// A known command whose space lacks the token resolves to the catch-all,
/// even when the token is one of the two global codes: the global codes are
/// consulted only under unknown commands.
pub proof fn lemma_known_space_miss(command: Seq<char>, code: Seq<char>)
    requires
        is_known_command(command),
        known_lookup(command, code) is None,
    ensures
        classify(command, code) == ClassifiedCode::Custom(code),
{
}

/// Under an unknown command, a token that is neither global code classifies
/// to the catch-all holding the token itself.
pub proof fn lemma_unknown_command_custom(command: Seq<char>, code: Seq<char>)
    requires
        !is_known_command(command),
        code != "ACCOUNT_REQUIRED"@,
        code != "INVALID_UTF8"@,
    ensures
        classify(command, code) == ClassifiedCode::Custom(code),
{
}

/// The catch-all never loses information: whenever classification ends in
/// the catch-all, the stored text is the original code token, unchanged.
pub proof fn lemma_catch_all_round_trip(command: Seq<char>, code: Seq<char>)
    ensures
        classify(command, code) matches ClassifiedCode::Custom(text) ==> text == code,
{
}

} // verus!
