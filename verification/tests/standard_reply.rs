use standard_reply::{
    ChatHistoryCodes, JoinCodes, MultilineCodes, NickCodes, RedactCodes, RegisterCodes,
    RenameCodes, SetNameCodes, StandardCodes, VerifyCodes,
};

#[test]
fn parse_spec_example1() {
    let (command, code) = ("ACC", "REG_INVALID_CALLBACK");
    assert_eq!(
        StandardCodes::Custom("REG_INVALID_CALLBACK".to_string()),
        StandardCodes::from_message(command, code)
    );
}

#[test]
fn parse_spec_example2() {
    let (command, code) = ("BOX", "BOXES_INVALID");
    assert_eq!(
        StandardCodes::Custom("BOXES_INVALID".to_string()),
        StandardCodes::from_message(command, code)
    );
}

#[test]
fn parse_spec_example3() {
    let (command, code) = ("*", "ACCOUNT_REQUIRED_TO_CONNECT");
    assert_eq!(
        StandardCodes::Custom("ACCOUNT_REQUIRED_TO_CONNECT".to_string()),
        StandardCodes::from_message(command, code)
    );
}

#[test]
fn parse_batch_example() {
    let (command, code) = ("BATCH", "MULTILINE_MAX_BYTES");
    assert_eq!(
        StandardCodes::Multiline(MultilineCodes::MaxBytes),
        StandardCodes::from_message(command, code)
    );
}

#[test]
fn batch_space_full_table() {
    assert_eq!(
        StandardCodes::Multiline(MultilineCodes::MaxBytes),
        StandardCodes::from_message("BATCH", "MULTILINE_MAX_BYTES")
    );
    assert_eq!(
        StandardCodes::Multiline(MultilineCodes::MaxLines),
        StandardCodes::from_message("BATCH", "MULTILINE_MAX_LINES")
    );
    assert_eq!(
        StandardCodes::Multiline(MultilineCodes::InvalidTarget),
        StandardCodes::from_message("BATCH", "MULTILINE_INVALID_TARGET")
    );
    assert_eq!(
        StandardCodes::Multiline(MultilineCodes::Invalid),
        StandardCodes::from_message("BATCH", "MULTILINE_INVALID")
    );
}

#[test]
fn chathistory_space_full_table() {
    assert_eq!(
        StandardCodes::ChatHistory(ChatHistoryCodes::InvalidParams),
        StandardCodes::from_message("CHATHISTORY", "INVALID_PARAMS")
    );
    assert_eq!(
        StandardCodes::ChatHistory(ChatHistoryCodes::InvalidTarget),
        StandardCodes::from_message("CHATHISTORY", "INVALID_TARGET")
    );
    assert_eq!(
        StandardCodes::ChatHistory(ChatHistoryCodes::MessageError),
        StandardCodes::from_message("CHATHISTORY", "MESSAGE_ERROR")
    );
    assert_eq!(
        StandardCodes::ChatHistory(ChatHistoryCodes::NeedMoreParams),
        StandardCodes::from_message("CHATHISTORY", "NEED_MORE_PARAMS")
    );
    assert_eq!(
        StandardCodes::ChatHistory(ChatHistoryCodes::UnknownCommand),
        StandardCodes::from_message("CHATHISTORY", "UNKNOWN_COMMAND")
    );
}

#[test]
fn join_and_nick_space_full_table() {
    assert_eq!(
        StandardCodes::Join(JoinCodes::ChannelRenamed),
        StandardCodes::from_message("JOIN", "CHANNEL_RENAMED")
    );
    assert_eq!(
        StandardCodes::Nick(NickCodes::Reserved),
        StandardCodes::from_message("NICK", "NICKNAME_RESERVED")
    );
}

#[test]
fn redact_space_full_table() {
    assert_eq!(
        StandardCodes::Redact(RedactCodes::InvalidTarget),
        StandardCodes::from_message("REDACT", "INVALID_TARGET")
    );
    assert_eq!(
        StandardCodes::Redact(RedactCodes::Forbidden),
        StandardCodes::from_message("REDACT", "REACT_FORBIDDEN")
    );
    assert_eq!(
        StandardCodes::Redact(RedactCodes::WindowExpired),
        StandardCodes::from_message("REDACT", "REACT_WINDOW_EXPIRED")
    );
    assert_eq!(
        StandardCodes::Redact(RedactCodes::UnknownMsgid),
        StandardCodes::from_message("REDACT", "UNKNOWN_MSGID")
    );
}

#[test]
fn register_space_full_table() {
    let cases = [
        ("ACCOUNT_EXISTS", RegisterCodes::AccountExists),
        ("ACCOUNT_NAME_MUST_BE_NICK", RegisterCodes::AccountNameMustBeNick),
        ("ALREADY_AUTHENTICATED", RegisterCodes::AlreadyAuthenticated),
        ("BAD_ACCOUNT_NAME", RegisterCodes::BadAccountName),
        ("COMPLETE_CONNECTION_REQUIRED", RegisterCodes::CompleteConnectionRequired),
        ("INVALID_EMAIL", RegisterCodes::InvalidEmail),
        ("NEED_NICK", RegisterCodes::NeedNick),
        ("TEMPORARILY_UNAVAILABLE", RegisterCodes::TemporarilyUnavailable),
        ("UNACCEPTABLE_EMAIL", RegisterCodes::UnacceptableEmail),
        ("UNACCEPTABLE_PASSWORD", RegisterCodes::UnacceptablePassword),
        ("WEAK_PASSWORD", RegisterCodes::WeakPassword),
    ];
    for (token, variant) in cases {
        assert_eq!(
            StandardCodes::Register(variant),
            StandardCodes::from_message("REGISTER", token)
        );
    }
}

#[test]
fn rename_and_setname_space_full_table() {
    assert_eq!(
        StandardCodes::Rename(RenameCodes::ChannelNameInUse),
        StandardCodes::from_message("RENAME", "CHANNEL_NAME_IN_USE")
    );
    assert_eq!(
        StandardCodes::Rename(RenameCodes::CannotRename),
        StandardCodes::from_message("RENAME", "CANNOT_RENAME")
    );
    assert_eq!(
        StandardCodes::SetName(SetNameCodes::CannotChangeRealname),
        StandardCodes::from_message("SETNAME", "CANNOT_CHANGE_REALNAME")
    );
    assert_eq!(
        StandardCodes::SetName(SetNameCodes::InvalidRealname),
        StandardCodes::from_message("SETNAME", "INVALID_REALNAME")
    );
}

#[test]
fn verify_space_full_table() {
    assert_eq!(
        StandardCodes::Verify(VerifyCodes::AlreadyAuthenticated),
        StandardCodes::from_message("VERIFY", "ALREADY_AUTHENTICATED")
    );
    assert_eq!(
        StandardCodes::Verify(VerifyCodes::InvalidCode),
        StandardCodes::from_message("VERIFY", "INVALID_CODE")
    );
    assert_eq!(
        StandardCodes::Verify(VerifyCodes::CompleteConnectionRequired),
        StandardCodes::from_message("VERIFY", "COMPLETE_CONNECTION_REQUIRED")
    );
    assert_eq!(
        StandardCodes::Verify(VerifyCodes::TemporarilyUnavailable),
        StandardCodes::from_message("VERIFY", "TEMPORARILY_UNAVAILABLE")
    );
}

#[test]
fn global_codes_under_unknown_command() {
    assert_eq!(
        StandardCodes::AccountRequired,
        StandardCodes::from_message("*", "ACCOUNT_REQUIRED")
    );
    assert_eq!(
        StandardCodes::InvalidUtf8,
        StandardCodes::from_message("PRIVMSG", "INVALID_UTF8")
    );
}

#[test]
fn known_command_miss_goes_to_catch_all() {
    // A known command whose space lacks the token resolves to the catch-all,
    // even when the token is a global code.
    assert_eq!(
        StandardCodes::Custom("ACCOUNT_REQUIRED".to_string()),
        StandardCodes::from_message("BATCH", "ACCOUNT_REQUIRED")
    );
    assert_eq!(
        StandardCodes::Custom("INVALID_UTF8".to_string()),
        StandardCodes::from_message("VERIFY", "INVALID_UTF8")
    );
    assert_eq!(
        StandardCodes::Custom("CHANNEL_RENAMED".to_string()),
        StandardCodes::from_message("NICK", "CHANNEL_RENAMED")
    );
}

#[test]
fn classification_is_case_sensitive() {
    assert_eq!(
        StandardCodes::Custom("MULTILINE_MAX_BYTES".to_string()),
        StandardCodes::from_message("batch", "MULTILINE_MAX_BYTES")
    );
    assert_eq!(
        StandardCodes::Custom("multiline_max_bytes".to_string()),
        StandardCodes::from_message("BATCH", "multiline_max_bytes")
    );
}

#[test]
fn catch_all_preserves_text_verbatim() {
    let code = "sOmE_NeW_CoDe_2";
    assert_eq!(
        StandardCodes::Custom(code.to_string()),
        StandardCodes::from_message("UNKNOWN", code)
    );
    assert_eq!(
        StandardCodes::Custom("".to_string()),
        StandardCodes::from_message("UNKNOWN", "")
    );
}

#[test]
fn known_from_message_miss_is_none() {
    assert_eq!(None, StandardCodes::known_from_message("BATCH", "NO_SUCH_CODE"));
    assert_eq!(
        Some(StandardCodes::Join(JoinCodes::ChannelRenamed)),
        StandardCodes::known_from_message("JOIN", "CHANNEL_RENAMED")
    );
    assert_eq!(
        Some(StandardCodes::Custom("NO_SUCH_CODE".to_string())),
        StandardCodes::known_from_message("NOCMD", "NO_SUCH_CODE")
    );
}

#[test]
fn from_code_lookups() {
    assert_eq!(Some(MultilineCodes::MaxLines), MultilineCodes::from_code("MULTILINE_MAX_LINES"));
    assert_eq!(None, MultilineCodes::from_code("MULTILINE_MAX_LINE"));
    assert_eq!(Some(RedactCodes::InvalidTarget), RedactCodes::from_code("INVALID_TARGET"));
    assert_eq!(None, RedactCodes::from_code("INVALID_PARAMS"));
    assert_eq!(
        Some(ChatHistoryCodes::InvalidParams),
        ChatHistoryCodes::from_code("INVALID_PARAMS")
    );
    assert_eq!(None, JoinCodes::from_code(""));
}
