use pamsm::libpam::{
    cleanup_flags, cleanup_status, conv, conv_item, conv_reply, get_authtok, get_cached_authtok,
    get_cached_oldauthtok, get_cached_user, get_cstr_item, get_item, get_rhost, get_ruser,
    get_user, getenv, item_result, putenv, retrieve_bytes, retrieve_data, retrieved_bytes,
    retrieved_data, send_bytes, send_data, set_authtok, set_item, status_result, ConvStep,
    NativeCall, PamByteData, PamConv,
};
use pamsm::{CText, Pam, PamError, PamFlag, PamFlags, PamItemType, PamMsgStyle};

type Callback = fn(&Vec<u8>, Pam, PamFlags, PamError);

fn slot_of(call: NativeCall) -> PamItemType {
    match call {
        NativeCall::GetItem { item_type } => item_type,
        other => panic!("not a read of an item: {:?}", other),
    }
}

#[test]
fn cached_items_ask_for_their_slots() {
    assert_eq!(slot_of(get_cached_user()), PamItemType::USER);
    assert_eq!(slot_of(get_cached_authtok()), PamItemType::AUTHTOK);
    assert_eq!(slot_of(get_cached_oldauthtok()), PamItemType::OLDAUTHTOK);
    assert_eq!(slot_of(get_rhost()), PamItemType::RHOST);
    assert_eq!(slot_of(get_ruser()), PamItemType::RUSER);
    assert_eq!(slot_of(conv_item()), PamItemType::CONV);
    assert_eq!(slot_of(get_cstr_item(PamItemType::TTY)), PamItemType::TTY);
    assert_eq!(slot_of(get_item(PamItemType::XAUTHDATA)), PamItemType::XAUTHDATA);
}

#[test]
fn get_user_without_prompt() {
    match get_user(None) {
        Ok(NativeCall::GetUser { prompt: None }) => {}
        other => panic!("{:?}", other),
    }
}

#[test]
fn get_user_with_prompt() {
    match get_user(Some("who: ")) {
        Ok(NativeCall::GetUser { prompt: Some(p) }) => assert_eq!(p.as_bytes_with_nul(), b"who: \0"),
        other => panic!("{:?}", other),
    }
}

#[test]
fn get_user_prompt_with_zero_byte_is_service_err() {
    assert_eq!(get_user(Some("who\0: ")).err(), Some(PamError::SERVICE_ERR));
}

#[test]
fn get_authtok_asks_for_the_token_slot() {
    match get_authtok(None) {
        Ok(NativeCall::GetAuthtok { item_type: PamItemType::AUTHTOK, prompt: None }) => {}
        other => panic!("{:?}", other),
    }
    match get_authtok(Some("Password: ")) {
        Ok(NativeCall::GetAuthtok { item_type: PamItemType::AUTHTOK, prompt: Some(p) }) => {
            assert_eq!(p.as_bytes_with_nul(), b"Password: \0")
        }
        other => panic!("{:?}", other),
    }
    assert_eq!(get_authtok(Some("\0")).err(), Some(PamError::SERVICE_ERR));
}

#[test]
fn set_authtok_sets_the_token_slot() {
    match set_authtok(CText::from_str("hunter2").unwrap()) {
        NativeCall::SetItem { item_type: PamItemType::AUTHTOK, item } => {
            assert_eq!(item.as_bytes_with_nul(), b"hunter2\0")
        }
        other => panic!("{:?}", other),
    }
    match set_item(PamItemType::RHOST, CText::from_str("example.org").unwrap()) {
        NativeCall::SetItem { item_type: PamItemType::RHOST, item } => {
            assert_eq!(item.to_bytes(), b"example.org".to_vec())
        }
        other => panic!("{:?}", other),
    }
}

#[test]
fn environment_requests() {
    match getenv("HOME") {
        Ok(NativeCall::GetEnv { name }) => assert_eq!(name.as_bytes_with_nul(), b"HOME\0"),
        other => panic!("{:?}", other),
    }
    match putenv("HOME=/root") {
        Ok(NativeCall::PutEnv { name_value }) => {
            assert_eq!(name_value.as_bytes_with_nul(), b"HOME=/root\0")
        }
        other => panic!("{:?}", other),
    }
    assert_eq!(getenv("HO\0ME").err(), Some(PamError::SERVICE_ERR));
    assert_eq!(putenv("HOME=\0").err(), Some(PamError::SERVICE_ERR));
}

#[test]
fn module_data_requests() {
    match send_data("pamtime") {
        Ok(NativeCall::SetData { module_data_name }) => {
            assert_eq!(module_data_name.as_bytes_with_nul(), b"pamtime\0")
        }
        other => panic!("{:?}", other),
    }
    match retrieve_data("pamtime") {
        Ok(NativeCall::GetData { module_data_name }) => {
            assert_eq!(module_data_name.as_bytes_with_nul(), b"pamtime\0")
        }
        other => panic!("{:?}", other),
    }
    match retrieve_bytes("pamtime_token") {
        Ok(NativeCall::GetData { module_data_name }) => {
            assert_eq!(module_data_name.as_bytes_with_nul(), b"pamtime_token\0")
        }
        other => panic!("{:?}", other),
    }
    assert_eq!(send_data("pam\0time").err(), Some(PamError::SERVICE_ERR));
    assert_eq!(retrieve_data("\0").err(), Some(PamError::SERVICE_ERR));
    assert_eq!(retrieve_bytes("a\0").err(), Some(PamError::SERVICE_ERR));
}

#[test]
fn send_bytes_keeps_bytes_and_name() {
    let none: Option<Callback> = None;
    match send_bytes("token", vec![1, 2, 3], none) {
        Ok((NativeCall::SetData { module_data_name }, stored)) => {
            assert_eq!(module_data_name.as_bytes_with_nul(), b"token\0");
            assert_eq!(stored.data(), vec![1, 2, 3]);
        }
        other => panic!("{:?}", other.map(|(call, _)| call)),
    }
    let none: Option<Callback> = None;
    assert_eq!(send_bytes("to\0ken", vec![1], none).err(), Some(PamError::SERVICE_ERR));
}

#[test]
fn item_result_follows_the_number() {
    assert_eq!(item_result(0, Some("alice")), Ok(Some("alice")));
    assert_eq!(item_result::<&str>(0, None), Ok(None));
    assert_eq!(item_result(10, Some("alice")), Err(PamError::USER_UNKNOWN));
    assert_eq!(item_result::<&str>(29, None), Err(PamError::BAD_ITEM));
    assert_eq!(item_result::<&str>(99, None), Err(PamError::UNKNOWN_RESULT));
    assert_eq!(item_result::<&str>(-1, None), Err(PamError::UNKNOWN_RESULT));
}

#[test]
fn status_result_follows_the_number() {
    assert_eq!(status_result(0), Ok(()));
    assert_eq!(status_result(5), Err(PamError::BUF_ERR));
    assert_eq!(status_result(4), Err(PamError::SYSTEM_ERR));
    assert_eq!(status_result(-7), Err(PamError::UNKNOWN_RESULT));
}

#[test]
fn conv_fails_with_the_error_of_the_read() {
    let talk = Some(PamConv { has_callback: true });
    match conv(29, talk, Some("x"), PamMsgStyle::TEXT_INFO) {
        ConvStep::Fail(PamError::BAD_ITEM) => {}
        other => panic!("{:?}", other),
    }
    match conv(4, None, None, PamMsgStyle::TEXT_INFO) {
        ConvStep::Fail(PamError::SYSTEM_ERR) => {}
        other => panic!("{:?}", other),
    }
    match conv(77, talk, Some("\0"), PamMsgStyle::TEXT_INFO) {
        ConvStep::Fail(PamError::UNKNOWN_RESULT) => {}
        other => panic!("{:?}", other),
    }
}

#[test]
fn conv_without_structure_gives_no_answer() {
    match conv(0, None, Some("x"), PamMsgStyle::PROMPT_ECHO_ON) {
        ConvStep::NoAnswer => {}
        other => panic!("{:?}", other),
    }
    match conv(0, None, Some("bad\0prompt"), PamMsgStyle::PROMPT_ECHO_ON) {
        ConvStep::NoAnswer => {}
        other => panic!("{:?}", other),
    }
}

#[test]
fn conv_prompt_with_zero_byte_is_service_err() {
    for has_callback in [true, false] {
        match conv(0, Some(PamConv { has_callback }), Some("pass\0word"), PamMsgStyle::PROMPT_ECHO_OFF) {
            ConvStep::Fail(PamError::SERVICE_ERR) => {}
            other => panic!("{:?}", other),
        }
    }
}

#[test]
fn conv_without_function_gives_no_answer() {
    match conv(0, Some(PamConv { has_callback: false }), Some("x"), PamMsgStyle::ERROR_MSG) {
        ConvStep::NoAnswer => {}
        other => panic!("{:?}", other),
    }
}

#[test]
fn conv_sends_one_message_with_style_and_prompt() {
    match conv(0, Some(PamConv { has_callback: true }), Some("Code: "), PamMsgStyle::PROMPT_ECHO_OFF) {
        ConvStep::Send(m) => {
            assert_eq!(m.msg_style, PamMsgStyle::PROMPT_ECHO_OFF);
            assert_eq!(m.msg.as_bytes_with_nul(), b"Code: \0");
        }
        other => panic!("{:?}", other),
    }
    match conv(0, Some(PamConv { has_callback: true }), None, PamMsgStyle::TEXT_INFO) {
        ConvStep::Send(m) => {
            assert_eq!(m.msg_style, PamMsgStyle::TEXT_INFO);
            assert_eq!(m.msg.as_bytes_with_nul(), b"\0");
        }
        other => panic!("{:?}", other),
    }
}

#[test]
fn conv_reply_follows_the_number() {
    assert_eq!(conv_reply(0, Some("secret")), Ok(Some("secret")));
    assert_eq!(conv_reply::<&str>(0, None), Ok(None));
    assert_eq!(conv_reply(19, Some("secret")), Err(PamError::CONV_ERR));
    assert_eq!(conv_reply::<&str>(30, None), Err(PamError::CONV_AGAIN));
    assert_eq!(conv_reply::<&str>(500, None), Err(PamError::UNKNOWN_RESULT));
}

#[test]
fn retrieved_data_is_a_copy_on_success() {
    let stored = String::from("since 10:00");
    assert_eq!(retrieved_data(0, Some(&stored)), Ok(String::from("since 10:00")));
    assert_eq!(retrieved_data(18, Some(&stored)), Err(PamError::NO_MODULE_DATA));
    assert_eq!(retrieved_data::<String>(18, None), Err(PamError::NO_MODULE_DATA));
    assert_eq!(retrieved_data::<String>(4, None), Err(PamError::SYSTEM_ERR));
    assert_eq!(retrieved_data::<String>(-3, None), Err(PamError::UNKNOWN_RESULT));
}

#[test]
fn retrieved_bytes_are_a_copy_on_success() {
    let none: Option<Callback> = None;
    let stored = PamByteData::new(vec![9, 8, 7], none);
    assert_eq!(retrieved_bytes(0, Some(&stored)), Ok(vec![9, 8, 7]));
    assert_eq!(retrieved_bytes(18, Some(&stored)), Err(PamError::NO_MODULE_DATA));
    let absent: Option<&PamByteData<Callback>> = None;
    assert_eq!(retrieved_bytes(18, absent), Err(PamError::NO_MODULE_DATA));
}

#[test]
fn cleanup_flags_keep_replace_and_silent_only() {
    assert_eq!(cleanup_flags(0).bits(), 0);
    assert_eq!(cleanup_flags(0x2000_0000).bits(), 0x2000_0000);
    assert_eq!(cleanup_flags(0x8000).bits(), 0x8000);
    assert_eq!(cleanup_flags(0x2000_8000 | 7).bits(), 0x2000_8000);
    assert_eq!(cleanup_flags(0x3f).bits(), 0);
    assert_eq!(cleanup_flags(-1).bits(), 0x2000_8000);
    assert!(cleanup_flags(0x2000_0007).has(PamFlag::DATA_REPLACE));
    assert!(!cleanup_flags(0x2000_0007).has(PamFlag::SILENT));
    assert!(!cleanup_flags(0x2000_0007).has(PamFlag::DISALLOW_NULL_AUTHTOK));
}

#[test]
fn cleanup_status_reads_the_low_byte() {
    assert_eq!(cleanup_status(0), PamError::SUCCESS);
    assert_eq!(cleanup_status(7), PamError::AUTH_ERR);
    assert_eq!(cleanup_status(0x2000_0000), PamError::SUCCESS);
    assert_eq!(cleanup_status(0x2000_8000 | 14), PamError::SESSION_ERR);
    assert_eq!(cleanup_status(0x100), PamError::SUCCESS);
    assert_eq!(cleanup_status(0x107), PamError::AUTH_ERR);
    assert_eq!(cleanup_status(0x40), PamError::UNKNOWN_RESULT);
    assert_eq!(cleanup_status(-1), PamError::UNKNOWN_RESULT);
}
