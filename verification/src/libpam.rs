//! What a module asks of the framework, and what it makes of the answers.
//!
//! Nothing here touches the framework. Each operation comes in two halves:
//! one that checks the module's input and says which [`NativeCall`] to make,
//! and one that reads the number and the value that came back. The caller
//! makes the call in between.

use crate::flags::{PamFlag, PamFlags};
use crate::pam::{Pam, PamError, PamResult};
use crate::pam_types::{PamItemType, PamMsgStyle};
use crate::text::{has_nul, CText};
use vstd::prelude::*;
use vstd::string::StringSliceAdditionalSpecFns;

verus! {

/// A request to the framework, with its arguments in the form it reads.
#[derive(Debug)]
pub enum NativeCall {
    /// Read an item slot
    GetItem { item_type: PamItemType },
    /// Replace the value of an item slot
    SetItem { item_type: PamItemType, item: CText },
    /// Read the user name, asking the user for it if it is not set
    GetUser { prompt: Option<CText> },
    /// Read an authentication token, asking the user for it if it is not set
    GetAuthtok { item_type: PamItemType, prompt: Option<CText> },
    /// Read a variable of the transaction's environment
    GetEnv { name: CText },
    /// Change a variable of the transaction's environment
    PutEnv { name_value: CText },
    /// Store module data under a name
    SetData { module_data_name: CText },
    /// Read module data stored under a name
    GetData { module_data_name: CText },
}

/// The bytes of an optional prompt, with no prompt read as the empty text.
pub open spec fn prompt_bytes(prompt: Option<&str>) -> Seq<u8> {
    match prompt {
        Some(p) => p.spec_bytes(),
        None => Seq::<u8>::empty(),
    }
}

/// An optional prompt in the form the framework reads. A prompt that holds a
/// zero byte is refused.
pub fn prompt_text(prompt: Option<&str>) -> (r: PamResult<Option<CText>>)
    ensures
        prompt.is_some() && has_nul(prompt_bytes(prompt)) <==> r == Err::<Option<CText>, PamError>(
            PamError::SERVICE_ERR,
        ),
        prompt.is_none() <==> r matches Ok(None),
        prompt.is_some() && !has_nul(prompt_bytes(prompt)) <==> r matches Ok(Some(_)),
        r matches Ok(Some(t)) ==> t@ == prompt_bytes(prompt),
{
    match prompt {
        None => Ok(None),
        Some(p) => match CText::from_str(p) {
            Ok(t) => Ok(Some(t)),
            Err(e) => Err(e),
        },
    }
}

/// The request for an item slot, whatever it holds.
pub fn get_item(item_type: PamItemType) -> (call: NativeCall)
    ensures
        call matches NativeCall::GetItem { item_type: t } && t == item_type,
{
    NativeCall::GetItem { item_type }
}

/// The request for an item slot that holds text. The three slots that hold
/// a structure instead are not to be asked for here.
pub fn get_cstr_item(item_type: PamItemType) -> (call: NativeCall)
    requires
        item_type.spec_is_text(),
    ensures
        call matches NativeCall::GetItem { item_type: t } && t == item_type,
{
    get_item(item_type)
}

/// The request that sets an item slot to `item`.
pub fn set_item(item_type: PamItemType, item: CText) -> (call: NativeCall)
    ensures
        call matches NativeCall::SetItem { item_type: t, item: i } && t == item_type && i == item,
{
    NativeCall::SetItem { item_type, item }
}

/// The request for the user name. If the user item is not set the framework
/// asks the user, with `prompt` if there is one.
pub fn get_user(prompt: Option<&str>) -> (r: PamResult<NativeCall>)
    ensures
        prompt.is_some() && has_nul(prompt_bytes(prompt)) <==> r == Err::<NativeCall, PamError>(
            PamError::SERVICE_ERR,
        ),
        prompt.is_none() <==> r matches Ok(NativeCall::GetUser { prompt: None }),
        prompt.is_some() && !has_nul(prompt_bytes(prompt)) <==> r matches Ok(
            NativeCall::GetUser { prompt: Some(_) },
        ),
        r matches Ok(NativeCall::GetUser { prompt: Some(t) }) ==> t@ == prompt_bytes(prompt),
{
    match prompt_text(prompt) {
        Ok(prompt) => Ok(NativeCall::GetUser { prompt }),
        Err(e) => Err(e),
    }
}

/// The request for the user name as it is set, without asking anyone.
pub fn get_cached_user() -> (call: NativeCall)
    ensures
        call matches NativeCall::GetItem { item_type: PamItemType::USER },
{
    get_cstr_item(PamItemType::USER)
}

/// The request for the authentication token as it is set.
pub fn get_cached_authtok() -> (call: NativeCall)
    ensures
        call matches NativeCall::GetItem { item_type: PamItemType::AUTHTOK },
{
    get_cstr_item(PamItemType::AUTHTOK)
}

/// The request for the old authentication token as it is set.
pub fn get_cached_oldauthtok() -> (call: NativeCall)
    ensures
        call matches NativeCall::GetItem { item_type: PamItemType::OLDAUTHTOK },
{
    get_cstr_item(PamItemType::OLDAUTHTOK)
}

/// The request for the authentication token. If none is set the framework
/// asks the user, with `prompt` if there is one.
pub fn get_authtok(prompt: Option<&str>) -> (r: PamResult<NativeCall>)
    ensures
        prompt.is_some() && has_nul(prompt_bytes(prompt)) <==> r == Err::<NativeCall, PamError>(
            PamError::SERVICE_ERR,
        ),
        prompt.is_none() <==> r matches Ok(
            NativeCall::GetAuthtok { item_type: PamItemType::AUTHTOK, prompt: None },
        ),
        prompt.is_some() && !has_nul(prompt_bytes(prompt)) <==> r matches Ok(
            NativeCall::GetAuthtok { item_type: PamItemType::AUTHTOK, prompt: Some(_) },
        ),
        r matches Ok(NativeCall::GetAuthtok { prompt: Some(t), .. }) ==> t@ == prompt_bytes(
            prompt,
        ),
{
    match prompt_text(prompt) {
        Ok(prompt) => Ok(NativeCall::GetAuthtok { item_type: PamItemType::AUTHTOK, prompt }),
        Err(e) => Err(e),
    }
}

/// The request that sets the authentication token.
pub fn set_authtok(authtok: CText) -> (call: NativeCall)
    ensures
        call matches NativeCall::SetItem { item_type: PamItemType::AUTHTOK, item } && item
            == authtok,
{
    set_item(PamItemType::AUTHTOK, authtok)
}

/// The request for the remote host name.
pub fn get_rhost() -> (call: NativeCall)
    ensures
        call matches NativeCall::GetItem { item_type: PamItemType::RHOST },
{
    get_cstr_item(PamItemType::RHOST)
}

/// The request for the remote user name.
pub fn get_ruser() -> (call: NativeCall)
    ensures
        call matches NativeCall::GetItem { item_type: PamItemType::RUSER },
{
    get_cstr_item(PamItemType::RUSER)
}

/// The request for a variable of the transaction's environment.
pub fn getenv(name: &str) -> (r: PamResult<NativeCall>)
    ensures
        has_nul(name.spec_bytes()) <==> r == Err::<NativeCall, PamError>(PamError::SERVICE_ERR),
        !has_nul(name.spec_bytes()) <==> r matches Ok(NativeCall::GetEnv { .. }),
        r matches Ok(NativeCall::GetEnv { name: t }) ==> t@ == name.spec_bytes(),
{
    match CText::from_str(name) {
        Ok(name) => Ok(NativeCall::GetEnv { name }),
        Err(e) => Err(e),
    }
}

/// The request that changes the transaction's environment. `NAME=value`
/// sets a variable, `NAME=` sets it to the empty value, `NAME` removes it.
pub fn putenv(name_value: &str) -> (r: PamResult<NativeCall>)
    ensures
        has_nul(name_value.spec_bytes()) <==> r == Err::<NativeCall, PamError>(
            PamError::SERVICE_ERR,
        ),
        !has_nul(name_value.spec_bytes()) <==> r matches Ok(NativeCall::PutEnv { .. }),
        r matches Ok(NativeCall::PutEnv { name_value: t }) ==> t@ == name_value.spec_bytes(),
{
    match CText::from_str(name_value) {
        Ok(name_value) => Ok(NativeCall::PutEnv { name_value }),
        Err(e) => Err(e),
    }
}

/// The request that stores module data under `module_name`.
pub fn send_data(module_name: &str) -> (r: PamResult<NativeCall>)
    ensures
        has_nul(module_name.spec_bytes()) <==> r == Err::<NativeCall, PamError>(
            PamError::SERVICE_ERR,
        ),
        !has_nul(module_name.spec_bytes()) <==> r matches Ok(NativeCall::SetData { .. }),
        r matches Ok(NativeCall::SetData { module_data_name: t }) ==> t@
            == module_name.spec_bytes(),
{
    match CText::from_str(module_name) {
        Ok(module_data_name) => Ok(NativeCall::SetData { module_data_name }),
        Err(e) => Err(e),
    }
}

/// The request for the module data stored under `module_name`.
pub fn retrieve_data(module_name: &str) -> (r: PamResult<NativeCall>)
    ensures
        has_nul(module_name.spec_bytes()) <==> r == Err::<NativeCall, PamError>(
            PamError::SERVICE_ERR,
        ),
        !has_nul(module_name.spec_bytes()) <==> r matches Ok(NativeCall::GetData { .. }),
        r matches Ok(NativeCall::GetData { module_data_name: t }) ==> t@
            == module_name.spec_bytes(),
{
    match CText::from_str(module_name) {
        Ok(module_data_name) => Ok(NativeCall::GetData { module_data_name }),
        Err(e) => Err(e),
    }
}

/// What a request for a value gave: the value, if there is one, when the
/// framework reported success, and the framework's error otherwise.
pub fn item_result<T>(code: i32, item: Option<T>) -> (r: PamResult<Option<T>>)
    ensures
        r == PamError::spec_new(code as int).spec_to_result(item),
        code == 0 <==> r == Ok::<Option<T>, PamError>(item),
{
    PamError::new(code).to_result(item)
}

/// What a request that yields no value gave.
pub fn status_result(code: i32) -> (r: PamResult<()>)
    ensures
        r == PamError::spec_new(code as int).spec_to_result(()),
        code == 0 <==> r.is_ok(),
{
    PamError::new(code).to_result(())
}

/// What the logic reads of the conversation structure that an application
/// registers: whether it names a function to call.
#[derive(Clone, Copy, Debug, PartialEq, Eq, Structural)]
pub struct PamConv {
    /// Whether the structure names a conversation function
    pub has_callback: bool,
}

/// One message to the user.
#[derive(Debug)]
pub struct PamMessage {
    /// How the message is to be presented
    pub msg_style: PamMsgStyle,
    /// The text of the message
    pub msg: CText,
}

/// What to do next in a conversation, once the conversation item was read.
#[derive(Debug)]
pub enum ConvStep {
    /// The conversation ends with this error
    Fail(PamError),
    /// There is no one to talk to: the conversation ends without an answer
    NoAnswer,
    /// Hand this one message to the conversation function
    Send(PamMessage),
}

/// The request that opens a conversation: it reads the conversation item.
pub fn conv_item() -> (call: NativeCall)
    ensures
        call matches NativeCall::GetItem { item_type: PamItemType::CONV },
{
    get_item(PamItemType::CONV)
}

/// Decides how a conversation goes on after the conversation item was read.
///
/// `code` is the number the framework gave for the read and `slot` what it
/// found in the slot. A failed read ends the conversation with the
/// framework's error. An empty slot ends it without an answer. Otherwise the
/// prompt, or the empty text if there is none, becomes the one message to
/// send; a prompt that holds a zero byte ends the conversation with
/// `SERVICE_ERR`, and a structure without a function ends it without an
/// answer.
pub fn conv(code: i32, slot: Option<PamConv>, prompt: Option<&str>, style: PamMsgStyle) -> (step:
    ConvStep)
    ensures
        code != 0 ==> (step matches ConvStep::Fail(e) && e == PamError::spec_new(code as int)),
        code == 0 && slot.is_none() ==> step is NoAnswer,
        code == 0 && slot.is_some() && has_nul(prompt_bytes(prompt)) ==> step matches ConvStep::Fail(
            PamError::SERVICE_ERR,
        ),
        code == 0 && slot.is_some() && !has_nul(prompt_bytes(prompt)) && !slot.unwrap().has_callback
            ==> step is NoAnswer,
        code == 0 && slot.is_some() && !has_nul(prompt_bytes(prompt)) && slot.unwrap().has_callback
            ==> (step matches ConvStep::Send(m) && m.msg_style == style && m.msg@
            == prompt_bytes(prompt)),
{
    let r = PamError::new(code);
    if r != PamError::SUCCESS {
        return ConvStep::Fail(r);
    }
    let conv = match slot {
        None => {
            return ConvStep::NoAnswer;
        },
        Some(conv) => conv,
    };
    let text = match prompt {
        Some(p) => CText::from_str(p),
        None => {
            proof {
                reveal_strlit("");
                assert(""@ =~= Seq::<char>::empty());
            }
            CText::from_str("")
        },
    };
    let msg = match text {
        Err(e) => {
            return ConvStep::Fail(e);
        },
        Ok(msg) => msg,
    };
    if conv.has_callback {
        ConvStep::Send(PamMessage { msg_style: style, msg })
    } else {
        ConvStep::NoAnswer
    }
}

/// What a conversation gave, from the number that the conversation function
/// returned and the answer it left: the answer on success, the error that
/// the number stands for otherwise.
pub fn conv_reply<T>(code: i32, resp: Option<T>) -> (r: PamResult<Option<T>>)
    ensures
        r == PamError::spec_new(code as int).spec_to_result(resp),
        code == 0 <==> r == Ok::<Option<T>, PamError>(resp),
{
    match PamError::new(code) {
        PamError::SUCCESS => Ok(resp),
        ret => Err(ret),
    }
}

/// Data that a module stores with the framework for the rest of the
/// transaction.
pub trait PamData {
    /// Called once, just before the framework lets go of the data: when
    /// other data replaces it under its name, or when the transaction ends.
    /// `flags` tells which of the two, and `status` how the transaction went.
    fn cleanup(&self, _pam: Pam, _flags: PamFlags, _status: PamError) {
    }
}

/// Data behind a pointer is cleaned up as the data itself is.
impl<T: PamData, U> PamData for U where U: core::ops::Deref<Target = T> {
    fn cleanup(&self, pam: Pam, flags: PamFlags, status: PamError) {
        let inner: &T = self;
        inner.cleanup(pam, flags, status)
    }
}

/// Whether the callback can be called with any bytes, handle, flags and status.
pub open spec fn accepts_every_call<F: Fn(&Vec<u8>, Pam, PamFlags, PamError)>(cb: F) -> bool {
    forall|d: &Vec<u8>, p: Pam, f: PamFlags, s: PamError| call_requires(cb, (d, p, f, s))
}

/// Bytes stored with the framework, with the function to call when they are
/// discarded.
pub struct PamByteData<F: Fn(&Vec<u8>, Pam, PamFlags, PamError)> {
    cb: Option<F>,
    data: Vec<u8>,
}

impl<F: Fn(&Vec<u8>, Pam, PamFlags, PamError)> PamByteData<F> {
    /// The callback, if there is one, accepts every call.
    #[verifier::type_invariant]
    closed spec fn wf(&self) -> bool {
        self.cb matches Some(cb) ==> accepts_every_call(cb)
    }

    /// The bytes, as the vector that the callback is handed.
    pub closed spec fn spec_vec(&self) -> Vec<u8> {
        self.data
    }

    /// The bytes.
    pub open spec fn spec_data(&self) -> Seq<u8> {
        self.spec_vec()@
    }

    /// The callback.
    pub closed spec fn spec_cb(&self) -> Option<F> {
        self.cb
    }

    /// Puts bytes and their callback together.
    pub fn new(data: Vec<u8>, cb: Option<F>) -> (d: Self)
        requires
            cb matches Some(f) ==> accepts_every_call(f),
        ensures
            d.spec_vec() == data,
            d.spec_cb() == cb,
    {
        PamByteData { cb, data }
    }

    /// A copy of the bytes.
    pub fn data(&self) -> (v: Vec<u8>)
        ensures
            v@ == self.spec_data(),
    {
        self.data.clone()
    }
}

impl<F: Fn(&Vec<u8>, Pam, PamFlags, PamError)> PamData for PamByteData<F> {
    /// Calls the callback, if there is one, with the bytes.
    fn cleanup(&self, pam: Pam, flags: PamFlags, status: PamError)
        ensures
            self.spec_cb() matches Some(cb) ==> call_ensures(
                cb,
                (&self.spec_vec(), pam, flags, status),
                (),
            ),
    {
        proof {
            use_type_invariant(self);
        }
        match &self.cb {
            Some(cb) => cb(&self.data, pam, flags, status),
            None => {},
        }
    }
}

/// The request that stores `data` under `module_name`, and the stored form
/// of the bytes with their callback, which the framework is to keep.
pub fn send_bytes<F: Fn(&Vec<u8>, Pam, PamFlags, PamError)>(
    module_name: &str,
    data: Vec<u8>,
    cb: Option<F>,
) -> (r: PamResult<(NativeCall, PamByteData<F>)>)
    requires
        cb matches Some(f) ==> accepts_every_call(f),
    ensures
        has_nul(module_name.spec_bytes()) <==> r == Err::<(NativeCall, PamByteData<F>), PamError>(
            PamError::SERVICE_ERR,
        ),
        !has_nul(module_name.spec_bytes()) <==> r matches Ok((NativeCall::SetData { .. }, _)),
        r matches Ok((NativeCall::SetData { module_data_name: t }, d)) ==> t@
            == module_name.spec_bytes() && d.spec_data() == data@ && d.spec_cb() == cb,
{
    let data_cb = PamByteData::new(data, cb);
    match send_data(module_name) {
        Ok(call) => Ok((call, data_cb)),
        Err(e) => Err(e),
    }
}

/// The request for the bytes stored under `module_name`.
pub fn retrieve_bytes(module_name: &str) -> (r: PamResult<NativeCall>)
    ensures
        has_nul(module_name.spec_bytes()) <==> r == Err::<NativeCall, PamError>(
            PamError::SERVICE_ERR,
        ),
        !has_nul(module_name.spec_bytes()) <==> r matches Ok(NativeCall::GetData { .. }),
        r matches Ok(NativeCall::GetData { module_data_name: t }) ==> t@
            == module_name.spec_bytes(),
{
    retrieve_data(module_name)
}

/// What a request for module data gave: a copy of the stored data when the
/// framework reported success, and the framework's error otherwise. On
/// success the framework hands out the data that is stored.
pub fn retrieved_data<T: Clone>(code: i32, data: Option<&T>) -> (r: PamResult<T>)
    requires
        code == 0 ==> data.is_some(),
    ensures
        code != 0 <==> r == Err::<T, PamError>(PamError::spec_new(code as int)),
        code == 0 <==> r.is_ok(),
        r matches Ok(v) ==> cloned(*data.unwrap(), v),
{
    match PamError::new(code).to_result(data) {
        Ok(Some(stored)) => Ok(stored.clone()),
        Ok(None) => unreached(),
        Err(e) => Err(e),
    }
}

/// What a request for stored bytes gave: a copy of the bytes when the
/// framework reported success, and the framework's error otherwise.
pub fn retrieved_bytes<F: Fn(&Vec<u8>, Pam, PamFlags, PamError)>(
    code: i32,
    data: Option<&PamByteData<F>>,
) -> (r: PamResult<Vec<u8>>)
    requires
        code == 0 ==> data.is_some(),
    ensures
        code != 0 <==> r == Err::<Vec<u8>, PamError>(PamError::spec_new(code as int)),
        code == 0 <==> r.is_ok(),
        r matches Ok(v) ==> v@ == data.unwrap().spec_data(),
{
    match PamError::new(code).to_result(data) {
        Ok(Some(stored)) => Ok(stored.data()),
        Ok(None) => unreached(),
        Err(e) => Err(e),
    }
}

/// The flags that a cleanup is told, from the word that the framework hands
/// to it: of that word, the bit that says the data is being replaced and the
/// bit that asks for silence.
pub open spec fn spec_cleanup_flags(error_status: i32) -> PamFlags {
    PamFlags::spec_from_bits_unchecked(
        (error_status & PamFlag::DATA_REPLACE.spec_bits()) | (error_status
            & PamFlag::SILENT.spec_bits()),
    )
}

/// The status that a cleanup is told, from the word that the framework
/// hands to it: the result that the lowest eight bits stand for.
pub open spec fn spec_cleanup_status(error_status: i32) -> PamError {
    PamError::spec_new((error_status & 0xff) as int)
}

/// The flags that a cleanup is told.
pub fn cleanup_flags(error_status: i32) -> (f: PamFlags)
    ensures
        f == spec_cleanup_flags(error_status),
        forall|g: PamFlag|
            f@.contains(g) <==> (g == PamFlag::DATA_REPLACE || g == PamFlag::SILENT)
                && PamFlags::spec_from_bits_unchecked(error_status)@.contains(g),
{
    let replace = PamFlags::from_bits_unchecked(error_status & PamFlag::DATA_REPLACE.bits());
    let silent = PamFlags::from_bits_unchecked(error_status & PamFlag::SILENT.bits());
    let f = replace.union(silent);
    proof {
        PamFlags::lemma_round_trip(
            (error_status & PamFlag::DATA_REPLACE.spec_bits()) | (error_status
                & PamFlag::SILENT.spec_bits()),
        );
        PamFlags::lemma_round_trip(error_status);
        PamFlags::lemma_bits_determine(f, spec_cleanup_flags(error_status));
        let given = PamFlags::spec_from_bits_unchecked(error_status);
        assert forall|g: PamFlag|
            f@.contains(g) <==> (g == PamFlag::DATA_REPLACE || g == PamFlag::SILENT)
                && given@.contains(g) by {
            let c = g.spec_bits();
            let e = error_status;
            assert(replace@.contains(g) == (e & 0x2000_0000i32 & c != 0));
            assert(silent@.contains(g) == (e & 0x8000i32 & c != 0));
            assert(given@.contains(g) == (e & c != 0));
            assert(c == 0x2000_0000i32 ==> (e & 0x2000_0000i32 & c != 0) == (e & c != 0) && (e
                & 0x8000i32 & c == 0)) by (bit_vector);
            assert(c == 0x8000i32 ==> (e & 0x8000i32 & c != 0) == (e & c != 0) && (e
                & 0x2000_0000i32 & c == 0)) by (bit_vector);
            assert(c == 0x0001i32 || c == 0x0002i32 || c == 0x0004i32 || c == 0x0008i32 || c
                == 0x0010i32 || c == 0x0020i32 ==> (e & 0x8000i32 & c == 0) && (e & 0x2000_0000i32
                & c == 0)) by (bit_vector);
        }
    }
    f
}

/// The status that a cleanup is told.
pub fn cleanup_status(error_status: i32) -> (e: PamError)
    ensures
        e == spec_cleanup_status(error_status),
{
    PamError::new(error_status & 0xff)
}

/// Lets go of stored data on behalf of the framework: tells the data's
/// cleanup the flags and the status that `error_status` holds, and drops the
/// data.
pub fn pam_data_cleanup<T: PamData>(handle: Pam, data: T, error_status: i32)
    ensures
        call_ensures(
            T::cleanup,
            (&data, handle, spec_cleanup_flags(error_status), spec_cleanup_status(error_status)),
            (),
        ),
{
    let flags = cleanup_flags(error_status);
    let status = cleanup_status(error_status);
    data.cleanup(handle, flags, status)
}

} // verus!
