//! The RPC session: it numbers the requests, frames them, and reads what came
//! back for one of them. It never touches a socket: the host writes the bytes
//! of a [`Pending`] request, reads once, and hands over what it [`Received`].

use vstd::prelude::*;
use crate::codec::encode_request;
use crate::codec::envelope_of;
use crate::codec::request_model;
use crate::codec::Envelope;
use crate::codec::EnvelopeModel;
use crate::error::Failure;
use crate::error::RpcError;
use crate::msgpack::decode;
use crate::msgpack::decoded;
use crate::msgpack::encoded;
use crate::value::models;
use crate::value::Model;
use crate::value::Object;

verus! {

/// The size of the buffer that the host reads a reply into. A reply that
/// fills it may have been cut off.
pub const READ_BUFFER_SIZE: usize = 4096;

/// The remote method that reports the editor's mode.
pub open spec fn get_mode_method() -> Seq<char> {
    "nvim_get_mode"@
}

/// The remote method that feeds keys to the editor.
pub open spec fn feedkeys_method() -> Seq<char> {
    "nvim_feedkeys"@
}

/// The remote method that lists the key mappings of a mode.
pub open spec fn get_keymap_method() -> Seq<char> {
    "nvim_get_keymap"@
}

/// What the host got when it wrote a request and read once.
#[derive(Debug, PartialEq, Eq)]
pub enum Received {
    /// The bytes that the read returned.
    Data(Vec<u8>),
    /// The read returned no bytes: the remote has closed the connection.
    Closed,
    /// The read timeout ran out.
    TimedOut,
    /// Writing or reading failed in another way.
    Failed,
}

/// What a response means to the request numbered `id`: a response to another
/// request is a mismatch, one whose error field is not `Nil` is the remote's
/// refusal, and any other yields its result field.
pub open spec fn envelope_reply(id: u32, envelope: EnvelopeModel) -> Result<Model, Failure> {
    if envelope.id != id {
        Err(Failure::CorrelationMismatch)
    } else if !(envelope.error is Nil) {
        Err(Failure::RemoteError(envelope.error))
    } else {
        Ok(envelope.result)
    }
}

/// What the bytes of one read mean to the request numbered `id`. No bytes
/// mean that the connection is gone. More bytes than the read buffer holds,
/// and bytes that fill it and do not decode, are a reply too large. Other
/// bytes that do not decode, or decode to something that is no response, are
/// malformed.
pub open spec fn data_reply(id: u32, bytes: Seq<u8>) -> Result<Model, Failure> {
    if bytes.len() == 0 {
        Err(Failure::Disconnected)
    } else if bytes.len() > READ_BUFFER_SIZE {
        Err(Failure::ResponseTooLarge)
    } else {
        match decoded(bytes) {
            None => if bytes.len() == READ_BUFFER_SIZE {
                Err(Failure::ResponseTooLarge)
            } else {
                Err(Failure::MalformedResponse)
            },
            Some(value) => match envelope_of(value) {
                None => Err(Failure::MalformedResponse),
                Some(envelope) => envelope_reply(id, envelope),
            },
        }
    }
}

/// What the host received means to the request numbered `id`.
pub open spec fn reply_of(id: u32, received: Received) -> Result<Model, Failure> {
    match received {
        Received::Data(bytes) => data_reply(id, bytes@),
        Received::TimedOut => Err(Failure::TimedOut),
        Received::Closed => Err(Failure::Disconnected),
        Received::Failed => Err(Failure::Disconnected),
    }
}

/// Whether `exchange` may return `received` when it is given `bytes` to
/// write.
pub open spec fn may_return<F: Fn(Vec<u8>) -> Received>(exchange: F, bytes: Seq<u8>, received: Received) -> bool {
    exists|given: Vec<u8>| given@ == bytes && call_ensures(exchange, (given,), received)
}

/// Whether `r` is the result `m`, value for value.
pub open spec fn is_reply(r: Result<Object, RpcError>, m: Result<Model, Failure>) -> bool {
    match m {
        Ok(value) => r matches Ok(object) && object@ == value,
        Err(failure) => r matches Err(error) && error@ == failure,
    }
}

/// Holds a response against the request numbered `id`.
pub fn check_envelope(id: u32, envelope: Envelope) -> (r: Result<Object, RpcError>)
    ensures
        is_reply(r, envelope_reply(id, envelope@)),
{
    if envelope.id != id {
        Err(RpcError::CorrelationMismatch)
    } else if !envelope.error.is_nil() {
        Err(RpcError::RemoteError(envelope.error))
    } else {
        Ok(envelope.result)
    }
}

/// A request that has been numbered and framed and waits for its reply.
#[derive(Debug, PartialEq, Eq)]
pub struct Pending {
    /// The id that the response must carry.
    pub id: u32,
    /// The bytes to write.
    pub bytes: Vec<u8>,
}

/// Reads the reply to the request numbered `id` out of what the host
/// received: the result field of a response that carries this id and no
/// error, or the failure that [`reply_of`] names.
pub fn read_reply(id: u32, received: Received) -> (r: Result<Object, RpcError>)
    ensures
        is_reply(r, reply_of(id, received)),
{
    match received {
        Received::Data(bytes) => {
            if bytes.len() == 0 {
                Err(RpcError::Disconnected)
            } else if bytes.len() > READ_BUFFER_SIZE {
                Err(RpcError::ResponseTooLarge)
            } else {
                match decode(bytes.as_slice()) {
                    None => {
                        if bytes.len() == READ_BUFFER_SIZE {
                            Err(RpcError::ResponseTooLarge)
                        } else {
                            Err(RpcError::MalformedResponse)
                        }
                    },
                    Some(object) => match Envelope::from_object(object) {
                        None => Err(RpcError::MalformedResponse),
                        Some(envelope) => check_envelope(id, envelope),
                    },
                }
            }
        },
        Received::TimedOut => Err(RpcError::TimedOut),
        Received::Closed => Err(RpcError::Disconnected),
        Received::Failed => Err(RpcError::Disconnected),
    }
}

impl Pending {
    /// Reads the reply to this request: see [`read_reply`].
    pub fn accept(&self, received: Received) -> (r: Result<Object, RpcError>)
        ensures
            is_reply(r, reply_of(self.id, received)),
    {
        read_reply(self.id, received)
    }
}

/// The mathematical value of a [`Session`].
pub struct SessionModel {
    /// The address of the remote.
    pub address: Seq<char>,
    /// The id that the next request gets.
    pub next_id: u32,
}

/// The state of one connection: where it leads, and the id of the next
/// request. Ids start at 0 and go up by one with each request.
#[derive(Debug)]
pub struct Session {
    address: String,
    message_id: u32,
}

impl View for Session {
    type V = SessionModel;

    closed spec fn view(&self) -> SessionModel {
        SessionModel { address: self.address@, next_id: self.message_id }
    }
}

impl Session {
    /// The session for a fresh connection to `address`.
    pub fn connect(address: &str) -> (session: Session)
        ensures
            session@ == (SessionModel { address: address@, next_id: 0 }),
    {
        Session { address: address.to_owned(), message_id: 0 }
    }

    /// The address of the remote.
    pub fn address(&self) -> (r: &str)
        ensures
            r@ == self@.address,
    {
        self.address.as_str()
    }

    /// The id that the next request gets.
    pub fn message_id(&self) -> (r: u32)
        ensures
            r == self@.next_id,
    {
        self.message_id
    }

    /// Whether an id is left for another request.
    pub fn has_id_left(&self) -> (r: bool)
        ensures
            r == (self@.next_id < u32::MAX),
    {
        self.message_id < u32::MAX
    }

    /// Takes the next id.
    pub fn next_message_id(&mut self) -> (id: u32)
        requires
            old(self)@.next_id < u32::MAX,
        ensures
            id == old(self)@.next_id,
            final(self)@ == (SessionModel { next_id: (id + 1) as u32, ..old(self)@ }),
    {
        let id = self.message_id;
        self.message_id = id + 1;
        id
    }

    /// Numbers and frames a call of `method` with `params`.
    pub fn build_request(&mut self, method: &str, params: Vec<Object>) -> (pending: Pending)
        requires
            old(self)@.next_id < u32::MAX,
        ensures
            pending.id == old(self)@.next_id,
            pending.bytes@ == encoded(request_model(pending.id, method@, models(params@))),
            final(self)@ == (SessionModel { next_id: (pending.id + 1) as u32, ..old(self)@ }),
    {
        let id = self.next_message_id();
        Pending { id, bytes: encode_request(id, method, params) }
    }

    /// Calls `method` with `params`: the request is numbered and framed,
    /// `exchange` writes its bytes and reads once, and what it returns is read
    /// as the reply to this request.
    pub fn call<F: Fn(Vec<u8>) -> Received>(&mut self, method: &str, params: Vec<Object>, exchange: &F) -> (r:
        Result<Object, RpcError>)
        requires
            old(self)@.next_id < u32::MAX,
            forall|bytes: Vec<u8>| call_requires(*exchange, (bytes,)),
        ensures
            final(self)@ == (SessionModel { next_id: (old(self)@.next_id + 1) as u32, ..old(self)@ }),
            exists|received: Received|
                (may_return(
                    *exchange,
                    encoded(request_model(old(self)@.next_id, method@, models(params@))),
                    received,
                ) && is_reply(r, reply_of(old(self)@.next_id, received))),
    {
        let pending = self.build_request(method, params);
        let received = exchange(pending.bytes);
        let r = read_reply(pending.id, received);
        assert(may_return(*exchange, pending.bytes@, received) && is_reply(r, reply_of(pending.id, received)));
        r
    }

    /// Asks for the editor's mode: a call of `nvim_get_mode` without
    /// parameters.
    pub fn get_current_mode(&mut self) -> (pending: Pending)
        requires
            old(self)@.next_id < u32::MAX,
        ensures
            pending.id == old(self)@.next_id,
            pending.bytes@ == encoded(request_model(pending.id, get_mode_method(), Seq::empty())),
            final(self)@ == (SessionModel { next_id: (pending.id + 1) as u32, ..old(self)@ }),
    {
        let params: Vec<Object> = Vec::new();
        assert(models(params@) =~= Seq::empty());
        self.build_request("nvim_get_mode", params)
    }

    /// Feeds `keys` to the editor as typed in `mode`: a call of
    /// `nvim_feedkeys` with the keys, the mode, and `false` for `escape_csi`.
    pub fn feedkeys(&mut self, keys: &str, mode: &str) -> (pending: Pending)
        requires
            old(self)@.next_id < u32::MAX,
        ensures
            pending.id == old(self)@.next_id,
            pending.bytes@ == encoded(
                request_model(pending.id, feedkeys_method(), feedkeys_params(keys@, mode@)),
            ),
            final(self)@ == (SessionModel { next_id: (pending.id + 1) as u32, ..old(self)@ }),
    {
        let mut params: Vec<Object> = Vec::new();
        params.push(Object::text(keys));
        params.push(Object::text(mode));
        params.push(Object::Boolean(false));
        assert(models(params@) =~= feedkeys_params(keys@, mode@));
        self.build_request("nvim_feedkeys", params)
    }

    /// Asks for the key mappings of `mode`: a call of `nvim_get_keymap` with
    /// the mode.
    pub fn get_all_keybinds(&mut self, mode: &str) -> (pending: Pending)
        requires
            old(self)@.next_id < u32::MAX,
        ensures
            pending.id == old(self)@.next_id,
            pending.bytes@ == encoded(
                request_model(pending.id, get_keymap_method(), seq![Model::Text(mode@)]),
            ),
            final(self)@ == (SessionModel { next_id: (pending.id + 1) as u32, ..old(self)@ }),
    {
        let mut params: Vec<Object> = Vec::new();
        params.push(Object::text(mode));
        assert(models(params@) =~= seq![Model::Text(mode@)]);
        self.build_request("nvim_get_keymap", params)
    }
}

/// The parameters of a call that feeds `keys` in `mode`.
pub open spec fn feedkeys_params(keys: Seq<char>, mode: Seq<char>) -> Seq<Model> {
    seq![Model::Text(keys), Model::Text(mode), Model::Boolean(false)]
}

} // verus!
