//! The wire codec: a request is the array `[0, id, method, params]`, a
//! response the array `[1, id, error, result]`, each written as one
//! MessagePack value.

use vstd::prelude::*;
use crate::error::Failure;
use crate::error::RpcError;
use crate::msgpack::decode;
use crate::msgpack::decoded;
use crate::msgpack::encode;
use crate::msgpack::encoded;
use crate::value::models;
use crate::value::Model;
use crate::value::Object;

verus! {

/// The first element of every request.
pub const REQUEST_TAG: u64 = 0;

/// The first element of every response.
pub const RESPONSE_TAG: u64 = 1;

/// The mathematical value of an [`Envelope`].
pub struct EnvelopeModel {
    pub id: u32,
    pub error: Model,
    pub result: Model,
}

/// A response: the id of the request that it answers, the error field (`Nil`
/// where the call succeeded) and the result field.
#[derive(Debug, PartialEq)]
pub struct Envelope {
    pub id: u32,
    pub error: Object,
    pub result: Object,
}

impl View for Envelope {
    type V = EnvelopeModel;

    open spec fn view(&self) -> EnvelopeModel {
        EnvelopeModel { id: self.id, error: self.error@, result: self.result@ }
    }
}

/// The value that stands for a request.
pub open spec fn request_model(id: u32, method: Seq<char>, params: Seq<Model>) -> Model {
    Model::Array(
        seq![
            Model::Unsigned(REQUEST_TAG),
            Model::Unsigned(id as u64),
            Model::Text(method),
            Model::Array(params),
        ],
    )
}

/// The value that stands for a response.
pub open spec fn response_model(envelope: EnvelopeModel) -> Model {
    Model::Array(
        seq![
            Model::Unsigned(RESPONSE_TAG),
            Model::Unsigned(envelope.id as u64),
            envelope.error,
            envelope.result,
        ],
    )
}

/// The response that a value stands for: it must be an array of four
/// elements, the first the response tag, the second an id that fits 32 bits.
pub open spec fn envelope_of(value: Model) -> Option<EnvelopeModel> {
    match value {
        Model::Array(items) => {
            if items.len() == 4 && items[0] == Model::Unsigned(RESPONSE_TAG) {
                match items[1] {
                    Model::Unsigned(id) => if id <= u32::MAX {
                        Some(EnvelopeModel { id: id as u32, error: items[2], result: items[3] })
                    } else {
                        None
                    },
                    _ => None,
                }
            } else {
                None
            }
        },
        _ => None,
    }
}

/// The response that `bytes` hold: the first value in them must decode, and
/// must stand for a response.
pub open spec fn parse_response(bytes: Seq<u8>) -> Option<EnvelopeModel> {
    match decoded(bytes) {
        Some(value) => envelope_of(value),
        None => None,
    }
}

/// The bytes of the request `[0, id, method, params]`.
pub fn encode_request(id: u32, method: &str, params: Vec<Object>) -> (bytes: Vec<u8>)
    ensures
        bytes@ == encoded(request_model(id, method@, models(params@))),
{
    let mut items: Vec<Object> = Vec::new();
    items.push(Object::Unsigned(REQUEST_TAG));
    items.push(Object::Unsigned(id as u64));
    items.push(Object::text(method));
    items.push(Object::array(params));
    let request = Object::array(items);
    assert(request@ =~= request_model(id, method@, models(params@))) by {
        assert(models(items@) =~= request_model(id, method@, models(params@))->Array_0);
    }
    encode(&request)
}

impl Envelope {
    /// The value `[1, id, error, result]` that stands for this response.
    pub fn into_object(self) -> (object: Object)
        ensures
            object@ == response_model(self@),
    {
        let mut items: Vec<Object> = Vec::new();
        items.push(Object::Unsigned(RESPONSE_TAG));
        items.push(Object::Unsigned(self.id as u64));
        items.push(self.error);
        items.push(self.result);
        let object = Object::array(items);
        assert(models(items@) =~= response_model(self@)->Array_0);
        object
    }

    /// The response that `object` stands for, if it stands for one.
    pub fn from_object(object: Object) -> (r: Option<Envelope>)
        ensures
            match envelope_of(object@) {
                Some(envelope) => r matches Some(e) && e@ == envelope,
                None => r is None,
            },
    {
        match object {
            Object::Array(mut items) => {
                if items.len() != 4 {
                    return None;
                }
                let ghost all = items@;
                let result = items.pop().unwrap();
                let error = items.pop().unwrap();
                let id = items.pop().unwrap();
                let tag = items.pop().unwrap();
                assert(object@->Array_0[0] == tag@ && object@->Array_0[1] == id@);
                assert(object@->Array_0[2] == error@ && object@->Array_0[3] == result@);
                match (tag, id) {
                    (Object::Unsigned(t), Object::Unsigned(n)) => {
                        if t == RESPONSE_TAG && n <= u32::MAX as u64 {
                            Some(Envelope { id: n as u32, error, result })
                        } else {
                            None
                        }
                    },
                    _ => None,
                }
            },
            _ => None,
        }
    }
}

/// The bytes of the response `[1, id, error, result]`.
pub fn encode_response(envelope: Envelope) -> (bytes: Vec<u8>)
    ensures
        bytes@ == encoded(response_model(envelope@)),
{
    let object = envelope.into_object();
    encode(&object)
}

/// Reads a response from `bytes`. It fails with `MalformedResponse` where the
/// bytes do not decode, where the value is not an array of four elements,
/// where its first element is not the response tag, and where its second
/// element is not an id of 32 bits.
pub fn decode_response(bytes: &[u8]) -> (r: Result<Envelope, RpcError>)
    ensures
        match parse_response(bytes@) {
            Some(envelope) => r matches Ok(e) && e@ == envelope,
            None => r matches Err(e) && e@ == Failure::MalformedResponse,
        },
{
    match decode(bytes) {
        Some(object) => match Envelope::from_object(object) {
            Some(envelope) => Ok(envelope),
            None => Err(RpcError::MalformedResponse),
        },
        None => Err(RpcError::MalformedResponse),
    }
}

/// Reading a response back from the value that stands for it gives the same
/// id, error and result, whatever they are.
pub proof fn lemma_response_round_trip(envelope: EnvelopeModel)
    ensures
        envelope_of(response_model(envelope)) == Some(envelope),
{
}

/// Reading a response back from its bytes gives the same id, error and
/// result, wherever the codec reads the value of the response back from the
/// bytes that it wrote for it.
pub proof fn lemma_response_bytes_round_trip(envelope: EnvelopeModel)
    requires
        decoded(encoded(response_model(envelope))) == Some(response_model(envelope)),
    ensures
        parse_response(encoded(response_model(envelope))) == Some(envelope),
{
}

/// No request is taken for a response: the two tags differ.
pub proof fn lemma_request_is_no_response(id: u32, method: Seq<char>, params: Seq<Model>)
    ensures
        envelope_of(request_model(id, method, params)) is None,
{
}

} // verus!
