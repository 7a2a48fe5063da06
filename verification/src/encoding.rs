use crate::fault::Fault;
use crate::response::{
    bytes_view, envelopes_view, marshal_response, reply_buffers, reply_envelopes, AggregateView,
    MarshaledResponse, ResultAggregate, WelcomePackage,
};
use openmls::prelude::tls_codec::Serialize;
use openmls::framing::errors::MlsMessageError;
use openmls::prelude::{KeyPackage, MlsMessageOut};
use openmls::treesync::RatchetTree;
use vstd::prelude::*;

verus! {

/// `openmls::prelude::KeyPackage`, a value that the library carries and
/// serializes but never looks into.
#[verifier::external_type_specification]
#[verifier::external_body]
pub struct ExKeyPackage(openmls::prelude::KeyPackage);

/// `openmls::prelude::MlsMessageOut`, carried and serialized in the same way.
#[verifier::external_type_specification]
#[verifier::external_body]
pub struct ExMlsMessageOut(openmls::prelude::MlsMessageOut);

/// `openmls::treesync::RatchetTree`, carried and serialized in the same way.
#[verifier::external_type_specification]
#[verifier::external_body]
pub struct ExRatchetTree(openmls::treesync::RatchetTree);

/// `tls_codec::Error`, the error of `tls_serialize_detached`.
#[verifier::external_type_specification]
#[verifier::external_body]
pub struct ExCodecError(openmls::prelude::tls_codec::Error);

/// `openmls::framing::errors::MlsMessageError`, the error of
/// `MlsMessageOut::to_bytes`.
#[verifier::external_type_specification]
#[verifier::external_body]
pub struct ExMlsMessageError(openmls::framing::errors::MlsMessageError);

/// The TLS encoding of a key package, as `tls_serialize_detached` of
/// `tls_codec::Serialize` gives it for `KeyPackage`; `None` where it fails.
pub uninterp spec fn key_package_encoding(key_package: KeyPackage) -> Option<Seq<u8>>;

/// The TLS encoding of an exported ratchet tree, as `tls_serialize_detached`
/// gives it for `RatchetTree`; `None` where it fails.
pub uninterp spec fn ratchet_tree_encoding(ratchet_tree: RatchetTree) -> Option<Seq<u8>>;

/// The TLS encoding of an outgoing message, as `tls_serialize_detached` gives
/// it for `MlsMessageOut`; `None` where it fails.
pub uninterp spec fn message_encoding(message: MlsMessageOut) -> Option<Seq<u8>>;

/// The bytes of an outgoing message, as `MlsMessageOut::to_bytes` gives them;
/// `None` where it fails.
pub uninterp spec fn message_bytes(message: MlsMessageOut) -> Option<Seq<u8>>;

/// Calls `tls_serialize_detached` of `tls_codec::Serialize` on a `KeyPackage`.
/// Taken on trust: the call succeeds with the bytes of `key_package_encoding`
/// where the key package has an encoding, and fails where it has none; that
/// is, the outcome depends on the key package alone.
#[verifier::external_body]
fn serialize_key_package(key_package: &KeyPackage) -> (encoding: Result<
    Vec<u8>,
    openmls::prelude::tls_codec::Error,
>)
    ensures
        match encoding {
            Ok(bytes) => key_package_encoding(*key_package) == Some(bytes@),
            Err(_) => key_package_encoding(*key_package) is None,
        },
{
    key_package.tls_serialize_detached()
}

/// Calls `tls_serialize_detached` of `tls_codec::Serialize` on a
/// `RatchetTree`. Taken on trust: the call succeeds with the bytes of
/// `ratchet_tree_encoding` where the tree has an encoding, and fails where it
/// has none; that is, the outcome depends on the tree alone.
#[verifier::external_body]
fn serialize_ratchet_tree(ratchet_tree: &RatchetTree) -> (encoding: Result<
    Vec<u8>,
    openmls::prelude::tls_codec::Error,
>)
    ensures
        match encoding {
            Ok(bytes) => ratchet_tree_encoding(*ratchet_tree) == Some(bytes@),
            Err(_) => ratchet_tree_encoding(*ratchet_tree) is None,
        },
{
    ratchet_tree.tls_serialize_detached()
}

/// Calls `tls_serialize_detached` of `tls_codec::Serialize` on an
/// `MlsMessageOut`. Taken on trust: the call succeeds with the bytes of
/// `message_encoding` where the message has an encoding, and fails where it
/// has none; that is, the outcome depends on the message alone.
#[verifier::external_body]
fn serialize_message(message: &MlsMessageOut) -> (encoding: Result<
    Vec<u8>,
    openmls::prelude::tls_codec::Error,
>)
    ensures
        match encoding {
            Ok(bytes) => message_encoding(*message) == Some(bytes@),
            Err(_) => message_encoding(*message) is None,
        },
{
    message.tls_serialize_detached()
}

/// Calls `MlsMessageOut::to_bytes`. Taken on trust: the call succeeds with
/// the bytes of `message_bytes` where the message has them, and fails where
/// it has none; that is, the outcome depends on the message alone.
#[verifier::external_body]
fn message_to_bytes(message: &MlsMessageOut) -> (encoding: Result<Vec<u8>, MlsMessageError>)
    ensures
        match encoding {
            Ok(bytes) => message_bytes(*message) == Some(bytes@),
            Err(_) => message_bytes(*message) is None,
        },
{
    message.to_bytes()
}

/// The welcome message for a newly admitted member and the ratchet tree that
/// goes with it, as the group engine hands them over.
#[derive(Debug)]
pub struct WelcomePackageOut {
    pub welcome: MlsMessageOut,
    pub ratchet_tree: RatchetTree,
}

/// What the group engine hands back from a lifecycle command, not yet
/// serialized.
#[derive(Debug)]
pub struct WorkerResponse {
    pub welcome: Option<WelcomePackageOut>,
    pub proposals: Vec<MlsMessageOut>,
    pub new_safety_number: Option<Vec<u8>>,
    pub key_pkg: Option<KeyPackage>,
}

/// The encodings of the messages, in order; `None` where one of them has none.
pub open spec fn encoded_messages(messages: Seq<MlsMessageOut>) -> Option<Seq<Seq<u8>>> {
    if forall|i: int| 0 <= i < messages.len() ==> message_encoding(#[trigger] messages[i]) is Some {
        Some(messages.map_values(|message: MlsMessageOut| message_encoding(message)->Some_0))
    } else {
        None
    }
}

/// The welcome package with its two parts serialized; `None` where one of
/// them cannot be.
pub open spec fn encoded_welcome(package: WelcomePackageOut) -> Option<(Seq<u8>, Seq<u8>)> {
    match (message_bytes(package.welcome), ratchet_tree_encoding(package.ratchet_tree)) {
        (Some(welcome), Some(ratchet_tree)) => Some((welcome, ratchet_tree)),
        _ => None,
    }
}

/// Whether every part of the response that is there can be serialized.
pub open spec fn is_serializable(response: WorkerResponse) -> bool {
    &&& response.key_pkg matches Some(key_package) ==> key_package_encoding(key_package) is Some
    &&& response.welcome matches Some(package) ==> encoded_welcome(package) is Some
    &&& encoded_messages(response.proposals@) is Some
}

/// The response with every part serialized: the parts that are there stay
/// there, the others stay away, the proposals keep their order and the safety
/// number its bytes. `None` where a part cannot be serialized.
pub open spec fn encoded(response: WorkerResponse) -> Option<AggregateView> {
    if is_serializable(response) {
        Some(
            AggregateView {
                new_safety_number: match response.new_safety_number {
                    Some(hash) => Some(hash@),
                    None => None,
                },
                key_package: match response.key_pkg {
                    Some(key_package) => key_package_encoding(key_package),
                    None => None,
                },
                welcome_package: match response.welcome {
                    Some(package) => encoded_welcome(package),
                    None => None,
                },
                proposals: encoded_messages(response.proposals@)->Some_0,
            },
        )
    } else {
        None
    }
}

/// Serializes the messages in order; fails with the fault `Serialization` at
/// the first that cannot be serialized.
fn serialize_messages(messages: &Vec<MlsMessageOut>) -> (encodings: Result<Vec<Vec<u8>>, Fault>)
    ensures
        match encodings {
            Ok(list) => encoded_messages(messages@) == Some(bytes_view(list@)),
            Err(fault) => fault == Fault::Serialization && encoded_messages(messages@) is None,
        },
{
    let mut list: Vec<Vec<u8>> = Vec::new();
    let mut i: usize = 0;
    while i < messages.len()
        invariant
            0 <= i <= messages@.len(),
            list@.len() == i,
            forall|j: int|
                0 <= j < i ==> message_encoding(#[trigger] messages@[j]) == Some(list@[j]@),
        decreases messages@.len() - i,
    {
        match serialize_message(&messages[i]) {
            Ok(bytes) => {
                list.push(bytes);
            },
            Err(_) => {
                assert(message_encoding(messages@[i as int]) is None);
                return Err(Fault::Serialization);
            },
        }
        i = i + 1;
    }
    proof {
        assert(bytes_view(list@) =~= messages@.map_values(
            |message: MlsMessageOut| message_encoding(message)->Some_0,
        ));
    }
    Ok(list)
}

/// Serializes what the group engine handed back, part by part.
///
/// Where every part that is there can be serialized the result is the
/// aggregate `encoded`. Where one cannot, the call fails with the fault
/// `Serialization`, and nothing of the response is handed on.
pub fn serialize_response(response: &WorkerResponse) -> (aggregate: Result<ResultAggregate, Fault>)
    ensures
        match aggregate {
            Ok(serialized) => encoded(*response) == Some(serialized@),
            Err(fault) => fault == Fault::Serialization && encoded(*response) is None,
        },
{
    let new_safety_number = match &response.new_safety_number {
        Some(hash) => Some(vstd::slice::slice_to_vec(hash.as_slice())),
        None => None,
    };
    let key_package = match &response.key_pkg {
        Some(key_package) => match serialize_key_package(key_package) {
            Ok(bytes) => Some(bytes),
            Err(_) => {
                return Err(Fault::Serialization);
            },
        },
        None => None,
    };
    let welcome_package = match &response.welcome {
        Some(package) => {
            let welcome = match message_to_bytes(&package.welcome) {
                Ok(bytes) => bytes,
                Err(_) => {
                    return Err(Fault::Serialization);
                },
            };
            let ratchet_tree = match serialize_ratchet_tree(&package.ratchet_tree) {
                Ok(bytes) => bytes,
                Err(_) => {
                    return Err(Fault::Serialization);
                },
            };
            Some(WelcomePackage { welcome, ratchet_tree })
        },
        None => None,
    };
    let proposals = serialize_messages(&response.proposals)?;
    Ok(ResultAggregate { new_safety_number, key_package, welcome_package, proposals })
}

/// What the caller handed over, serialized: `Some(None)` for a command
/// without a result, `None` where a part of the result cannot be serialized.
pub open spec fn reply_encoded(reply: Option<&WorkerResponse>) -> Option<Option<AggregateView>> {
    match reply {
        None => Some(None),
        Some(response) => match encoded(*response) {
            Some(aggregate) => Some(Some(aggregate)),
            None => None,
        },
    }
}

/// Turns what a command produced into the reply for the host: serializes the
/// parts, then marshals them.
///
/// The reply is that of `marshal_response` for the serialized parts. Where a
/// part cannot be serialized there is no reply, not even a partial one: the
/// call fails with the fault `Serialization`.
pub fn respond(reply: Option<&WorkerResponse>) -> (response: Result<MarshaledResponse, Fault>)
    ensures
        match response {
            Ok(marshaled) => reply_encoded(reply) matches Some(serialized) && envelopes_view(
                marshaled.envelopes@,
            ) == reply_envelopes(serialized) && bytes_view(marshaled.buffers@) == reply_buffers(
                serialized,
            ) && marshaled.wf(),
            Err(fault) => fault == Fault::Serialization && reply_encoded(reply) is None,
        },
{
    match reply {
        None => Ok(marshal_response(None)),
        Some(worker_response) => {
            let aggregate = serialize_response(worker_response)?;
            Ok(marshal_response(Some(&aggregate)))
        },
    }
}

} // verus!
