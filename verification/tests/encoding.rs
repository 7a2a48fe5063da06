use mls_worker::encoding::{respond, serialize_response, WelcomePackageOut, WorkerResponse};
use mls_worker::response::{marshal_response, ResponseEnvelope};
use openmls::prelude::tls_codec::{Deserialize, Serialize};
use openmls::prelude::{
    BasicCredential, Ciphersuite, CredentialWithKey, KeyPackage, KeyPackageIn, MlsGroup,
    MlsGroupCreateConfig, MlsMessageBodyIn, MlsMessageIn, MlsMessageOut, RatchetTreeIn,
};
use openmls::treesync::RatchetTree;
use openmls_basic_credential::SignatureKeyPair;
use openmls_rust_crypto::OpenMlsRustCrypto;

const SUITE: Ciphersuite = Ciphersuite::MLS_128_DHKEMX25519_AES128GCM_SHA256_Ed25519;

struct Member {
    provider: OpenMlsRustCrypto,
    signer: SignatureKeyPair,
    credential: CredentialWithKey,
}

fn member(name: &str) -> Member {
    let provider = OpenMlsRustCrypto::default();
    let signer = SignatureKeyPair::new(SUITE.signature_algorithm()).unwrap();
    let credential = CredentialWithKey {
        credential: BasicCredential::new(name.as_bytes().to_vec()).into(),
        signature_key: signer.to_public_vec().into(),
    };
    Member { provider, signer, credential }
}

fn key_package_of(who: &Member) -> KeyPackage {
    KeyPackage::builder()
        .build(SUITE, &who.provider, &who.signer, who.credential.clone())
        .unwrap()
        .into_key_package()
}

struct Admission {
    commit: MlsMessageOut,
    welcome: MlsMessageOut,
    ratchet_tree: RatchetTree,
    own_key_package: KeyPackage,
}

fn admit_bob() -> Admission {
    let alice = member("alice");
    let bob = member("bob");
    let mut group = MlsGroup::new(
        &alice.provider,
        &alice.signer,
        &MlsGroupCreateConfig::default(),
        alice.credential.clone(),
    )
    .unwrap();
    let (commit, welcome, _) = group
        .add_members(&alice.provider, &alice.signer, &[key_package_of(&bob)])
        .unwrap();
    group.merge_pending_commit(&alice.provider).unwrap();
    Admission {
        commit,
        welcome,
        ratchet_tree: group.export_ratchet_tree(),
        own_key_package: key_package_of(&alice),
    }
}

fn nothing() -> WorkerResponse {
    WorkerResponse { welcome: None, proposals: Vec::new(), new_safety_number: None, key_pkg: None }
}

fn envelope(kind: &str, fields: &[(&str, &[u8])]) -> ResponseEnvelope {
    ResponseEnvelope {
        kind: kind.to_string(),
        fields: fields.iter().map(|(name, bytes)| (name.to_string(), bytes.to_vec())).collect(),
    }
}

#[test]
fn respond_without_result_is_empty() {
    let reply = respond(None).unwrap();
    assert!(reply.envelopes.is_empty());
    assert!(reply.buffers.is_empty());
}

#[test]
fn respond_with_nothing_to_say_is_empty() {
    let reply = respond(Some(&nothing())).unwrap();
    assert!(reply.envelopes.is_empty());
    assert!(reply.buffers.is_empty());
}

#[test]
fn safety_number_keeps_its_bytes() {
    let response = WorkerResponse { new_safety_number: Some(vec![1, 2, 3, 4]), ..nothing() };
    let aggregate = serialize_response(&response).unwrap();
    assert_eq!(aggregate.new_safety_number, Some(vec![1, 2, 3, 4]));
    assert_eq!(aggregate.key_package, None);
    assert_eq!(aggregate.welcome_package, None);
    assert!(aggregate.proposals.is_empty());
}

#[test]
fn key_package_is_shared_as_its_tls_encoding() {
    let key_package = key_package_of(&member("carol"));
    let expected = key_package.tls_serialize_detached().unwrap();
    let response = WorkerResponse { key_pkg: Some(key_package.clone()), ..nothing() };
    let reply = respond(Some(&response)).unwrap();
    assert_eq!(reply.envelopes, vec![envelope("shareKeyPackage", &[("keyPkg", &expected)])]);
    assert_eq!(reply.buffers, vec![expected.clone()]);
    let read_back = KeyPackageIn::tls_deserialize_exact(&expected).unwrap();
    assert_eq!(read_back, KeyPackageIn::from(key_package));
}

#[test]
fn admission_is_marshaled_in_the_fixed_order() {
    let admission = admit_bob();
    let hash = vec![0xabu8; 32];
    let key_package = admission.own_key_package.tls_serialize_detached().unwrap();
    let welcome = admission.welcome.to_bytes().unwrap();
    let ratchet_tree = admission.ratchet_tree.tls_serialize_detached().unwrap();
    let commit = admission.commit.tls_serialize_detached().unwrap();
    let response = WorkerResponse {
        welcome: Some(WelcomePackageOut {
            welcome: admission.welcome,
            ratchet_tree: admission.ratchet_tree,
        }),
        proposals: vec![admission.commit.clone(), admission.commit],
        new_safety_number: Some(hash.clone()),
        key_pkg: Some(admission.own_key_package),
    };
    let reply = respond(Some(&response)).unwrap();
    assert_eq!(
        reply.envelopes,
        vec![
            envelope("newSafetyNumber", &[("hash", &hash)]),
            envelope("shareKeyPackage", &[("keyPkg", &key_package)]),
            envelope("sendMlsWelcome", &[("welcome", &welcome), ("rtree", &ratchet_tree)]),
            envelope("sendMlsMessage", &[("msg", &commit)]),
            envelope("sendMlsMessage", &[("msg", &commit)]),
        ]
    );
    assert_eq!(
        reply.buffers,
        vec![hash, key_package, welcome, ratchet_tree, commit.clone(), commit]
    );
}

#[test]
fn serialized_parts_can_be_read_back() {
    let admission = admit_bob();
    let response = WorkerResponse {
        welcome: Some(WelcomePackageOut {
            welcome: admission.welcome,
            ratchet_tree: admission.ratchet_tree.clone(),
        }),
        proposals: vec![admission.commit],
        ..nothing()
    };
    let aggregate = serialize_response(&response).unwrap();
    let package = aggregate.welcome_package.unwrap();
    let welcome = MlsMessageIn::tls_deserialize_exact(&package.welcome).unwrap();
    assert!(matches!(welcome.extract(), MlsMessageBodyIn::Welcome(_)));
    let tree = RatchetTreeIn::tls_deserialize_exact(&package.ratchet_tree).unwrap();
    assert_eq!(tree, RatchetTreeIn::from(admission.ratchet_tree));
    assert_eq!(aggregate.proposals.len(), 1);
    let commit = MlsMessageIn::tls_deserialize_exact(&aggregate.proposals[0]).unwrap();
    assert!(matches!(commit.extract(), MlsMessageBodyIn::PrivateMessage(_)));
}

#[test]
fn respond_is_marshal_of_the_serialized_response() {
    let admission = admit_bob();
    let response = WorkerResponse {
        welcome: None,
        proposals: vec![admission.commit, admission.welcome],
        new_safety_number: Some(vec![5; 8]),
        key_pkg: Some(admission.own_key_package),
    };
    let aggregate = serialize_response(&response).unwrap();
    assert_eq!(respond(Some(&response)).unwrap(), marshal_response(Some(&aggregate)));
}
