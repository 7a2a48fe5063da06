use mls_worker::response::{
    make_obj_and_save_buffers, marshal_response, MarshaledResponse, ResponseEnvelope,
    ResultAggregate, WelcomePackage,
};

fn envelope(kind: &str, fields: &[(&str, &[u8])]) -> ResponseEnvelope {
    ResponseEnvelope {
        kind: kind.to_string(),
        fields: fields.iter().map(|(name, bytes)| (name.to_string(), bytes.to_vec())).collect(),
    }
}

fn nothing() -> ResultAggregate {
    ResultAggregate {
        new_safety_number: None,
        key_package: None,
        welcome_package: None,
        proposals: Vec::new(),
    }
}

fn flattened(response: &MarshaledResponse) -> Vec<Vec<u8>> {
    let mut buffers = Vec::new();
    for envelope in &response.envelopes {
        for (_, bytes) in &envelope.fields {
            buffers.push(bytes.clone());
        }
    }
    buffers
}

#[test]
fn make_obj_builds_the_envelope_and_its_buffers() {
    let (made, buffers) =
        make_obj_and_save_buffers("sendMlsWelcome", &[("welcome", &[1, 2]), ("rtree", &[3])]);
    assert_eq!(made, envelope("sendMlsWelcome", &[("welcome", &[1, 2]), ("rtree", &[3])]));
    assert_eq!(buffers, vec![vec![1u8, 2], vec![3u8]]);
}

#[test]
fn make_obj_without_fields() {
    let (made, buffers) = make_obj_and_save_buffers("ack", &[]);
    assert_eq!(made, envelope("ack", &[]));
    assert!(buffers.is_empty());
}

#[test]
fn full_aggregate_is_marshaled_in_the_fixed_order() {
    let s = vec![0x10u8, 0x11];
    let k = vec![0x20u8];
    let w = vec![0x30u8, 0x31, 0x32];
    let r = vec![0x40u8];
    let first = vec![0x50u8, 0x51];
    let second = vec![0x60u8];
    let aggregate = ResultAggregate {
        new_safety_number: Some(s.clone()),
        key_package: Some(k.clone()),
        welcome_package: Some(WelcomePackage { welcome: w.clone(), ratchet_tree: r.clone() }),
        proposals: vec![first.clone(), second.clone()],
    };
    let response = marshal_response(Some(&aggregate));
    assert_eq!(
        response.envelopes,
        vec![
            envelope("newSafetyNumber", &[("hash", &s)]),
            envelope("shareKeyPackage", &[("keyPkg", &k)]),
            envelope("sendMlsWelcome", &[("welcome", &w), ("rtree", &r)]),
            envelope("sendMlsMessage", &[("msg", &first)]),
            envelope("sendMlsMessage", &[("msg", &second)]),
        ]
    );
    assert_eq!(response.buffers, vec![s, k, w, r, first, second]);
}

#[test]
fn aggregate_with_every_field_absent_marshals_to_nothing() {
    let response = marshal_response(Some(&nothing()));
    assert_eq!(response, MarshaledResponse { envelopes: vec![], buffers: vec![] });
}

#[test]
fn no_result_marshals_to_nothing() {
    let response = marshal_response(None);
    assert!(response.envelopes.is_empty());
    assert!(response.buffers.is_empty());
}

#[test]
fn new_response_is_empty() {
    assert_eq!(MarshaledResponse::new(), MarshaledResponse { envelopes: vec![], buffers: vec![] });
}

#[test]
fn only_the_parts_that_are_there_get_an_envelope() {
    let aggregate = ResultAggregate { key_package: Some(vec![7, 7]), ..nothing() };
    let response = marshal_response(Some(&aggregate));
    assert_eq!(response.envelopes, vec![envelope("shareKeyPackage", &[("keyPkg", &[7, 7])])]);
    assert_eq!(response.buffers, vec![vec![7u8, 7]]);

    let aggregate = ResultAggregate {
        welcome_package: Some(WelcomePackage { welcome: vec![1], ratchet_tree: vec![2] }),
        new_safety_number: Some(vec![]),
        ..nothing()
    };
    let response = marshal_response(Some(&aggregate));
    assert_eq!(
        response.envelopes,
        vec![
            envelope("newSafetyNumber", &[("hash", &[])]),
            envelope("sendMlsWelcome", &[("welcome", &[1]), ("rtree", &[2])]),
        ]
    );
    assert_eq!(response.buffers, vec![vec![], vec![1u8], vec![2u8]]);
}

#[test]
fn proposals_keep_their_order() {
    let proposals: Vec<Vec<u8>> = (0u8..6).map(|i| vec![i; (i as usize) + 1]).collect();
    let aggregate = ResultAggregate { proposals: proposals.clone(), ..nothing() };
    let response = marshal_response(Some(&aggregate));
    assert_eq!(response.envelopes.len(), 6);
    for (made, proposal) in response.envelopes.iter().zip(proposals.iter()) {
        assert_eq!(*made, envelope("sendMlsMessage", &[("msg", proposal)]));
    }
    assert_eq!(response.buffers, proposals);
}

#[test]
fn buffers_are_the_flattened_fields() {
    let aggregate = ResultAggregate {
        new_safety_number: Some(vec![1]),
        key_package: None,
        welcome_package: Some(WelcomePackage { welcome: vec![2, 2], ratchet_tree: vec![3, 3, 3] }),
        proposals: vec![vec![4], vec![], vec![5, 5]],
    };
    let response = marshal_response(Some(&aggregate));
    assert_eq!(response.buffers, flattened(&response));
    assert_eq!(response.buffers.len(), 6);
}
