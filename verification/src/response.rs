use vstd::prelude::*;
use vstd::slice::slice_to_vec;

verus! {

/// One message for the host: a kind and, in order, its named binary fields.
#[derive(Clone, Debug, PartialEq, Eq)]
pub struct ResponseEnvelope {
    pub kind: String,
    pub fields: Vec<(String, Vec<u8>)>,
}

/// A `ResponseEnvelope` as a mathematical value.
pub struct EnvelopeView {
    pub kind: Seq<char>,
    pub fields: Seq<(Seq<char>, Seq<u8>)>,
}

impl EnvelopeView {
    /// The binary values of the fields, in the order of the fields.
    pub open spec fn buffers(self) -> Seq<Seq<u8>> {
        self.fields.map_values(|field: (Seq<char>, Seq<u8>)| field.1)
    }
}

/// The named fields of an envelope as mathematical values.
pub open spec fn fields_view(fields: Seq<(String, Vec<u8>)>) -> Seq<(Seq<char>, Seq<u8>)> {
    fields.map_values(|field: (String, Vec<u8>)| (field.0@, field.1@))
}

/// A list of byte strings as mathematical values.
pub open spec fn bytes_view(items: Seq<Vec<u8>>) -> Seq<Seq<u8>> {
    items.map_values(|item: Vec<u8>| item@)
}

/// A list of envelopes as mathematical values.
pub open spec fn envelopes_view(envelopes: Seq<ResponseEnvelope>) -> Seq<EnvelopeView> {
    envelopes.map_values(|envelope: ResponseEnvelope| envelope@)
}

impl View for ResponseEnvelope {
    type V = EnvelopeView;

    open spec fn view(&self) -> EnvelopeView {
        EnvelopeView { kind: self.kind@, fields: fields_view(self.fields@) }
    }
}

/// The fields that a caller names for an envelope, as mathematical values.
pub open spec fn named_view(named: Seq<(&str, &[u8])>) -> Seq<(Seq<char>, Seq<u8>)> {
    named.map_values(|field: (&str, &[u8])| (field.0@, field.1@))
}

/// Builds the envelope of kind `name` whose fields are `named_bytestrings`, in
/// their order, and beside it the list of the fields' binary values, in the
/// same order.
pub fn make_obj_and_save_buffers(name: &str, named_bytestrings: &[(&str, &[u8])]) -> (made: (
    ResponseEnvelope,
    Vec<Vec<u8>>,
))
    ensures
        made.0@ == (EnvelopeView { kind: name@, fields: named_view(named_bytestrings@) }),
        bytes_view(made.1@) == made.0@.buffers(),
{
    let mut fields: Vec<(String, Vec<u8>)> = Vec::new();
    let mut buffers: Vec<Vec<u8>> = Vec::new();
    let mut i: usize = 0;
    while i < named_bytestrings.len()
        invariant
            0 <= i <= named_bytestrings@.len(),
            fields@.len() == i,
            buffers@.len() == i,
            forall|j: int|
                0 <= j < i ==> (#[trigger] fields@[j]).0@ == named_bytestrings@[j].0@ && fields@[j].1@
                    == named_bytestrings@[j].1@,
            forall|j: int| 0 <= j < i ==> (#[trigger] buffers@[j])@ == named_bytestrings@[j].1@,
        decreases named_bytestrings@.len() - i,
    {
        let field_name: &str = named_bytestrings[i].0;
        let bytes: &[u8] = named_bytestrings[i].1;
        fields.push((field_name.to_owned(), slice_to_vec(bytes)));
        buffers.push(slice_to_vec(bytes));
        i = i + 1;
    }
    let envelope = ResponseEnvelope { kind: name.to_owned(), fields };
    proof {
        assert(fields_view(envelope.fields@) =~= named_view(named_bytestrings@));
        assert(bytes_view(buffers@) =~= envelope@.buffers());
    }
    (envelope, buffers)
}

/// The welcome message for a newly admitted member and the snapshot of the
/// membership tree that goes with it, both serialized.
#[derive(Clone, Debug, PartialEq, Eq)]
pub struct WelcomePackage {
    pub welcome: Vec<u8>,
    pub ratchet_tree: Vec<u8>,
}

/// What a lifecycle command produced, each part serialized. Every part may be
/// there or not, independently of the others.
#[derive(Clone, Debug, PartialEq, Eq)]
pub struct ResultAggregate {
    pub new_safety_number: Option<Vec<u8>>,
    pub key_package: Option<Vec<u8>>,
    pub welcome_package: Option<WelcomePackage>,
    pub proposals: Vec<Vec<u8>>,
}

/// A `ResultAggregate` as a mathematical value; the welcome package is the
/// pair of the welcome message and the ratchet tree.
pub struct AggregateView {
    pub new_safety_number: Option<Seq<u8>>,
    pub key_package: Option<Seq<u8>>,
    pub welcome_package: Option<(Seq<u8>, Seq<u8>)>,
    pub proposals: Seq<Seq<u8>>,
}

impl View for ResultAggregate {
    type V = AggregateView;

    open spec fn view(&self) -> AggregateView {
        AggregateView {
            new_safety_number: match self.new_safety_number {
                Some(hash) => Some(hash@),
                None => None,
            },
            key_package: match self.key_package {
                Some(key_package) => Some(key_package@),
                None => None,
            },
            welcome_package: match self.welcome_package {
                Some(package) => Some((package.welcome@, package.ratchet_tree@)),
                None => None,
            },
            proposals: bytes_view(self.proposals@),
        }
    }
}

impl AggregateView {
    /// Whether no part is there.
    pub open spec fn is_empty(self) -> bool {
        &&& self.new_safety_number is None
        &&& self.key_package is None
        &&& self.welcome_package is None
        &&& self.proposals.len() == 0
    }
}

/// The envelope that announces a new safety number.
pub open spec fn safety_number_envelope(hash: Seq<u8>) -> EnvelopeView {
    EnvelopeView { kind: "newSafetyNumber"@, fields: seq![("hash"@, hash)] }
}

/// The envelope that shares the local identity's key package.
pub open spec fn key_package_envelope(key_package: Seq<u8>) -> EnvelopeView {
    EnvelopeView { kind: "shareKeyPackage"@, fields: seq![("keyPkg"@, key_package)] }
}

/// The envelope that carries a welcome package to a new member.
pub open spec fn welcome_envelope(welcome: Seq<u8>, ratchet_tree: Seq<u8>) -> EnvelopeView {
    EnvelopeView {
        kind: "sendMlsWelcome"@,
        fields: seq![("welcome"@, welcome), ("rtree"@, ratchet_tree)],
    }
}

/// The envelope that carries one proposal message to the existing members.
pub open spec fn message_envelope(message: Seq<u8>) -> EnvelopeView {
    EnvelopeView { kind: "sendMlsMessage"@, fields: seq![("msg"@, message)] }
}

/// The envelopes of a reply, in their fixed order: the safety number, the key
/// package, the welcome package, then one envelope for each proposal in the
/// order of the proposals; a part that is not there has no envelope.
pub open spec fn envelopes_for(aggregate: AggregateView) -> Seq<EnvelopeView> {
    (match aggregate.new_safety_number {
        Some(hash) => seq![safety_number_envelope(hash)],
        None => Seq::empty(),
    }) + (match aggregate.key_package {
        Some(key_package) => seq![key_package_envelope(key_package)],
        None => Seq::empty(),
    }) + (match aggregate.welcome_package {
        Some((welcome, ratchet_tree)) => seq![welcome_envelope(welcome, ratchet_tree)],
        None => Seq::empty(),
    }) + aggregate.proposals.map_values(|message: Seq<u8>| message_envelope(message))
}

/// The binary values of a reply, in the order in which `envelopes_for` names
/// them: the safety number, the key package, the welcome message and its
/// ratchet tree, then the proposals.
pub open spec fn buffers_for(aggregate: AggregateView) -> Seq<Seq<u8>> {
    (match aggregate.new_safety_number {
        Some(hash) => seq![hash],
        None => Seq::empty(),
    }) + (match aggregate.key_package {
        Some(key_package) => seq![key_package],
        None => Seq::empty(),
    }) + (match aggregate.welcome_package {
        Some((welcome, ratchet_tree)) => seq![welcome, ratchet_tree],
        None => Seq::empty(),
    }) + aggregate.proposals
}

/// The binary values of all fields of `envelopes`, envelope by envelope and,
/// within an envelope, field by field.
pub open spec fn flattened_buffers(envelopes: Seq<EnvelopeView>) -> Seq<Seq<u8>>
    decreases envelopes.len(),
{
    if envelopes.len() == 0 {
        Seq::empty()
    } else {
        flattened_buffers(envelopes.drop_last()) + envelopes.last().buffers()
    }
}

/// A reply to the host: the envelopes, and the binary values that are to be
/// handed over with them.
#[derive(Clone, Debug, PartialEq, Eq)]
pub struct MarshaledResponse {
    pub envelopes: Vec<ResponseEnvelope>,
    pub buffers: Vec<Vec<u8>>,
}

impl MarshaledResponse {
    /// Whether `buffers` holds exactly the binary fields of `envelopes`, in
    /// their order.
    pub open spec fn wf(&self) -> bool {
        bytes_view(self.buffers@) == flattened_buffers(envelopes_view(self.envelopes@))
    }

    /// The empty reply.
    pub fn new() -> (response: MarshaledResponse)
        ensures
            response.envelopes@.len() == 0,
            response.buffers@.len() == 0,
            response.wf(),
    {
        let response = MarshaledResponse { envelopes: Vec::new(), buffers: Vec::new() };
        proof {
            assert(bytes_view(response.buffers@) =~= Seq::<Seq<u8>>::empty());
        }
        response
    }

    /// Appends the envelope of kind `name` with the fields `named_bytestrings`,
    /// and its binary values.
    fn emit(&mut self, name: &str, named_bytestrings: &[(&str, &[u8])])
        requires
            old(self).wf(),
        ensures
            final(self).wf(),
            envelopes_view(final(self).envelopes@) == envelopes_view(old(self).envelopes@).push(
                EnvelopeView { kind: name@, fields: named_view(named_bytestrings@) },
            ),
            bytes_view(final(self).buffers@) == bytes_view(old(self).buffers@) + (EnvelopeView {
                kind: name@,
                fields: named_view(named_bytestrings@),
            }).buffers(),
    {
        let ghost envelopes_before = envelopes_view(self.envelopes@);
        let ghost buffers_before = bytes_view(self.buffers@);
        let (envelope, mut buffers) = make_obj_and_save_buffers(name, named_bytestrings);
        let ghost added = bytes_view(buffers@);
        self.envelopes.push(envelope);
        self.buffers.append(&mut buffers);
        proof {
            assert(envelopes_view(self.envelopes@) =~= envelopes_before.push(envelope@));
            assert(bytes_view(self.buffers@) =~= buffers_before + added);
            assert(envelopes_before.push(envelope@).drop_last() =~= envelopes_before);
        }
    }
}

/// What the caller handed over as a mathematical value: an aggregate, or no
/// result at all.
pub open spec fn reply_view(reply: Option<&ResultAggregate>) -> Option<AggregateView> {
    match reply {
        Some(aggregate) => Some(aggregate@),
        None => None,
    }
}

/// The envelopes of a reply; a command without a result has none.
pub open spec fn reply_envelopes(reply: Option<AggregateView>) -> Seq<EnvelopeView> {
    match reply {
        Some(aggregate) => envelopes_for(aggregate),
        None => Seq::empty(),
    }
}

/// The binary values of a reply; a command without a result has none.
pub open spec fn reply_buffers(reply: Option<AggregateView>) -> Seq<Seq<u8>> {
    match reply {
        Some(aggregate) => buffers_for(aggregate),
        None => Seq::empty(),
    }
}

/// Turns what a command produced into the reply for the host.
///
/// The envelopes come in the fixed order of `envelopes_for`, one for each part
/// that is there; the buffers are the binary values of their fields in the
/// same order. Without a result, or with one of which no part is there, both
/// lists are empty.
pub fn marshal_response(reply: Option<&ResultAggregate>) -> (response: MarshaledResponse)
    ensures
        envelopes_view(response.envelopes@) == reply_envelopes(reply_view(reply)),
        bytes_view(response.buffers@) == reply_buffers(reply_view(reply)),
        response.wf(),
        reply is None || reply_view(reply)->Some_0.is_empty() ==> response.envelopes@.len() == 0
            && response.buffers@.len() == 0,
{
    let mut response = MarshaledResponse::new();
    proof {
        assert(envelopes_view(response.envelopes@) =~= Seq::<EnvelopeView>::empty());
        assert(bytes_view(response.buffers@) =~= Seq::<Seq<u8>>::empty());
    }
    let aggregate = match reply {
        Some(aggregate) => aggregate,
        None => {
            return response;
        },
    };
    if let Some(hash) = &aggregate.new_safety_number {
        let mut named: Vec<(&str, &[u8])> = Vec::new();
        named.push(("hash", hash.as_slice()));
        proof {
            assert(named_view(named@) =~= seq![("hash"@, hash@)]);
        }
        response.emit("newSafetyNumber", named.as_slice());
    }
    if let Some(key_package) = &aggregate.key_package {
        let mut named: Vec<(&str, &[u8])> = Vec::new();
        named.push(("keyPkg", key_package.as_slice()));
        proof {
            assert(named_view(named@) =~= seq![("keyPkg"@, key_package@)]);
        }
        response.emit("shareKeyPackage", named.as_slice());
    }
    if let Some(package) = &aggregate.welcome_package {
        let mut named: Vec<(&str, &[u8])> = Vec::new();
        named.push(("welcome", package.welcome.as_slice()));
        named.push(("rtree", package.ratchet_tree.as_slice()));
        proof {
            assert(named_view(named@) =~= seq![
                ("welcome"@, package.welcome@),
                ("rtree"@, package.ratchet_tree@),
            ]);
        }
        response.emit("sendMlsWelcome", named.as_slice());
    }
    let ghost fixed_envelopes = envelopes_view(response.envelopes@);
    let ghost fixed_buffers = bytes_view(response.buffers@);
    let ghost proposals = aggregate@.proposals;
    proof {
        let empty = AggregateView { proposals: Seq::empty(), ..aggregate@ };
        assert(fixed_envelopes =~= envelopes_for(empty));
        assert(fixed_buffers =~= buffers_for(empty));
    }
    let mut i: usize = 0;
    while i < aggregate.proposals.len()
        invariant
            0 <= i <= aggregate.proposals@.len(),
            proposals == aggregate@.proposals,
            response.wf(),
            envelopes_view(response.envelopes@) == fixed_envelopes + proposals.take(
                i as int,
            ).map_values(|message: Seq<u8>| message_envelope(message)),
            bytes_view(response.buffers@) == fixed_buffers + proposals.take(i as int),
        decreases aggregate.proposals@.len() - i,
    {
        let message: &Vec<u8> = &aggregate.proposals[i];
        let mut named: Vec<(&str, &[u8])> = Vec::new();
        named.push(("msg", message.as_slice()));
        proof {
            assert(named_view(named@) =~= seq![("msg"@, message@)]);
            assert(proposals[i as int] == message@);
        }
        response.emit("sendMlsMessage", named.as_slice());
        proof {
            let done = proposals.take(i as int);
            let next = proposals.take(i + 1);
            assert(next =~= done.push(message@));
            assert(next.map_values(|message: Seq<u8>| message_envelope(message)) =~= done.map_values(
                |message: Seq<u8>| message_envelope(message),
            ).push(message_envelope(message@)));
            assert(message_envelope(message@).buffers() =~= seq![message@]);
            assert(envelopes_view(response.envelopes@) =~= fixed_envelopes + next.map_values(
                |message: Seq<u8>| message_envelope(message),
            ));
            assert(bytes_view(response.buffers@) =~= fixed_buffers + next);
        }
        i = i + 1;
    }
    proof {
        assert(proposals.take(i as int) =~= proposals);
        assert(envelopes_view(response.envelopes@) =~= envelopes_for(aggregate@));
        assert(bytes_view(response.buffers@) =~= buffers_for(aggregate@));
    }
    response
}

/// Flattening goes through concatenation: the binary values of two lists of
/// envelopes, one behind the other, are those of the first followed by those
/// of the second.
pub proof fn lemma_flattened_buffers_concat(front: Seq<EnvelopeView>, back: Seq<EnvelopeView>)
    ensures
        flattened_buffers(front + back) == flattened_buffers(front) + flattened_buffers(back),
    decreases back.len(),
{
    if back.len() == 0 {
        assert(front + back =~= front);
        assert(flattened_buffers(front) + flattened_buffers(back) =~= flattened_buffers(front));
    } else {
        lemma_flattened_buffers_concat(front, back.drop_last());
        assert((front + back).drop_last() =~= front + back.drop_last());
        assert((front + back).last() == back.last());
        assert(flattened_buffers(front + back) =~= flattened_buffers(front) + flattened_buffers(
            back,
        ));
    }
}

/// The envelopes of the proposals hold exactly the proposals, one binary value
/// each, in order.
proof fn lemma_flattened_message_envelopes(proposals: Seq<Seq<u8>>)
    ensures
        flattened_buffers(proposals.map_values(|message: Seq<u8>| message_envelope(message)))
            == proposals,
    decreases proposals.len(),
{
    let envelopes = proposals.map_values(|message: Seq<u8>| message_envelope(message));
    if proposals.len() == 0 {
        assert(flattened_buffers(envelopes) =~= proposals);
    } else {
        lemma_flattened_message_envelopes(proposals.drop_last());
        assert(envelopes.drop_last() =~= proposals.drop_last().map_values(
            |message: Seq<u8>| message_envelope(message),
        ));
        assert(envelopes.last().buffers() =~= seq![proposals.last()]);
        assert(flattened_buffers(envelopes) =~= proposals);
    }
}

/// The buffers of a reply are exactly the binary fields of its envelopes,
/// flattened from left to right, envelope by envelope.
pub proof fn lemma_buffers_are_flattened_envelopes(aggregate: AggregateView)
    ensures
        flattened_buffers(envelopes_for(aggregate)) == buffers_for(aggregate),
{
    let safety: Seq<EnvelopeView> = match aggregate.new_safety_number {
        Some(hash) => seq![safety_number_envelope(hash)],
        None => Seq::empty(),
    };
    let key: Seq<EnvelopeView> = match aggregate.key_package {
        Some(key_package) => seq![key_package_envelope(key_package)],
        None => Seq::empty(),
    };
    let welcome: Seq<EnvelopeView> = match aggregate.welcome_package {
        Some((welcome, ratchet_tree)) => seq![welcome_envelope(welcome, ratchet_tree)],
        None => Seq::empty(),
    };
    let messages = aggregate.proposals.map_values(|message: Seq<u8>| message_envelope(message));
    lemma_flattened_single(safety);
    lemma_flattened_single(key);
    lemma_flattened_single(welcome);
    lemma_flattened_message_envelopes(aggregate.proposals);
    lemma_flattened_buffers_concat(safety, key);
    lemma_flattened_buffers_concat(safety + key, welcome);
    lemma_flattened_buffers_concat(safety + key + welcome, messages);
    if aggregate.new_safety_number is Some {
        assert(safety[0].buffers() =~= seq![aggregate.new_safety_number->Some_0]);
    }
    if aggregate.key_package is Some {
        assert(key[0].buffers() =~= seq![aggregate.key_package->Some_0]);
    }
    if aggregate.welcome_package is Some {
        let (message, ratchet_tree) = aggregate.welcome_package->Some_0;
        assert(welcome[0].buffers() =~= seq![message, ratchet_tree]);
    }
    assert(flattened_buffers(envelopes_for(aggregate)) =~= buffers_for(aggregate));
}

/// A list of at most one envelope flattens to that envelope's binary values.
proof fn lemma_flattened_single(envelopes: Seq<EnvelopeView>)
    requires
        envelopes.len() <= 1,
    ensures
        envelopes.len() == 0 ==> flattened_buffers(envelopes) == Seq::<Seq<u8>>::empty(),
        envelopes.len() == 1 ==> flattened_buffers(envelopes) == envelopes[0].buffers(),
{
    if envelopes.len() == 1 {
        assert(envelopes.drop_last().len() == 0);
        assert(flattened_buffers(envelopes.drop_last()) == Seq::<Seq<u8>>::empty());
        assert(flattened_buffers(envelopes) =~= envelopes[0].buffers());
    }
}

/// An aggregate of which no part is there marshals to no envelope and no
/// buffer, as a command without a result does.
pub proof fn lemma_empty_aggregate_has_empty_reply(aggregate: AggregateView)
    requires
        aggregate.is_empty(),
    ensures
        envelopes_for(aggregate) == Seq::<EnvelopeView>::empty(),
        buffers_for(aggregate) == Seq::<Seq<u8>>::empty(),
        reply_envelopes(Some(aggregate)) == reply_envelopes(None),
        reply_buffers(Some(aggregate)) == reply_buffers(None),
{
    assert(envelopes_for(aggregate) =~= Seq::<EnvelopeView>::empty());
    assert(buffers_for(aggregate) =~= Seq::<Seq<u8>>::empty());
}

} // verus!
