//! Publishing an envelope to the `score-requests` destination, and what a
//! request handler answers once the broker has reported on the publish.
use vstd::prelude::*;
use vstd::utf8::{decode_utf8, encode_utf8, encode_utf8_decode_utf8};
use crate::params::{is_object_text, PageScoreParameters, ScoreParameters, SiteScoreParameters};
use crate::response::{queued_message, QueueResponse};
use crate::wire::{envelope_text, lemma_round_trip, to_json};

verus! {

/// `score-requests`, the queue that every envelope is published to.
pub open spec fn destination() -> Seq<char> {
    seq!['s', 'c', 'o', 'r', 'e', '-', 'r', 'e', 'q', 'u', 'e', 's', 't', 's']
}

/// The bytes of the message that carries an envelope: its JSON text in UTF-8.
pub open spec fn message_bytes(e: ScoreParameters) -> Seq<u8> {
    encode_utf8(envelope_text(e))
}

/// One publish on the shared channel: the default exchange (the empty name),
/// the destination queue as routing key, the message bytes, and delivery
/// that is neither mandatory nor immediate.
pub struct PublishRequest {
    pub exchange: String,
    pub routing_key: String,
    pub payload: Vec<u8>,
    pub mandatory: bool,
    pub immediate: bool,
}

/// Whether `r` is the publish of an envelope whose message is `bytes`.
pub open spec fn is_publish_of(r: PublishRequest, bytes: Seq<u8>) -> bool {
    &&& r.exchange@.len() == 0
    &&& r.routing_key@ == destination()
    &&& r.payload@ == bytes
    &&& !r.mandatory
    &&& !r.immediate
}

/// What the broker's confirmation of a publish said.
pub enum Confirmation {
    /// The broker acknowledged the message.
    Ack,
    /// The broker refused the message.
    Nack,
    /// The channel is not in confirm mode, so no confirmation was asked for
    /// and nothing came from the broker about the message.
    NotRequested,
}

/// How a publish ended.
pub enum PublishOutcome {
    /// The publish frame could not be handed to the broker.
    SendFailed,
    /// The frame was sent but waiting for its confirmation failed.
    ConfirmFailed,
    /// The frame was sent and the broker answered.
    Confirmed(Confirmation),
}

/// Why a publish did not enqueue the message.
#[derive(PartialEq, Eq, Structural, Debug)]
pub enum PublishError {
    /// The publish frame could not be handed to the broker.
    Send,
    /// No confirmation of the publish could be had.
    Confirm,
    /// The broker refused the message.
    Rejected,
    /// The channel asked for no confirmation, so the broker never
    /// acknowledged the message.
    Unconfirmed,
}

/// Whether the broker acknowledged the message.
pub open spec fn acknowledged(o: PublishOutcome) -> bool {
    o matches PublishOutcome::Confirmed(Confirmation::Ack)
}

/// The error that a publish with outcome `o` ends in, if it failed.
pub open spec fn outcome_error(o: PublishOutcome) -> Option<PublishError> {
    match o {
        PublishOutcome::SendFailed => Some(PublishError::Send),
        PublishOutcome::ConfirmFailed => Some(PublishError::Confirm),
        PublishOutcome::Confirmed(Confirmation::Nack) => Some(PublishError::Rejected),
        PublishOutcome::Confirmed(Confirmation::NotRequested) => Some(PublishError::Unconfirmed),
        PublishOutcome::Confirmed(Confirmation::Ack) => None,
    }
}

/// The publish that carries `parameters` to the `score-requests` queue.
pub fn send_score_request_to_queue(parameters: &ScoreParameters) -> (r: PublishRequest)
    ensures
        is_publish_of(r, message_bytes(*parameters)),
{
    proof {
        reveal_strlit("score-requests");
    }
    let text = to_json(parameters);
    let routing_key = String::from_str("score-requests");
    assert(routing_key@ =~= destination());
    PublishRequest {
        exchange: String::new(),
        routing_key,
        payload: text.as_str().as_bytes_vec(),
        mandatory: false,
        immediate: false,
    }
}

/// The first half of the page handler: wraps the parameters in an envelope
/// with the `page` slot filled and gives the publish that carries it.
pub fn handle_queue_page(page: PageScoreParameters) -> (r: PublishRequest)
    ensures
        is_publish_of(r, message_bytes(ScoreParameters::Page(page))),
{
    let parameters = ScoreParameters::from_page(page);
    send_score_request_to_queue(&parameters)
}

/// The first half of the site handler: wraps the parameters in an envelope
/// with the `site` slot filled and gives the publish that carries it.
pub fn handle_queue_site(site: SiteScoreParameters) -> (r: PublishRequest)
    ensures
        is_publish_of(r, message_bytes(ScoreParameters::Site(site))),
{
    let parameters = ScoreParameters::from_site(site);
    send_score_request_to_queue(&parameters)
}

/// The second half of both handlers: the `Queued` response once the broker
/// has acknowledged the message, and the publish's error otherwise.
pub fn queue_response(outcome: PublishOutcome) -> (r: Result<QueueResponse, PublishError>)
    ensures
        r is Ok <==> acknowledged(outcome),
        r matches Ok(resp) ==> resp.code == 200 && resp.message@ == queued_message(),
        r matches Err(e) ==> outcome_error(outcome) == Some(e),
{
    match outcome {
        PublishOutcome::SendFailed => Err(PublishError::Send),
        PublishOutcome::ConfirmFailed => Err(PublishError::Confirm),
        PublishOutcome::Confirmed(Confirmation::Nack) => Err(PublishError::Rejected),
        PublishOutcome::Confirmed(Confirmation::NotRequested) => Err(PublishError::Unconfirmed),
        PublishOutcome::Confirmed(Confirmation::Ack) => Ok(QueueResponse::queued()),
    }
}

/// The messages that the `score-requests` queue gains when the handlers
/// serve the envelopes `envs` in turn and their publishes end in `outcomes`:
/// one message for each publish that the broker acknowledged, none for the
/// others.
pub open spec fn enqueued(envs: Seq<ScoreParameters>, outcomes: Seq<PublishOutcome>) -> Seq<Seq<u8>>
    decreases envs.len(),
{
    if envs.len() == 0 || outcomes.len() != envs.len() {
        seq![]
    } else {
        let earlier = enqueued(envs.drop_last(), outcomes.drop_last());
        if acknowledged(outcomes.last()) {
            earlier.push(message_bytes(envs.last()))
        } else {
            earlier
        }
    }
}

/// The message of a page request, read back, fills the `page` slot with the
/// request's parameters and leaves the `site` slot empty.
pub proof fn lemma_page_message(page: PageScoreParameters, read: ScoreParameters)
    requires
        is_object_text(page@),
        is_object_text(read.payload()),
        envelope_text(read) == decode_utf8(message_bytes(ScoreParameters::Page(page))),
    ensures
        read.page_slot() == Some(page@),
        read.site_slot() is None,
{
    lemma_message_round_trip(ScoreParameters::Page(page), read);
}

/// The message of a site request, read back, fills the `site` slot with the
/// request's parameters and leaves the `page` slot empty.
pub proof fn lemma_site_message(site: SiteScoreParameters, read: ScoreParameters)
    requires
        is_object_text(site@),
        is_object_text(read.payload()),
        envelope_text(read) == decode_utf8(message_bytes(ScoreParameters::Site(site))),
    ensures
        read.page_slot() is None,
        read.site_slot() == Some(site@),
{
    lemma_message_round_trip(ScoreParameters::Site(site), read);
}

/// Decoding the bytes of an envelope's message and reading the envelope
/// back gives the same filled slot with the same parameters.
pub proof fn lemma_message_round_trip(e: ScoreParameters, read: ScoreParameters)
    requires
        is_object_text(e.payload()),
        is_object_text(read.payload()),
        envelope_text(read) == decode_utf8(message_bytes(e)),
    ensures
        read.page_slot() == e.page_slot(),
        read.site_slot() == e.site_slot(),
{
    encode_utf8_decode_utf8(envelope_text(e));
    lemma_round_trip(e, read);
}

/// A handler call on which the broker took the message adds exactly one
/// message to the queue; one on which it did not adds none.
pub proof fn lemma_one_message_per_success(e: ScoreParameters, o: PublishOutcome)
    ensures
        acknowledged(o) ==> enqueued(seq![e], seq![o]) == seq![message_bytes(e)],
        !acknowledged(o) ==> enqueued(seq![e], seq![o]).len() == 0,
{
    assert(seq![e].drop_last() =~= Seq::<ScoreParameters>::empty());
    assert(seq![o].drop_last() =~= Seq::<PublishOutcome>::empty());
    assert(enqueued(Seq::<ScoreParameters>::empty(), Seq::<PublishOutcome>::empty()) == Seq::<Seq<u8>>::empty());
    assert(seq![message_bytes(e)] =~= Seq::<Seq<u8>>::empty().push(message_bytes(e)));
}

/// Two identical requests whose publishes both succeed leave two messages on
/// the queue, the same bytes twice: nothing folds a repeated request into the
/// first.
pub proof fn lemma_no_deduplication(e: ScoreParameters, o1: PublishOutcome, o2: PublishOutcome)
    requires
        acknowledged(o1),
        acknowledged(o2),
    ensures
        enqueued(seq![e, e], seq![o1, o2]) == seq![message_bytes(e), message_bytes(e)],
{
    lemma_one_message_per_success(e, o1);
    assert(seq![e, e].drop_last() =~= seq![e]);
    assert(seq![o1, o2].drop_last() =~= seq![o1]);
    assert(seq![message_bytes(e)].push(message_bytes(e)) =~= seq![message_bytes(e), message_bytes(e)]);
}

} // verus!
