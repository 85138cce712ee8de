use vstd::prelude::*;
use vstd::utf8::{decode_utf8, valid_utf8};

use crate::error::Error;
use crate::http::{STATUS_BAD_REQUEST, STATUS_INTERNAL_ERROR, STATUS_OK};
use crate::keypair::Keypair;

verus! {

/// A request to reveal several sealed values at once: the token that the
/// human-verification service is asked about, and the sealed texts. The same
/// text may occur more than once; each occurrence is handled by itself.
#[derive(Debug, PartialEq, Eq)]
pub struct DecryptBatchRequest {
    pub token: String,
    pub secrets: Vec<String>,
}

/// What a `DecryptBatchRequest` stands for.
pub struct RequestView {
    pub token: Seq<char>,
    pub secrets: Seq<Seq<char>>,
}

impl View for DecryptBatchRequest {
    type V = RequestView;

    open spec fn view(&self) -> RequestView {
        RequestView { token: self.token@, secrets: texts(self.secrets@) }
    }
}

/// The texts that a sequence of strings holds, in order.
pub open spec fn texts(strings: Seq<String>) -> Seq<Seq<char>> {
    Seq::new(strings.len(), |i: int| strings[i]@)
}

/// What came of one sealed text of a batch: the text as it was sent, and
/// either the plaintext or the reason why there is none.
#[derive(Debug, PartialEq, Eq)]
pub struct BatchEntry {
    pub secret: String,
    pub outcome: Result<String, Error>,
}

/// What a `BatchEntry` stands for.
pub struct EntryView {
    pub secret: Seq<char>,
    pub outcome: Result<Seq<char>, Error>,
}

impl View for BatchEntry {
    type V = EntryView;

    open spec fn view(&self) -> EntryView {
        EntryView {
            secret: self.secret@,
            outcome: match self.outcome {
                Ok(text) => Ok(text@),
                Err(e) => Err(e),
            },
        }
    }
}

/// What came of a batch: one entry for each sealed text of the request, in
/// the order of the request.
#[derive(Debug, PartialEq, Eq)]
pub struct DecryptBatchResult {
    pub entries: Vec<BatchEntry>,
}

impl View for DecryptBatchResult {
    type V = Seq<EntryView>;

    open spec fn view(&self) -> Seq<EntryView> {
        Seq::new(self.entries@.len(), |i: int| self.entries@[i]@)
    }
}

/// What revealing one sealed text under a secret key gives: the plaintext
/// as text, or the first thing that went wrong: `InvalidHex`, then
/// `AuthenticationFailure`, then `InvalidUtf8`.
pub open spec fn outcome_spec(key: Seq<u8>, secret: Seq<char>) -> Result<Seq<char>, Error> {
    match Keypair::decrypt_spec(key, secret) {
        Err(e) => Err(e),
        Ok(bytes) => if valid_utf8(bytes) {
            Ok(decode_utf8(bytes))
        } else {
            Err(Error::InvalidUtf8)
        },
    }
}

/// The entry of one sealed text.
pub open spec fn entry_spec(key: Seq<u8>, secret: Seq<char>) -> EntryView {
    EntryView { secret, outcome: outcome_spec(key, secret) }
}

/// What revealing a batch gives: the entry of each sealed text, in order.
/// No entry depends on another.
pub open spec fn batch_spec(key: Seq<u8>, secrets: Seq<Seq<char>>) -> Seq<EntryView> {
    Seq::new(secrets.len(), |i: int| entry_spec(key, secrets[i]))
}

/// The text shown for an entry: the plaintext, or a fixed message for the
/// kind of failure. The message says nothing of the key or of the value.
pub open spec fn shown_spec(outcome: Result<Seq<char>, Error>) -> Seq<char> {
    match outcome {
        Ok(text) => text,
        Err(Error::InvalidHex) => "Could not decrypt secret: invalid hex"@,
        Err(Error::InvalidKeyLength(_)) => "Could not decrypt secret: invalid key"@,
        Err(Error::AuthenticationFailure) => "Could not decrypt secret: invalid message"@,
        Err(Error::InvalidUtf8) => "Invalid UTF-8 value"@,
    }
}

/// `FromUtf8Error` of std, of which nothing is read: every value of it
/// becomes `InvalidUtf8`.
#[verifier::external_type_specification]
#[verifier::external_body]
pub struct ExFromUtf8Error(std::string::FromUtf8Error);

/// `String::from_utf8` of std, which turns bytes that are valid UTF-8 into
/// the string that they encode, and fails on any other bytes.
pub assume_specification[ String::from_utf8 ](vec: Vec<u8>) -> (outcome: Result<
    String,
    std::string::FromUtf8Error,
>)
    ensures
        outcome is Ok <==> valid_utf8(vec@),
        outcome matches Ok(text) ==> text@ == decode_utf8(vec@),
;

/// Reveals one sealed text: reads it as hexadecimal, opens it with the key
/// pair, and reads what it held as UTF-8 text.
pub fn decrypt_entry(keypair: &Keypair, secret: &str) -> (outcome: Result<String, Error>)
    ensures
        match outcome {
            Ok(text) => outcome_spec(keypair@, secret@) == Ok::<Seq<char>, Error>(text@),
            Err(e) => outcome_spec(keypair@, secret@) == Err::<Seq<char>, Error>(e),
        },
{
    match keypair.decrypt(secret) {
        Err(e) => Err(e),
        Ok(bytes) => match String::from_utf8(bytes) {
            Ok(text) => Ok(text),
            Err(_) => Err(Error::InvalidUtf8),
        },
    }
}

/// Reveals each sealed text of a batch by itself. A text that cannot be
/// revealed gets an entry that says why, and the others are not touched by
/// it: the result has one entry for each text, in order, whatever failed.
pub fn decrypt_batch(keypair: &Keypair, secrets: &Vec<String>) -> (result: DecryptBatchResult)
    ensures
        result@ == batch_spec(keypair@, texts(secrets@)),
        result.entries@.len() == secrets@.len(),
{
    let mut entries: Vec<BatchEntry> = Vec::new();
    let mut i: usize = 0;
    while i < secrets.len()
        invariant
            i <= secrets@.len(),
            entries@.len() == i,
            forall|j: int|
                0 <= j < i ==> (#[trigger] entries@[j])@ == entry_spec(keypair@, secrets@[j]@),
        decreases secrets@.len() - i,
    {
        let secret = &secrets[i];
        let outcome = decrypt_entry(keypair, secret.as_str());
        entries.push(BatchEntry { secret: secret.clone(), outcome });
        i += 1;
    }
    let result = DecryptBatchResult { entries };
    assert(result@ =~= batch_spec(keypair@, texts(secrets@)));
    result
}

/// What is shown for a batch: for each entry its sealed text and the text
/// shown for it, in order.
pub open spec fn decrypted_spec(entries: Seq<EntryView>) -> Seq<(Seq<char>, Seq<char>)> {
    Seq::new(entries.len(), |i: int| (entries[i].secret, shown_spec(entries[i].outcome)))
}

/// What a sequence of pairs of strings holds, in order.
pub open spec fn text_pairs(pairs: Seq<(String, String)>) -> Seq<(Seq<char>, Seq<char>)> {
    Seq::new(pairs.len(), |i: int| (pairs[i].0@, pairs[i].1@))
}

impl DecryptBatchResult {
    /// The body of the reply: each sealed text with the text shown for it.
    /// Here, and nowhere before, plaintexts and failures become one kind of
    /// text.
    pub fn decrypted(&self) -> (pairs: Vec<(String, String)>)
        ensures
            text_pairs(pairs@) == decrypted_spec(self@),
    {
        let mut pairs: Vec<(String, String)> = Vec::new();
        let mut i: usize = 0;
        while i < self.entries.len()
            invariant
                i <= self.entries@.len(),
                pairs@.len() == i,
                forall|j: int|
                    0 <= j < i ==> {
                        &&& (#[trigger] pairs@[j]).0@ == self.entries@[j]@.secret
                        &&& pairs@[j].1@ == shown_spec(self.entries@[j]@.outcome)
                    },
            decreases self.entries@.len() - i,
        {
            let entry = &self.entries[i];
            pairs.push((entry.secret.clone(), entry.shown()));
            i += 1;
        }
        assert(text_pairs(pairs@) =~= decrypted_spec(self@));
        pairs
    }
}

impl BatchEntry {
    /// The text to show for this entry: the plaintext where there is one,
    /// else a fixed message for the kind of failure.
    pub fn shown(&self) -> (text: String)
        ensures
            text@ == shown_spec(self@.outcome),
    {
        match &self.outcome {
            Ok(text) => text.clone(),
            Err(Error::InvalidHex) => "Could not decrypt secret: invalid hex".to_owned(),
            Err(Error::InvalidKeyLength(_)) => "Could not decrypt secret: invalid key".to_owned(),
            Err(Error::AuthenticationFailure) => {
                "Could not decrypt secret: invalid message".to_owned()
            },
            Err(Error::InvalidUtf8) => "Invalid UTF-8 value".to_owned(),
        }
    }
}

/// The reply to a batch request. Its status says how the verification went
/// and nothing else: a batch that was let through is a success whatever came
/// of its entries.
#[derive(Debug, PartialEq, Eq)]
pub enum GateResponse {
    /// The verification passed: here is what came of each sealed text.
    Success(DecryptBatchResult),
    /// The request is refused, with the reason.
    BadRequest(String),
    /// The verification service could not be asked. The message says no
    /// more than that.
    InternalError(String),
}

/// What a `GateResponse` stands for.
pub enum ResponseView {
    Success(Seq<EntryView>),
    BadRequest(Seq<char>),
    InternalError(Seq<char>),
}

impl View for GateResponse {
    type V = ResponseView;

    open spec fn view(&self) -> ResponseView {
        match self {
            GateResponse::Success(result) => ResponseView::Success(result@),
            GateResponse::BadRequest(reason) => ResponseView::BadRequest(reason@),
            GateResponse::InternalError(reason) => ResponseView::InternalError(reason@),
        }
    }
}

impl ResponseView {
    /// The HTTP status of a reply.
    pub open spec fn status(self) -> u16 {
        match self {
            ResponseView::Success(_) => STATUS_OK,
            ResponseView::BadRequest(_) => STATUS_BAD_REQUEST,
            ResponseView::InternalError(_) => STATUS_INTERNAL_ERROR,
        }
    }
}

impl GateResponse {
    /// The HTTP status of this reply.
    pub fn status(&self) -> (code: u16)
        ensures
            code == self@.status(),
    {
        match self {
            GateResponse::Success(_) => STATUS_OK,
            GateResponse::BadRequest(_) => STATUS_BAD_REQUEST,
            GateResponse::InternalError(_) => STATUS_INTERNAL_ERROR,
        }
    }
}

/// Where the handling of one batch request stands. It waits in
/// `Received` for the body to be read and in `Verifying` for the
/// verification service; in `Responded` it has answered and is done.
#[derive(Debug, PartialEq, Eq)]
pub enum GateState {
    /// Nothing is known of the request yet.
    Received,
    /// The verification service is being asked about the token; these are
    /// the sealed texts that wait for its answer.
    Verifying(Vec<String>),
    /// The reply has been given.
    Responded,
}

/// What a `GateState` stands for.
pub enum StateView {
    Received,
    Verifying(Seq<Seq<char>>),
    Responded,
}

impl View for GateState {
    type V = StateView;

    open spec fn view(&self) -> StateView {
        match self {
            GateState::Received => StateView::Received,
            GateState::Verifying(secrets) => StateView::Verifying(texts(secrets@)),
            GateState::Responded => StateView::Responded,
        }
    }
}

/// What happened outside: what the caller reports of the body and of the
/// verification service.
#[derive(Debug, PartialEq, Eq)]
pub enum GateEvent {
    /// The body of the request could not be read as a batch request.
    Malformed,
    /// The body of the request was read.
    Parsed(DecryptBatchRequest),
    /// The verification service could not be reached, did not answer in
    /// time, or gave an answer that could not be understood.
    VerifierFailed,
    /// The verification service answered: the token is good, or it is not.
    Verified(bool),
}

/// What a `GateEvent` stands for.
pub enum EventView {
    Malformed,
    Parsed(RequestView),
    VerifierFailed,
    Verified(bool),
}

impl View for GateEvent {
    type V = EventView;

    open spec fn view(&self) -> EventView {
        match self {
            GateEvent::Malformed => EventView::Malformed,
            GateEvent::Parsed(request) => EventView::Parsed(request@),
            GateEvent::VerifierFailed => EventView::VerifierFailed,
            GateEvent::Verified(good) => EventView::Verified(*good),
        }
    }
}

/// What the caller is to do next.
#[derive(Debug, PartialEq, Eq)]
pub enum GateAction {
    /// Ask the verification service about this token, once, and come back
    /// with `Verified` or `VerifierFailed`.
    Verify(String),
    /// Send this reply.
    Respond(GateResponse),
    /// Nothing: the event does not belong to the state.
    Ignore,
}

/// What a `GateAction` stands for.
pub enum ActionView {
    Verify(Seq<char>),
    Respond(ResponseView),
    Ignore,
}

impl View for GateAction {
    type V = ActionView;

    open spec fn view(&self) -> ActionView {
        match self {
            GateAction::Verify(token) => ActionView::Verify(token@),
            GateAction::Respond(response) => ActionView::Respond(response@),
            GateAction::Ignore => ActionView::Ignore,
        }
    }
}

/// The next state and the action for each state and event.
///
/// A malformed body is refused at once and the service is not asked. A body
/// that was read has the service asked about its token. An answer that did
/// not come is an internal error; a bad token is refused; a good token has
/// the batch revealed under the secret key `key`. An event that does not
/// belong to the state changes nothing.
pub open spec fn step_spec(state: StateView, event: EventView, key: Seq<u8>) -> (
    StateView,
    ActionView,
) {
    match (state, event) {
        (StateView::Received, EventView::Malformed) => (
            StateView::Responded,
            ActionView::Respond(ResponseView::BadRequest("Invalid request"@)),
        ),
        (StateView::Received, EventView::Parsed(request)) => (
            StateView::Verifying(request.secrets),
            ActionView::Verify(request.token),
        ),
        (StateView::Verifying(_), EventView::VerifierFailed) => (
            StateView::Responded,
            ActionView::Respond(ResponseView::InternalError("An internal error occurred"@)),
        ),
        (StateView::Verifying(_), EventView::Verified(false)) => (
            StateView::Responded,
            ActionView::Respond(ResponseView::BadRequest("Recaptcha fail"@)),
        ),
        (StateView::Verifying(secrets), EventView::Verified(true)) => (
            StateView::Responded,
            ActionView::Respond(ResponseView::Success(batch_spec(key, secrets))),
        ),
        (state, _) => (state, ActionView::Ignore),
    }
}

/// Takes the handling of a request one step: from where it stands and what
/// happened to where it stands next and what is to be done. The caller does
/// what the action says and comes back with the event that follows from it.
pub fn step(state: GateState, event: GateEvent, keypair: &Keypair) -> (next: (
    GateState,
    GateAction,
))
    ensures
        (next.0@, next.1@) == step_spec(state@, event@, keypair@),
{
    match (state, event) {
        (GateState::Received, GateEvent::Malformed) => (
            GateState::Responded,
            GateAction::Respond(GateResponse::BadRequest("Invalid request".to_owned())),
        ),
        (GateState::Received, GateEvent::Parsed(request)) => (
            GateState::Verifying(request.secrets),
            GateAction::Verify(request.token),
        ),
        (GateState::Verifying(_), GateEvent::VerifierFailed) => (
            GateState::Responded,
            GateAction::Respond(
                GateResponse::InternalError("An internal error occurred".to_owned()),
            ),
        ),
        (GateState::Verifying(_), GateEvent::Verified(false)) => (
            GateState::Responded,
            GateAction::Respond(GateResponse::BadRequest("Recaptcha fail".to_owned())),
        ),
        (GateState::Verifying(secrets), GateEvent::Verified(true)) => {
            let result = decrypt_batch(keypair, &secrets);
            (GateState::Responded, GateAction::Respond(GateResponse::Success(result)))
        },
        (state, _) => (state, GateAction::Ignore),
    }
}

/// The actions that follow when the handling starts in `state` and is told
/// `events` one after the other.
pub open spec fn run_spec(state: StateView, events: Seq<EventView>, key: Seq<u8>) -> Seq<
    ActionView,
>
    decreases events.len(),
{
    if events.len() == 0 {
        Seq::empty()
    } else {
        let (next, action) = step_spec(state, events[0], key);
        seq![action] + run_spec(next, events.drop_first(), key)
    }
}

/// How many of `actions` ask the verification service.
pub open spec fn verifications(actions: Seq<ActionView>) -> nat
    decreases actions.len(),
{
    if actions.len() == 0 {
        0
    } else if actions[0] is Verify {
        1 + verifications(actions.drop_first())
    } else {
        verifications(actions.drop_first())
    }
}

/// How many of `actions` send a reply.
pub open spec fn responses(actions: Seq<ActionView>) -> nat
    decreases actions.len(),
{
    if actions.len() == 0 {
        0
    } else if actions[0] is Respond {
        1 + responses(actions.drop_first())
    } else {
        responses(actions.drop_first())
    }
}

/// A batch result has one entry for each sealed text of the request, and the
/// entry of a text depends on that text alone: wherever the same text
/// stands, in this batch or in another, its entry is the same.
pub proof fn lemma_entries_are_independent(
    key: Seq<u8>,
    secrets: Seq<Seq<char>>,
    others: Seq<Seq<char>>,
    i: int,
    j: int,
)
    requires
        0 <= i < secrets.len(),
        0 <= j < others.len(),
        secrets[i] == others[j],
    ensures
        batch_spec(key, secrets).len() == secrets.len(),
        batch_spec(key, secrets)[i].secret == secrets[i],
        batch_spec(key, secrets)[i] == batch_spec(key, others)[j],
{
}

/// What is shown for an entry is never empty where the entry failed.
pub proof fn lemma_failure_is_shown(e: Error)
    ensures
        shown_spec(Err(e)).len() > 0,
{
    reveal_strlit("Could not decrypt secret: invalid hex");
    reveal_strlit("Could not decrypt secret: invalid key");
    reveal_strlit("Could not decrypt secret: invalid message");
    reveal_strlit("Invalid UTF-8 value");
}

/// Plaintext is given out only after the verification service has said that
/// the token is good: a successful reply is the answer to `Verified(true)`
/// in state `Verifying`, and holds the batch of the texts that waited there.
pub proof fn lemma_success_needs_verification(state: StateView, event: EventView, key: Seq<u8>)
    ensures
        step_spec(state, event, key).1 matches ActionView::Respond(ResponseView::Success(result))
            ==> {
            &&& event == EventView::Verified(true)
            &&& state matches StateView::Verifying(secrets)
            &&& result == batch_spec(key, secrets)
        },
{
}

/// The status of a reply is decided by the verification alone: once the
/// service has been asked, it depends on its answer and not on the sealed
/// texts, so a batch that was let through succeeds even where no entry could
/// be revealed.
pub proof fn lemma_status_ignores_entries(
    secrets: Seq<Seq<char>>,
    others: Seq<Seq<char>>,
    event: EventView,
    key: Seq<u8>,
)
    requires
        event is VerifierFailed || event is Verified,
    ensures
        ({
            &&& step_spec(StateView::Verifying(secrets), event, key).1 matches ActionView::Respond(
                first,
            )
            &&& step_spec(StateView::Verifying(others), event, key).1 matches ActionView::Respond(
                second,
            )
            &&& first.status() == second.status()
            &&& first.status() == match event {
                EventView::Verified(true) => STATUS_OK,
                EventView::Verified(false) => STATUS_BAD_REQUEST,
                _ => STATUS_INTERNAL_ERROR,
            }
        }),
{
}

/// Once the reply has been given nothing follows: every further event is
/// ignored.
pub proof fn lemma_responded_is_final(events: Seq<EventView>, key: Seq<u8>)
    ensures
        verifications(run_spec(StateView::Responded, events, key)) == 0,
        responses(run_spec(StateView::Responded, events, key)) == 0,
    decreases events.len(),
{
    if events.len() > 0 {
        let rest = run_spec(StateView::Responded, events.drop_first(), key);
        lemma_responded_is_final(events.drop_first(), key);
        assert((seq![ActionView::Ignore] + rest).drop_first() =~= rest);
    }
}

/// While the service is being asked it is not asked again, and at most one
/// reply follows.
pub proof fn lemma_verifying_asks_no_more(
    secrets: Seq<Seq<char>>,
    events: Seq<EventView>,
    key: Seq<u8>,
)
    ensures
        verifications(run_spec(StateView::Verifying(secrets), events, key)) == 0,
        responses(run_spec(StateView::Verifying(secrets), events, key)) <= 1,
    decreases events.len(),
{
    if events.len() > 0 {
        let (next, action) = step_spec(StateView::Verifying(secrets), events[0], key);
        let rest = run_spec(next, events.drop_first(), key);
        if next is Responded {
            lemma_responded_is_final(events.drop_first(), key);
        } else {
            lemma_verifying_asks_no_more(secrets, events.drop_first(), key);
        }
        assert((seq![action] + rest).drop_first() =~= rest);
    }
}

/// Whatever happens, and in whatever order it is told, the verification
/// service is asked at most once for a request, and at most one reply is
/// given.
pub proof fn lemma_asks_once_replies_once(events: Seq<EventView>, key: Seq<u8>)
    ensures
        verifications(run_spec(StateView::Received, events, key)) <= 1,
        responses(run_spec(StateView::Received, events, key)) <= 1,
    decreases events.len(),
{
    if events.len() > 0 {
        let (next, action) = step_spec(StateView::Received, events[0], key);
        let rest = run_spec(next, events.drop_first(), key);
        match next {
            StateView::Received => {
                lemma_asks_once_replies_once(events.drop_first(), key);
            },
            StateView::Verifying(secrets) => {
                lemma_verifying_asks_no_more(secrets, events.drop_first(), key);
            },
            StateView::Responded => {
                lemma_responded_is_final(events.drop_first(), key);
            },
        }
        assert((seq![action] + rest).drop_first() =~= rest);
    }
}

} // verus!
