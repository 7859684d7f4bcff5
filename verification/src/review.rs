use vstd::prelude::*;
use vstd::string::*;
use vstd::utf8::encode_utf8;
use crate::labels::{is_safe_label, safe_label};

verus! {

/// The schema that review requests and responses name.
pub const SCHEMA: &'static str = "athernex.paperclip.review.v1";

/// The most bytes that a review response may have.
pub const MAX_RESPONSE_BYTES: usize = 4096;

/// How many times a review is tried in all.
pub const REVIEW_ATTEMPTS: u32 = 3;

/// Seconds that one exchange with the review service may take.
pub const REVIEW_TIMEOUT_SECS: u64 = 2;

/// A request for a human or policy review of an action.
#[derive(Debug)]
pub struct ReviewRequest {
    pub schema_version: String,
    pub correlation_id: String,
    pub idempotency_key: String,
    pub action_class: String,
    pub resource_class: String,
}

/// The fields of a review service's answer.
#[derive(Debug)]
pub struct ReviewResponse {
    pub schema_version: String,
    pub correlation_id: String,
    pub idempotency_key: String,
    pub outcome: String,
}

/// What the review service decided.
#[derive(Debug, PartialEq, Eq, Structural)]
pub enum ReviewOutcome {
    Approved,
    Rejected,
    Pending,
}

/// Why a review could not be had.
#[derive(Debug, PartialEq, Eq, Structural)]
pub enum AdapterError {
    InvalidRequest,
    Timeout,
    Transport,
    InvalidResponse,
}

/// The channel to the review service: it sends the encoded request and
/// gives back the raw answer, or fails. Users of the adapter implement this
/// trait, and their implementations are not checked here: what `review`
/// proves through it holds of an implementation that keeps its `ensures`.
///
/// A transport may keep a record of its exchanges (the bytes it was given
/// and what it gave back, in order) and say so through `keeps_record`; then
/// each exchange adds itself to that record, and `review` states, over that
/// record, how often it called the transport and which answer decided. The
/// record is opt-in because an implementation outside verified code cannot
/// define spec functions; one that keeps none promises nothing of it.
pub trait ReviewTransport {
    /// Whether this transport keeps the record of its exchanges.
    open spec fn keeps_record() -> bool {
        false
    }

    /// The exchanges made so far, where the transport keeps the record.
    open spec fn exchanges(&self) -> Seq<(Seq<u8>, Result<Seq<u8>, AdapterError>)> {
        Seq::empty()
    }

    fn exchange(&mut self, request: &[u8], timeout: std::time::Duration) -> (res: Result<
        Vec<u8>,
        AdapterError,
    >)
        ensures
            Self::keeps_record() ==> final(self).exchanges() == old(self).exchanges().push(
                (request@, answer_view(&res)),
            ),
    ;
}

/// A transport that passes each exchange on to another and keeps the
/// record of them: whatever the inner transport is, `review`'s statement
/// over the record then holds of the exchanges made through it.
pub struct Recorded<T> {
    inner: T,
    log: Ghost<Seq<(Seq<u8>, Result<Seq<u8>, AdapterError>)>>,
}

impl<T: ReviewTransport> Recorded<T> {
    /// The transport that the exchanges are passed on to.
    pub closed spec fn transport(&self) -> T {
        self.inner
    }

    /// Wraps `inner`, with an empty record.
    pub fn new(inner: T) -> (res: Recorded<T>)
        ensures
            res.transport() == inner,
            res.exchanges() == Seq::<(Seq<u8>, Result<Seq<u8>, AdapterError>)>::empty(),
    {
        Recorded { inner, log: Ghost(Seq::empty()) }
    }

    /// The transport that the exchanges are passed on to.
    pub fn inner(&self) -> (res: &T)
        ensures
            *res == self.transport(),
    {
        &self.inner
    }
}

impl<T: ReviewTransport> ReviewTransport for Recorded<T> {
    open spec fn keeps_record() -> bool {
        true
    }

    closed spec fn exchanges(&self) -> Seq<(Seq<u8>, Result<Seq<u8>, AdapterError>)> {
        self.log@
    }

    fn exchange(&mut self, request: &[u8], timeout: std::time::Duration) -> (res: Result<
        Vec<u8>,
        AdapterError,
    >) {
        let res = self.inner.exchange(request, timeout);
        self.log = Ghost(self.log@.push((request@, answer_view(&res))));
        res
    }
}

/// An exchange's answer as plain values.
pub open spec fn answer_view(answer: &Result<Vec<u8>, AdapterError>) -> Result<Seq<u8>, AdapterError> {
    match answer {
        Ok(raw) => Ok(raw@),
        Err(e) => Err(*e),
    }
}

/// A request names the schema and carries safe labels only.
pub open spec fn valid_review_request(request: &ReviewRequest) -> bool {
    &&& request.schema_version@ == SCHEMA@
    &&& is_safe_label(encode_utf8(request.correlation_id@))
    &&& is_safe_label(encode_utf8(request.idempotency_key@))
    &&& is_safe_label(encode_utf8(request.action_class@))
    &&& is_safe_label(encode_utf8(request.resource_class@))
}

/// A review request is well formed exactly when it names `SCHEMA` and each
/// of its four labels (correlation id, idempotency key, action class and
/// resource class) is a safe label in UTF-8; so a request of which any one
/// label is not safe is refused by `review` before anything is sent.
pub proof fn law_valid_request_needs_every_label(request: &ReviewRequest)
    ensures
        valid_review_request(request) <==> {
            &&& request.schema_version@ == SCHEMA@
            &&& is_safe_label(encode_utf8(request.correlation_id@))
            &&& is_safe_label(encode_utf8(request.idempotency_key@))
            &&& is_safe_label(encode_utf8(request.action_class@))
            &&& is_safe_label(encode_utf8(request.resource_class@))
        },
{
}

/// Tells whether a request is well formed (see `valid_review_request`).
pub fn review_request_is_valid(request: &ReviewRequest) -> (res: bool)
    ensures
        res == valid_review_request(request),
{
    SCHEMA.to_owned() == request.schema_version && safe_label(request.correlation_id.as_str())
        && safe_label(request.idempotency_key.as_str()) && safe_label(
        request.action_class.as_str(),
    ) && safe_label(request.resource_class.as_str())
}

/// The JSON text of a request: an object with its five fields as strings,
/// in declaration order, without white space. For a valid request no
/// character needs escaping.
pub open spec fn request_json(request: &ReviewRequest) -> Seq<char> {
    "{\"schema_version\":\""@ + request.schema_version@ + "\",\"correlation_id\":\""@
        + request.correlation_id@ + "\",\"idempotency_key\":\""@ + request.idempotency_key@
        + "\",\"action_class\":\""@ + request.action_class@ + "\",\"resource_class\":\""@
        + request.resource_class@ + "\"}"@
}

/// The UTF-8 bytes of the JSON text of a valid request (see
/// `request_json`).
pub fn encode_request(request: &ReviewRequest) -> (res: Vec<u8>)
    requires
        valid_review_request(request),
    ensures
        res@ == encode_utf8(request_json(request)),
{
    let mut text = String::new();
    text.append("{\"schema_version\":\"");
    text.append(request.schema_version.as_str());
    text.append("\",\"correlation_id\":\"");
    text.append(request.correlation_id.as_str());
    text.append("\",\"idempotency_key\":\"");
    text.append(request.idempotency_key.as_str());
    text.append("\",\"action_class\":\"");
    text.append(request.action_class.as_str());
    text.append("\",\"resource_class\":\"");
    text.append(request.resource_class.as_str());
    text.append("\"}");
    assert(text@ =~= request_json(request));
    vstd::slice::slice_to_vec(text.as_str().as_bytes())
}

/// What `serde_json` reads from these bytes as a JSON object whose values
/// are all strings: its entries, one per key, in key order.
pub uninterp spec fn json_string_object(bytes: Seq<u8>) -> Option<Seq<(Seq<char>, Seq<char>)>>;

/// What `serde_json` reads from these bytes as a JSON array of strings.
pub uninterp spec fn json_string_array(bytes: Seq<u8>) -> Option<Seq<Seq<char>>>;

/// Reads `raw` with `serde_json::from_slice` as a JSON object of strings
/// (a `BTreeMap<String, String>`): its entries in key order, or `None`
/// where the bytes are not such an object. The result is named by
/// `json_string_object`, a function of the bytes alone.
#[verifier::external_body]
fn parse_json_string_object(raw: &[u8]) -> (res: Option<Vec<(String, String)>>)
    ensures
        match res {
            Some(v) => json_string_object(raw@) == Some(
                v@.map_values(|p: (String, String)| (p.0@, p.1@)),
            ),
            None => json_string_object(raw@) is None,
        },
{
    serde_json::from_slice::<std::collections::BTreeMap<String, String>>(raw).ok().map(
        |m| m.into_iter().collect(),
    )
}

/// Reads `raw` with `serde_json::from_slice` as a JSON array of strings, or
/// gives `None` where the bytes are not one. The result is named by
/// `json_string_array`, a function of the bytes alone.
#[verifier::external_body]
fn parse_json_string_array(raw: &[u8]) -> (res: Option<Vec<String>>)
    ensures
        match res {
            Some(v) => json_string_array(raw@) == Some(v@.map_values(|s: String| s@)),
            None => json_string_array(raw@) is None,
        },
{
    serde_json::from_slice::<Vec<String>>(raw).ok()
}

/// The fields of a response, as plain values.
pub struct ResponseFields {
    pub schema_version: Seq<char>,
    pub correlation_id: Seq<char>,
    pub idempotency_key: Seq<char>,
    pub outcome: Seq<char>,
}

impl ReviewResponse {
    /// The fields of the response as plain values.
    pub open spec fn fields(&self) -> ResponseFields {
        ResponseFields {
            schema_version: self.schema_version@,
            correlation_id: self.correlation_id@,
            idempotency_key: self.idempotency_key@,
            outcome: self.outcome@,
        }
    }
}

/// The value of the first entry with `key`, if there is one.
pub open spec fn entry_value(entries: Seq<(Seq<char>, Seq<char>)>, key: Seq<char>) -> Option<
    Seq<char>,
>
    decreases entries.len(),
{
    if entries.len() == 0 {
        None
    } else {
        match entry_value(entries.drop_last(), key) {
            Some(v) => Some(v),
            None => if entries.last().0 == key {
                Some(entries.last().1)
            } else {
                None
            },
        }
    }
}

/// A response read from an object: it has exactly the four fields of a
/// response, each once.
pub open spec fn fields_of_object(entries: Seq<(Seq<char>, Seq<char>)>) -> Option<ResponseFields> {
    if entries.len() == 4 && entry_value(entries, "schema_version"@) is Some && entry_value(
        entries,
        "correlation_id"@,
    ) is Some && entry_value(entries, "idempotency_key"@) is Some && entry_value(
        entries,
        "outcome"@,
    ) is Some {
        Some(
            ResponseFields {
                schema_version: entry_value(entries, "schema_version"@)->0,
                correlation_id: entry_value(entries, "correlation_id"@)->0,
                idempotency_key: entry_value(entries, "idempotency_key"@)->0,
                outcome: entry_value(entries, "outcome"@)->0,
            },
        )
    } else {
        None
    }
}

/// A response read from an array: exactly four strings, the fields in
/// declaration order.
pub open spec fn fields_of_array(items: Seq<Seq<char>>) -> Option<ResponseFields> {
    if items.len() == 4 {
        Some(
            ResponseFields {
                schema_version: items[0],
                correlation_id: items[1],
                idempotency_key: items[2],
                outcome: items[3],
            },
        )
    } else {
        None
    }
}

/// Where a left-to-right scan of JSON text stands after these bytes:
/// inside a string or not, right after a backslash inside a string or not,
/// and how many strings it has closed.
pub open spec fn string_scan(b: Seq<u8>) -> (bool, bool, nat)
    decreases b.len(),
{
    if b.len() == 0 {
        (false, false, 0)
    } else {
        let (inside, escaped, count) = string_scan(b.drop_last());
        let c = b.last();
        if !inside {
            (c == 0x22, false, count)
        } else if escaped {
            (true, false, count)
        } else if c == 0x5c {
            (true, true, count)
        } else if c == 0x22 {
            (false, false, count + 1)
        } else {
            (true, false, count)
        }
    }
}

/// How many string tokens JSON text holds.
pub open spec fn string_tokens(b: Seq<u8>) -> nat {
    string_scan(b).2
}

/// Counts the string tokens of JSON text (see `string_tokens`).
pub fn count_string_tokens(raw: &[u8]) -> (res: usize)
    ensures
        res == string_tokens(raw@),
{
    let mut inside = false;
    let mut escaped = false;
    let mut count: usize = 0;
    let mut i: usize = 0;
    while i < raw.len()
        invariant
            0 <= i <= raw@.len(),
            count <= i,
            string_scan(raw@.take(i as int)) == (inside, escaped, count as nat),
        decreases raw@.len() - i,
    {
        assert(raw@.take(i + 1).drop_last() =~= raw@.take(i as int));
        let c = raw[i];
        if !inside {
            inside = c == 0x22;
            escaped = false;
        } else if escaped {
            escaped = false;
        } else if c == 0x5c {
            escaped = true;
        } else if c == 0x22 {
            inside = false;
            count = count + 1;
        }
        i = i + 1;
    }
    assert(raw@.take(raw@.len() as int) =~= raw@);
    count
}

/// The number of string tokens in the JSON text of an object of four
/// string members: each member is a key string and a value string.
pub const OBJECT_RESPONSE_STRINGS: usize = 8;

/// The response that the bytes hold, read as `serde` reads a struct of
/// four string fields that denies unknown fields: from an object with
/// exactly those fields, each once, or from an array of exactly four
/// strings. `json_string_object` keeps one entry per key, so a repeated key
/// is told by the text itself: an object of strings has two string tokens
/// per member, and eight tokens with four distinct keys mean that no key is
/// repeated.
pub open spec fn response_fields(raw: Seq<u8>) -> Option<ResponseFields> {
    match json_string_object(raw) {
        Some(entries) => if string_tokens(raw) == OBJECT_RESPONSE_STRINGS {
            fields_of_object(entries)
        } else {
            None
        },
        None => match json_string_array(raw) {
            Some(items) => fields_of_array(items),
            None => None,
        },
    }
}

fn entry_lookup(entries: &Vec<(String, String)>, key: &str) -> (res: Option<usize>)
    ensures
        match res {
            Some(i) => i < entries@.len() && entry_value(
                entries@.map_values(|p: (String, String)| (p.0@, p.1@)),
                key@,
            ) == Some(entries@[i as int].1@),
            None => entry_value(entries@.map_values(|p: (String, String)| (p.0@, p.1@)), key@) is None,
        },
{
    let ghost all = entries@.map_values(|p: (String, String)| (p.0@, p.1@));
    let wanted = key.to_owned();
    let mut i: usize = 0;
    while i < entries.len()
        invariant
            wanted@ == key@,
            all == entries@.map_values(|p: (String, String)| (p.0@, p.1@)),
            0 <= i <= entries@.len(),
            entry_value(all.take(i as int), key@) is None,
        decreases entries@.len() - i,
    {
        assert(all.take(i + 1).drop_last() =~= all.take(i as int));
        if entries[i].0 == wanted {
            proof {
                lemma_entry_value_prefix(all, i + 1, key@);
            }
            return Some(i);
        }
        i = i + 1;
    }
    assert(all.take(entries@.len() as int) =~= all);
    None
}

proof fn lemma_entry_value_prefix(entries: Seq<(Seq<char>, Seq<char>)>, n: int, key: Seq<char>)
    requires
        0 <= n <= entries.len(),
        entry_value(entries.take(n), key) is Some,
    ensures
        entry_value(entries, key) == entry_value(entries.take(n), key),
    decreases entries.len() - n,
{
    if n < entries.len() {
        assert(entries.take(n + 1).drop_last() =~= entries.take(n));
        lemma_entry_value_prefix(entries, n + 1, key);
    } else {
        assert(entries.take(n) =~= entries);
    }
}

/// The response that a JSON object's entries hold (see `fields_of_object`).
pub fn response_from_object(entries: &Vec<(String, String)>) -> (res: Option<ReviewResponse>)
    ensures
        match res {
            Some(r) => fields_of_object(entries@.map_values(|p: (String, String)| (p.0@, p.1@)))
                == Some(r.fields()),
            None => fields_of_object(entries@.map_values(|p: (String, String)| (p.0@, p.1@))) is None,
        },
{
    if entries.len() != 4 {
        return None;
    }
    let schema_version = entry_lookup(entries, "schema_version");
    let correlation_id = entry_lookup(entries, "correlation_id");
    let idempotency_key = entry_lookup(entries, "idempotency_key");
    let outcome = entry_lookup(entries, "outcome");
    match (schema_version, correlation_id, idempotency_key, outcome) {
        (Some(a), Some(b), Some(c), Some(d)) => Some(
            ReviewResponse {
                schema_version: entries[a].1.clone(),
                correlation_id: entries[b].1.clone(),
                idempotency_key: entries[c].1.clone(),
                outcome: entries[d].1.clone(),
            },
        ),
        _ => None,
    }
}

/// The response that a JSON array's strings hold (see `fields_of_array`).
pub fn response_from_array(items: &Vec<String>) -> (res: Option<ReviewResponse>)
    ensures
        match res {
            Some(r) => fields_of_array(items@.map_values(|s: String| s@)) == Some(r.fields()),
            None => fields_of_array(items@.map_values(|s: String| s@)) is None,
        },
{
    if items.len() != 4 {
        return None;
    }
    Some(
        ReviewResponse {
            schema_version: items[0].clone(),
            correlation_id: items[1].clone(),
            idempotency_key: items[2].clone(),
            outcome: items[3].clone(),
        },
    )
}

/// Reads a review service's raw answer (see `response_fields`).
pub fn decode_response(raw: &[u8]) -> (res: Option<ReviewResponse>)
    ensures
        match res {
            Some(r) => response_fields(raw@) == Some(r.fields()),
            None => response_fields(raw@) is None,
        },
{
    match parse_json_string_object(raw) {
        Some(entries) => if count_string_tokens(raw) == OBJECT_RESPONSE_STRINGS {
            response_from_object(&entries)
        } else {
            None
        },
        None => match parse_json_string_array(raw) {
            Some(items) => response_from_array(&items),
            None => None,
        },
    }
}

/// What a response decides for a request: it must name the schema and
/// echo the request's correlation id and idempotency key, and its outcome
/// must be one of `approved`, `rejected` and `pending`.
pub open spec fn outcome_of(request: &ReviewRequest, fields: ResponseFields) -> Result<
    ReviewOutcome,
    AdapterError,
> {
    if fields.schema_version != SCHEMA@ || fields.correlation_id != request.correlation_id@
        || fields.idempotency_key != request.idempotency_key@ {
        Err(AdapterError::InvalidResponse)
    } else if fields.outcome == "approved"@ {
        Ok(ReviewOutcome::Approved)
    } else if fields.outcome == "rejected"@ {
        Ok(ReviewOutcome::Rejected)
    } else if fields.outcome == "pending"@ {
        Ok(ReviewOutcome::Pending)
    } else {
        Err(AdapterError::InvalidResponse)
    }
}

/// What a response decides for a request (see `outcome_of`).
pub fn response_outcome(request: &ReviewRequest, response: &ReviewResponse) -> (res: Result<
    ReviewOutcome,
    AdapterError,
>)
    ensures
        res == outcome_of(request, response.fields()),
{
    if SCHEMA.to_owned() != response.schema_version || response.correlation_id
        != request.correlation_id || response.idempotency_key != request.idempotency_key {
        return Err(AdapterError::InvalidResponse);
    }
    if response.outcome == "approved".to_owned() {
        Ok(ReviewOutcome::Approved)
    } else if response.outcome == "rejected".to_owned() {
        Ok(ReviewOutcome::Rejected)
    } else if response.outcome == "pending".to_owned() {
        Ok(ReviewOutcome::Pending)
    } else {
        Err(AdapterError::InvalidResponse)
    }
}

/// What a raw answer decides for a request: one longer than
/// `MAX_RESPONSE_BYTES`, or one that does not read as a response, is
/// invalid; otherwise the response decides (see `outcome_of`).
pub open spec fn reply_outcome(request: &ReviewRequest, raw: Seq<u8>) -> Result<
    ReviewOutcome,
    AdapterError,
> {
    if raw.len() > MAX_RESPONSE_BYTES {
        Err(AdapterError::InvalidResponse)
    } else {
        match response_fields(raw) {
            Some(fields) => outcome_of(request, fields),
            None => Err(AdapterError::InvalidResponse),
        }
    }
}

/// What a raw answer decides for a request (see `reply_outcome`).
pub fn interpret_reply(request: &ReviewRequest, raw: &[u8]) -> (res: Result<
    ReviewOutcome,
    AdapterError,
>)
    ensures
        res == reply_outcome(request, raw@),
{
    if raw.len() > MAX_RESPONSE_BYTES {
        return Err(AdapterError::InvalidResponse);
    }
    match decode_response(raw) {
        Some(response) => response_outcome(request, &response),
        None => Err(AdapterError::InvalidResponse),
    }
}

/// A timeout of whole seconds, made by `std::time::Duration::from_secs`;
/// nothing is stated of the value.
#[verifier::external_body]
fn seconds(secs: u64) -> (res: std::time::Duration) {
    std::time::Duration::from_secs(secs)
}

/// Whether a failed exchange is tried again: timeouts and transport
/// failures are, while attempts remain; any other failure is final.
pub open spec fn retries_after(attempt: u32, error: AdapterError) -> bool {
    (error is Timeout || error is Transport) && attempt + 1 < REVIEW_ATTEMPTS
}

/// Tells whether a failed exchange is tried again (see `retries_after`).
pub fn should_retry(attempt: u32, error: &AdapterError) -> (res: bool)
    ensures
        res == retries_after(attempt, *error),
{
    match error {
        AdapterError::Timeout | AdapterError::Transport => attempt < REVIEW_ATTEMPTS - 1,
        _ => false,
    }
}

/// Whether an exchange's answer is a failure that is tried again at this
/// attempt.
pub open spec fn retried(answer: Result<Seq<u8>, AdapterError>, attempt: u32) -> bool {
    match answer {
        Ok(_) => false,
        Err(e) => retries_after(attempt, e),
    }
}

/// What a review does with its exchanges, and what it returns. Every
/// exchange sends the encoded request (see `request_json`); every exchange
/// but the last failed with a timeout or a transport failure that is tried
/// again (see `retries_after`); there are at most `REVIEW_ATTEMPTS` of them;
/// and the last one decides: an answer as `reply_outcome` says, a failure
/// that is not tried again as itself.
pub open spec fn review_record(
    request: &ReviewRequest,
    log: Seq<(Seq<u8>, Result<Seq<u8>, AdapterError>)>,
    res: Result<ReviewOutcome, AdapterError>,
) -> bool {
    &&& 1 <= log.len() <= REVIEW_ATTEMPTS
    &&& forall|i: int| 0 <= i < log.len() ==> (#[trigger] log[i]).0 == encode_utf8(
        request_json(request),
    )
    &&& forall|i: int| 0 <= i < log.len() - 1 ==> retried((#[trigger] log[i]).1, i as u32)
    &&& match log.last().1 {
        Ok(raw) => res == reply_outcome(request, raw),
        Err(e) => res == Err::<ReviewOutcome, AdapterError>(e) && !retries_after(
            (log.len() - 1) as u32,
            e,
        ),
    }
}

/// A review makes one to `REVIEW_ATTEMPTS` exchanges, each of the encoded
/// request; every exchange before the last one timed out or failed in
/// transport (a refused request or an unreadable answer is never tried
/// again); an answer ends the exchanges and decides the outcome as
/// `reply_outcome` reads it; and when the last exchange failed, its failure
/// is the result, where a timeout or a transport failure ends the review
/// only at the last attempt.
pub proof fn law_review_retries_only_transport_failures(
    request: &ReviewRequest,
    log: Seq<(Seq<u8>, Result<Seq<u8>, AdapterError>)>,
    res: Result<ReviewOutcome, AdapterError>,
)
    requires
        review_record(request, log, res),
    ensures
        1 <= log.len() <= 3,
        forall|i: int|
            0 <= i < log.len() - 1 ==> (#[trigger] log[i]).1 == Err::<Seq<u8>, AdapterError>(
                AdapterError::Timeout,
            ) || log[i].1 == Err::<Seq<u8>, AdapterError>(AdapterError::Transport),
        forall|i: int| 0 <= i < log.len() ==> (#[trigger] log[i]).0 == encode_utf8(request_json(request)),
        log.last().1 matches Ok(raw) ==> res == reply_outcome(request, raw),
        log.last().1 matches Err(e) ==> res == Err::<ReviewOutcome, AdapterError>(e),
        log.last().1 == Err::<Seq<u8>, AdapterError>(AdapterError::Timeout) || log.last().1 == Err::<
            Seq<u8>,
            AdapterError,
        >(AdapterError::Transport) ==> log.len() == 3,
{
    assert forall|i: int| 0 <= i < log.len() - 1 implies (#[trigger] log[i]).1
        == Err::<Seq<u8>, AdapterError>(AdapterError::Timeout) || log[i].1 == Err::<
        Seq<u8>,
        AdapterError,
    >(AdapterError::Transport) by {
        assert(retried(log[i].1, i as u32));
    }
}

/// Asks the review service, through `transport`, to review `request`. A
/// malformed request is refused before anything is sent, and the transport
/// is left as it was. Otherwise the encoded request (see `encode_request`)
/// is sent with a timeout of `REVIEW_TIMEOUT_SECS` seconds, as
/// `review_record` says of the exchanges of a transport that keeps their
/// record (any transport keeps one when wrapped in `Recorded`): up to
/// `REVIEW_ATTEMPTS` times while the exchange times out or fails in
/// transport; the first answer decides, and another failure of the
/// exchange, or the last one, is returned as it is. The timeout's value is
/// not stated in the contract.
pub fn review<T: ReviewTransport>(transport: &mut T, request: &ReviewRequest) -> (res: Result<
    ReviewOutcome,
    AdapterError,
>)
    ensures
        !valid_review_request(request) ==> res == Err::<ReviewOutcome, AdapterError>(
            AdapterError::InvalidRequest,
        ) && *final(transport) == *old(transport),
        res is Ok ==> valid_review_request(request) && exists|raw: Seq<u8>| #[trigger]
            reply_outcome(request, raw) == res,
        valid_review_request(request) && T::keeps_record() ==> old(
            transport,
        ).exchanges().is_prefix_of(final(transport).exchanges()) && review_record(
            request,
            final(transport).exchanges().skip(old(transport).exchanges().len() as int),
            res,
        ),
{
    if !review_request_is_valid(request) {
        return Err(AdapterError::InvalidRequest);
    }
    let payload = encode_request(request);
    let ghost start = transport.exchanges();
    assert(start == old(transport).exchanges());
    let mut attempt: u32 = 0;
    while attempt < REVIEW_ATTEMPTS
        invariant
            valid_review_request(request),
            payload@ == encode_utf8(request_json(request)),
            start == old(transport).exchanges(),
            T::keeps_record() ==> start.is_prefix_of(transport.exchanges()),
            T::keeps_record() ==> transport.exchanges().len() == start.len() + attempt,
            T::keeps_record() ==> forall|i: int|
                0 <= i < attempt ==> (#[trigger] transport.exchanges().skip(start.len() as int)[i]).0
                    == encode_utf8(request_json(request)),
            T::keeps_record() ==> forall|i: int|
                0 <= i < attempt ==> retried(
                    (#[trigger] transport.exchanges().skip(start.len() as int)[i]).1,
                    i as u32,
                ),
        decreases REVIEW_ATTEMPTS - attempt,
    {
        let ghost before = transport.exchanges();
        let answer = transport.exchange(payload.as_slice(), seconds(REVIEW_TIMEOUT_SECS));
        let ghost log = transport.exchanges().skip(start.len() as int);
        proof {
            if T::keeps_record() {
                assert(log =~= before.skip(start.len() as int).push((payload@, answer_view(&answer))));
            }
        }
        match answer {
            Ok(raw) => {
                let res = interpret_reply(request, raw.as_slice());
                assert(reply_outcome(request, raw@) == res);
                proof {
                    if T::keeps_record() {
                        assert(review_record(request, log, res));
                    }
                }
                return res;
            },
            Err(error) => {
                if !should_retry(attempt, &error) {
                    proof {
                        if T::keeps_record() {
                            assert(review_record(request, log, Err(error)));
                        }
                    }
                    return Err(error);
                }
            },
        }
        attempt = attempt + 1;
    }
    Err(AdapterError::Timeout)
}

/// An answer is accepted only when it is at most `MAX_RESPONSE_BYTES` long,
/// reads as a response, names the schema, and echoes the request's
/// correlation id and idempotency key; and then the outcome is the one it
/// names. Every such answer naming `approved`, `rejected` or `pending` is
/// accepted.
pub proof fn law_accepted_reply_echoes_request(request: &ReviewRequest, raw: Seq<u8>)
    ensures
        reply_outcome(request, raw) is Ok ==> {
            &&& raw.len() <= MAX_RESPONSE_BYTES
            &&& response_fields(raw) is Some
            &&& response_fields(raw)->0.schema_version == SCHEMA@
            &&& response_fields(raw)->0.correlation_id == request.correlation_id@
            &&& response_fields(raw)->0.idempotency_key == request.idempotency_key@
            &&& reply_outcome(request, raw) == Ok::<ReviewOutcome, AdapterError>(
                ReviewOutcome::Approved,
            ) <==> response_fields(raw)->0.outcome == "approved"@
            &&& reply_outcome(request, raw) == Ok::<ReviewOutcome, AdapterError>(
                ReviewOutcome::Rejected,
            ) <==> response_fields(raw)->0.outcome == "rejected"@
            &&& reply_outcome(request, raw) == Ok::<ReviewOutcome, AdapterError>(
                ReviewOutcome::Pending,
            ) <==> response_fields(raw)->0.outcome == "pending"@
        },
        ({
            let fields = response_fields(raw)->0;
            &&& raw.len() <= MAX_RESPONSE_BYTES
            &&& response_fields(raw) is Some
            &&& fields.schema_version == SCHEMA@
            &&& fields.correlation_id == request.correlation_id@
            &&& fields.idempotency_key == request.idempotency_key@
            &&& (fields.outcome == "approved"@ || fields.outcome == "rejected"@ || fields.outcome
                == "pending"@)
        }) ==> reply_outcome(request, raw) is Ok,
{
    reveal_strlit("approved");
    reveal_strlit("rejected");
    reveal_strlit("pending");
    assert("approved"@[0] != "rejected"@[0]);
    assert("approved"@.len() != "pending"@.len());
    assert("rejected"@.len() != "pending"@.len());
}

} // verus!
