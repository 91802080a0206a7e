use vstd::prelude::*;
use crate::form::{
    FormData,
    FormError,
    FormField,
    FormFields,
    decode_spec,
    decoded_view,
    fields_of_pairs,
    first_repeat,
    key_count,
    key_of,
    value_for,
    PairView,
};
use crate::routing::Response;

verus! {

/// A subscription as it is written to the store.
#[derive(Debug, PartialEq, Eq)]
pub struct SubscriptionRecord {
    /// A freshly generated unique identifier.
    pub id: u128,
    pub email: String,
    pub name: String,
    /// When the subscription was accepted, in microseconds since the Unix epoch.
    pub subscribed_at: i64,
}

/// A stored subscription row.
pub ghost struct RecordView {
    pub id: u128,
    pub email: Seq<char>,
    pub name: Seq<char>,
    pub subscribed_at: i64,
}

impl View for SubscriptionRecord {
    type V = RecordView;

    open spec fn view(&self) -> RecordView {
        RecordView {
            id: self.id,
            email: self.email@,
            name: self.name@,
            subscribed_at: self.subscribed_at,
        }
    }
}

/// The store could not complete an insert (lost connection, refused write,
/// timeout).
#[derive(Clone, Copy, Debug, PartialEq, Eq)]
pub struct StoreError;

/// What the handler asks its caller to do next.
#[derive(Debug, PartialEq, Eq)]
pub enum SubscribeAction {
    /// Write this record, then report the outcome to `finish_subscription`.
    Insert(SubscriptionRecord),
    /// Send this response; the store is not touched.
    Respond(Response),
}

/// The next step of a subscription request, in the abstract.
pub ghost enum StepView {
    Insert(RecordView),
    Respond(u16),
}

pub open spec fn record_for(fields: FormFields, id: u128, subscribed_at: i64) -> RecordView {
    RecordView { id, email: fields.email, name: fields.name, subscribed_at }
}

/// A decoded form leads to one insert of its fields; anything else to 400.
pub open spec fn begin_spec(
    decoded: Result<FormFields, FormError>,
    id: u128,
    subscribed_at: i64,
) -> StepView {
    match decoded {
        Ok(fields) => StepView::Insert(record_for(fields, id, subscribed_at)),
        Err(_) => StepView::Respond(400),
    }
}

pub open spec fn action_view(a: SubscribeAction) -> StepView {
    match a {
        SubscribeAction::Insert(rec) => StepView::Insert(rec@),
        SubscribeAction::Respond(resp) => StepView::Respond(resp.status),
    }
}

/// The status reported once the insert has come back.
pub open spec fn write_status(write: Result<(), StoreError>) -> u16 {
    if write is Ok {
        200
    } else {
        500
    }
}

/// The store's rows after an insert of `rec` came back with `write`: a
/// completed insert adds exactly that row, a failed one leaves no trace.
pub open spec fn table_after_insert(
    table: Seq<RecordView>,
    rec: RecordView,
    write: Result<(), StoreError>,
) -> Seq<RecordView> {
    if write is Ok {
        table.push(rec)
    } else {
        table
    }
}

/// The status of one subscription request and the store's rows after it,
/// given the rows before, the request's media type and body, the identifier
/// and time handed to it, and the outcome of the insert, if one is made.
pub open spec fn subscribe_outcome(
    table: Seq<RecordView>,
    media_type: Seq<char>,
    body: Seq<u8>,
    id: u128,
    subscribed_at: i64,
    write: Result<(), StoreError>,
) -> (u16, Seq<RecordView>) {
    match begin_spec(decode_spec(media_type, body), id, subscribed_at) {
        StepView::Respond(status) => (status, table),
        StepView::Insert(rec) => (write_status(write), table_after_insert(table, rec, write)),
    }
}

/// First step of a subscription request: from the decoded form, with a fresh
/// identifier and the current time, either the record to insert or the
/// response to a malformed request.
pub fn begin_subscription(
    decoded: Result<FormData, FormError>,
    id: u128,
    subscribed_at: i64,
) -> (r: SubscribeAction)
    ensures
        action_view(r) == begin_spec(decoded_view(decoded), id, subscribed_at),
        r matches SubscribeAction::Respond(resp) ==> resp.body@.len() == 0,
{
    match decoded {
        Ok(form) => SubscribeAction::Insert(
            SubscriptionRecord { id, email: form.email, name: form.name, subscribed_at },
        ),
        Err(_) => SubscribeAction::Respond(Response::empty(400)),
    }
}

/// Last step of a subscription request: the response once the insert has
/// come back. A failed insert is not retried.
pub fn finish_subscription(write: Result<(), StoreError>) -> (r: Response)
    ensures
        r.status == write_status(write),
        r.body@.len() == 0,
{
    match write {
        Ok(()) => Response::empty(200),
        Err(_) => Response::empty(500),
    }
}

proof fn lemma_no_repeat(pairs: Seq<PairView>)
    requires
        key_count(pairs, key_of(FormField::Email)) <= 1,
        key_count(pairs, key_of(FormField::Name)) <= 1,
    ensures
        first_repeat(pairs) is None,
    decreases pairs.len(),
{
    if pairs.len() > 0 {
        lemma_no_repeat(pairs.drop_last());
    }
}

/// A body that spells each of the two fields exactly once decodes, and
/// always to the same record: the values given for `email` and `name`.
pub proof fn lemma_two_field_form_decodes(pairs: Seq<PairView>)
    requires
        key_count(pairs, key_of(FormField::Email)) == 1,
        key_count(pairs, key_of(FormField::Name)) == 1,
    ensures
        fields_of_pairs(pairs) == Ok::<FormFields, FormError>(
            FormFields {
                email: value_for(pairs, key_of(FormField::Email)),
                name: value_for(pairs, key_of(FormField::Name)),
            },
        ),
{
    lemma_no_repeat(pairs);
}

/// Decoding depends on the media type and the body alone: the same request
/// always decodes to the same result.
pub proof fn lemma_decoding_deterministic(
    media_type1: Seq<char>,
    body1: Seq<u8>,
    media_type2: Seq<char>,
    body2: Seq<u8>,
)
    requires
        media_type1 == media_type2,
        body1 == body2,
    ensures
        decode_spec(media_type1, body1) == decode_spec(media_type2, body2),
{
}

/// An accepted request whose insert completes is answered 200 and adds
/// exactly one row, holding the decoded name and email.
pub proof fn lemma_accepted_request_stores_one_record(
    table: Seq<RecordView>,
    media_type: Seq<char>,
    body: Seq<u8>,
    id: u128,
    subscribed_at: i64,
)
    requires
        decode_spec(media_type, body) is Ok,
    ensures
        ({
            let fields = decode_spec(media_type, body)->Ok_0;
            let (status, after) = subscribe_outcome(
                table,
                media_type,
                body,
                id,
                subscribed_at,
                Ok(()),
            );
            &&& status == 200
            &&& after.len() == table.len() + 1
            &&& after.take(table.len() as int) == table
            &&& after.last().email == fields.email
            &&& after.last().name == fields.name
        }),
{
    let fields = decode_spec(media_type, body)->Ok_0;
    let after = table.push(record_for(fields, id, subscribed_at));
    assert(after.take(table.len() as int) == table);
}

/// A request that does not decode is answered 400 and leaves the store
/// untouched, whatever the store would have done.
pub proof fn lemma_rejected_request_stores_nothing(
    table: Seq<RecordView>,
    media_type: Seq<char>,
    body: Seq<u8>,
    id: u128,
    subscribed_at: i64,
    write: Result<(), StoreError>,
)
    requires
        decode_spec(media_type, body) is Err,
    ensures
        subscribe_outcome(table, media_type, body, id, subscribed_at, write) == (400u16, table),
{
}

/// A valid request whose insert fails is answered 500 and leaves no row.
pub proof fn lemma_store_failure_reports_500(
    table: Seq<RecordView>,
    media_type: Seq<char>,
    body: Seq<u8>,
    id: u128,
    subscribed_at: i64,
    error: StoreError,
)
    requires
        decode_spec(media_type, body) is Ok,
    ensures
        subscribe_outcome(table, media_type, body, id, subscribed_at, Err(error)) == (
            500u16,
            table,
        ),
{
}

} // verus!
