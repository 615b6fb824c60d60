//! The dispatch engine: routes each inbound field list to the handler for its kind.
use vstd::prelude::*;

use crate::correlation::{reply_id_of, Correlator, Slots};
use crate::kind::{code_of, kind_of_code, kind_of_tag, label_of, lemma_code_round_trip, parse_tag, MessageKind};
use crate::decimal::{i64_of, parse_i64};
use crate::queue::{DeliveryQueue, Sieve};

verus! {

/// Why a field list could not be classified.
#[derive(Debug, Clone, Copy, PartialEq, Eq, Structural)]
pub enum DispatchError {
    /// The field list holds no field at all.
    Empty,
    /// The first field names no known message kind.
    UnknownKind,
}

/// A forward-only cursor over the fields of one message.
pub struct FieldCursor {
    fields: Vec<String>,
    pos: usize,
}

impl View for FieldCursor {
    type V = Seq<Seq<char>>;

    /// The fields not yet read.
    closed spec fn view(&self) -> Seq<Seq<char>> {
        if self.pos <= self.fields@.len() {
            self.fields.deep_view().skip(self.pos as int)
        } else {
            seq![]
        }
    }
}

impl FieldCursor {
    /// A cursor at the first of `fields`.
    pub fn new(fields: Vec<String>) -> (r: FieldCursor)
        ensures
            r@ == fields.deep_view(),
    {
        let r = FieldCursor { fields, pos: 0 };
        assert(r.fields.deep_view().skip(0) =~= r.fields.deep_view());
        r
    }

    /// Reads the next field, or `None` once every field has been read.
    pub fn next_field(&mut self) -> (r: Option<String>)
        ensures
            old(self)@.len() == 0 ==> r is None && final(self)@ == old(self)@,
            old(self)@.len() > 0 ==> (r matches Some(s) && s@ == old(self)@[0] && final(self)@
                == old(self)@.drop_first()),
    {
        if self.pos < self.fields.len() {
            let s = self.fields[self.pos].clone();
            let ghost before = self.fields.deep_view().skip(self.pos as int);
            self.pos = self.pos + 1;
            assert(self.fields.deep_view().skip(self.pos as int) =~= before.drop_first());
            Some(s)
        } else {
            None
        }
    }

    /// The number of fields not yet read.
    pub fn remaining(&self) -> (r: usize)
        ensures
            r == self@.len(),
    {
        if self.pos <= self.fields.len() {
            self.fields.len() - self.pos
        } else {
            0
        }
    }
}

/// What handles inbound messages: one entry point, told the kind of each message and
/// given a cursor over the fields after its tag.
pub trait Handler {
    /// Handles one message of kind `kind`; an error is reported with the kind's name.
    fn handle(&mut self, kind: MessageKind, fields: &mut FieldCursor) -> Result<(), String>;
}

/// What dispatching one field list came to.
#[derive(Debug, PartialEq, Eq)]
pub enum Outcome {
    /// The handler for this kind accepted the message.
    Handled(MessageKind),
    /// The handler for this kind failed with this error.
    HandlerFailed(MessageKind, String),
    /// The message answered the outstanding contract query with this request id.
    Correlated(i64),
    /// The message could not be classified; it is dropped.
    Unclassified(DispatchError),
}

impl Outcome {
    /// A line that describes the outcome, for a diagnostic sink.
    pub fn describe(&self) -> (r: String)
        ensures
            r@ == match self {
                Outcome::HandlerFailed(_, e) => e@,
                Outcome::Handled(k) => label_of(*k),
                Outcome::Correlated(_) => "contract query answered"@,
                Outcome::Unclassified(DispatchError::Empty) => "empty message"@,
                Outcome::Unclassified(DispatchError::UnknownKind) => "unknown message kind"@,
            },
    {
        match self {
            Outcome::HandlerFailed(_, e) => e.clone(),
            Outcome::Handled(k) => k.label().to_owned(),
            Outcome::Correlated(_) => "contract query answered".to_owned(),
            Outcome::Unclassified(DispatchError::Empty) => "empty message".to_owned(),
            Outcome::Unclassified(DispatchError::UnknownKind) => "unknown message kind".to_owned(),
        }
    }
}

/// The kind of a field list, or why it has none.
pub open spec fn classify(fields: Seq<Seq<char>>) -> Result<MessageKind, DispatchError> {
    if fields.len() == 0 {
        Err(DispatchError::Empty)
    } else {
        match kind_of_tag(fields[0]) {
            Some(k) => Ok(k),
            None => Err(DispatchError::UnknownKind),
        }
    }
}

/// What dispatching `fields` may return and do to the outstanding queries: an
/// unclassified message is reported and dropped; a contract-data reply to a waiting query
/// resolves it; any other message goes to the handler for its kind.
pub open spec fn dispatched(
    before: (Slots, bool),
    fields: Vec<String>,
    r: Outcome,
    after: (Slots, bool),
) -> bool {
    match classify(fields.deep_view()) {
        Err(e) => r == Outcome::Unclassified(e) && after == before,
        Ok(k) => if Correlator::takes(before, fields) {
            r == Outcome::Correlated(reply_id_of(fields)->0) && after == Correlator::after(
                before,
                fields,
            )
        } else {
            &&& (r == Outcome::Handled(k) || (r is HandlerFailed && r->HandlerFailed_0 == k))
            &&& after == before
        },
    }
}

/// Classifies a field list by its first field.
pub fn classify_fields(fields: &Vec<String>) -> (r: Result<MessageKind, DispatchError>)
    ensures
        r == classify(fields.deep_view()),
{
    if fields.len() == 0 {
        return Err(DispatchError::Empty);
    }
    assert(fields.deep_view()[0] == fields@[0]@);
    match parse_tag(fields[0].as_str()) {
        Some(k) => Ok(k),
        None => Err(DispatchError::UnknownKind),
    }
}

/// Routes one field list: a contract-data reply to a waiting query goes to `queries`;
/// every other message of a known kind goes to `handler` with a cursor over the fields
/// after its tag. Nothing here stops the session: every failure becomes an outcome.
pub fn dispatch<H: Handler>(handler: &mut H, queries: &mut Correlator, fields: Vec<String>) -> (r:
    Outcome)
    ensures
        dispatched(old(queries)@, fields, r, final(queries)@),
{
    let kind = match classify_fields(&fields) {
        Ok(k) => k,
        Err(e) => {
            return Outcome::Unclassified(e);
        },
    };
    if kind == MessageKind::ContractData && fields.len() > 2 {
        if let Some(id) = parse_i64(fields[2].as_str()) {
            if queries.is_waiting(id) {
                queries.deliver(id, fields);
                return Outcome::Correlated(id);
            }
        }
    }
    let mut fields = fields;
    let rest = fields.split_off(1);
    let mut cursor = FieldCursor::new(rest);
    match handler.handle(kind, &mut cursor) {
        Ok(()) => Outcome::Handled(kind),
        Err(e) => Outcome::HandlerFailed(kind, e),
    }
}

impl DeliveryQueue {
    /// Pops the head of the queue and dispatches it; `None` when the queue is empty.
    pub fn dispatch_next<H: Handler>(&mut self, handler: &mut H, queries: &mut Correlator) -> (r:
        Option<Outcome>)
        ensures
            old(self)@.len() == 0 ==> r is None && final(self)@ == old(self)@ && final(queries)@
                == old(queries)@,
            old(self)@.len() > 0 ==> (r matches Some(o) && final(self)@ == old(self)@.drop_first()
                && dispatched(old(queries)@, old(self)@[0], o, final(queries)@)),
    {
        match self.pop() {
            Some(fields) => Some(dispatch(handler, queries, fields)),
            None => None,
        }
    }
}

/// Routing: a field list whose tag is the tag of a known kind is classified as that kind,
/// distinct kinds have distinct tags, and a tag that names no kind is a classification
/// error.
pub proof fn lemma_routing(fields: Seq<Seq<char>>, k: MessageKind, other: MessageKind)
    requires
        fields.len() > 0,
    ensures
        i64_of(fields[0]) == Some(code_of(k)) ==> classify(fields) == Ok::<MessageKind, DispatchError>(k),
        k != other ==> code_of(k) != code_of(other),
        (i64_of(fields[0]) matches Some(n) && kind_of_code(n) is None) ==> classify(fields)
            == Err::<MessageKind, DispatchError>(DispatchError::UnknownKind),
        i64_of(fields[0]) is None ==> classify(fields) == Err::<MessageKind, DispatchError>(
            DispatchError::UnknownKind,
        ),
{
    lemma_code_round_trip(k);
    lemma_code_round_trip(other);
}

} // verus!
