//! Correlation of contract queries with the replies that arrive in the message stream.
use vstd::prelude::*;
use std::collections::HashMap;

use crate::decimal::{i64_of, parse_i64};
use crate::kind::MessageKind;
use crate::queue::{fields_kind, kind_of_fields, Sieve};

verus! {

broadcast use vstd::std_specs::hash::group_hash_axioms;

/// Why a correlation request was refused or could not be resolved.
#[derive(Debug, Clone, Copy, PartialEq, Eq, Structural)]
pub enum CorrelationError {
    /// A query with this request id is still outstanding.
    AlreadyPending,
    /// No query with this request id is outstanding.
    Unknown,
    /// The reply side closed before the reply arrived.
    Closed,
}

/// What a poll for a reply finds.
#[derive(Debug, PartialEq, Eq)]
pub enum Reply {
    /// The reply arrived; its slot is released.
    Ready(Vec<String>),
    /// The reply has not arrived yet.
    Waiting,
}

/// The slots of outstanding queries by request id: `None` while waiting, the reply once
/// it has arrived.
pub type Slots = Map<i64, Option<Vec<String>>>;

/// The request id that a contract-data reply carries in its third field.
pub open spec fn reply_id_of(item: Vec<String>) -> Option<i64> {
    if item@.len() > 2 {
        i64_of(item@[2]@)
    } else {
        None
    }
}

/// Whether a query with request id `id` waits for its reply.
pub open spec fn is_waiting(slots: Slots, id: i64) -> bool {
    slots.contains_key(id) && slots[id] is None
}

/// The slots once `reply` has been delivered to request id `id`: only a waiting query
/// takes it.
pub open spec fn delivered(slots: Slots, id: i64, reply: Vec<String>) -> Slots {
    if is_waiting(slots, id) {
        slots.insert(id, Some(reply))
    } else {
        slots
    }
}

/// What polling request id `id` returns, given the slots and whether the reply side is open.
pub open spec fn poll_outcome(slots: Slots, open: bool, id: i64) -> Result<Reply, CorrelationError> {
    if !slots.contains_key(id) {
        Err(CorrelationError::Unknown)
    } else {
        match slots[id] {
            Some(r) => Ok(Reply::Ready(r)),
            None => if open {
                Ok(Reply::Waiting)
            } else {
                Err(CorrelationError::Closed)
            },
        }
    }
}

/// The slots after polling request id `id`: a resolved query, or one that can no longer
/// be resolved, leaves them.
pub open spec fn polled(slots: Slots, open: bool, id: i64) -> Slots {
    match poll_outcome(slots, open, id) {
        Ok(Reply::Waiting) => slots,
        _ => slots.remove(id),
    }
}

/// The outstanding contract queries, each resolved at most once by a matching reply.
pub struct Correlator {
    slots: HashMap<i64, Option<Vec<String>>>,
    open: bool,
}

impl View for Correlator {
    type V = (Slots, bool);

    closed spec fn view(&self) -> (Slots, bool) {
        (self.slots@, self.open)
    }
}

impl Correlator {
    /// No outstanding query; the reply side is open.
    pub fn new() -> (r: Correlator)
        ensures
            r@ == (Map::<i64, Option<Vec<String>>>::empty(), true),
    {
        Correlator { slots: HashMap::new(), open: true }
    }

    /// Registers a query with request id `id`; refused while one with that id is
    /// outstanding.
    pub fn register(&mut self, id: i64) -> (r: Result<(), CorrelationError>)
        ensures
            old(self)@.0.contains_key(id) ==> r == Err::<(), CorrelationError>(
                CorrelationError::AlreadyPending,
            ) && final(self)@ == old(self)@,
            !old(self)@.0.contains_key(id) ==> r is Ok && final(self)@ == (
                old(self)@.0.insert(id, None),
                old(self)@.1,
            ),
    {
        if self.slots.contains_key(&id) {
            return Err(CorrelationError::AlreadyPending);
        }
        self.slots.insert(id, None);
        Ok(())
    }

    /// Whether a query with request id `id` waits for its reply.
    pub fn is_waiting(&self, id: i64) -> (r: bool)
        ensures
            r == is_waiting(self@.0, id),
    {
        match self.slots.get(&id) {
            Some(slot) => slot.is_none(),
            None => false,
        }
    }

    /// Delivers a reply to request id `id`. Only a waiting query takes it; a reply for an
    /// id that is unknown or already answered changes nothing and returns `false`.
    pub fn deliver(&mut self, id: i64, reply: Vec<String>) -> (r: bool)
        ensures
            r == is_waiting(old(self)@.0, id),
            final(self)@ == (delivered(old(self)@.0, id, reply), old(self)@.1),
    {
        if self.is_waiting(id) {
            self.slots.insert(id, Some(reply));
            true
        } else {
            false
        }
    }

    /// Marks the reply side as closed: a waiting query can no longer be answered.
    pub fn close(&mut self)
        ensures
            final(self)@ == (old(self)@.0, false),
    {
        self.open = false;
    }

    /// Polls request id `id`: the reply once it has arrived, `Waiting` before, and
    /// `Closed` once no reply can come.
    pub fn poll(&mut self, id: i64) -> (r: Result<Reply, CorrelationError>)
        ensures
            r == poll_outcome(old(self)@.0, old(self)@.1, id),
            final(self)@ == (polled(old(self)@.0, old(self)@.1, id), old(self)@.1),
    {
        let waiting = self.is_waiting(id);
        if waiting && self.open {
            return Ok(Reply::Waiting);
        }
        match self.slots.remove(&id) {
            Some(Some(reply)) => Ok(Reply::Ready(reply)),
            Some(None) => Err(CorrelationError::Closed),
            None => Err(CorrelationError::Unknown),
        }
    }
}

impl Sieve for Correlator {
    /// A contract-data reply whose request id waits is taken into its slot.
    open spec fn takes(state: (Slots, bool), item: Vec<String>) -> bool {
        &&& kind_of_fields(item) == Some(MessageKind::ContractData)
        &&& reply_id_of(item) is Some
        &&& is_waiting(state.0, reply_id_of(item)->0)
    }

    open spec fn after(state: (Slots, bool), item: Vec<String>) -> (Slots, bool) {
        if Self::takes(state, item) {
            (delivered(state.0, reply_id_of(item)->0, item), state.1)
        } else {
            state
        }
    }

    fn offer(&mut self, item: Vec<String>) -> (r: Option<Vec<String>>) {
        if fields_kind(&item) != Some(MessageKind::ContractData) || item.len() <= 2 {
            return Some(item);
        }
        match parse_i64(item[2].as_str()) {
            Some(id) => {
                if self.is_waiting(id) {
                    self.deliver(id, item);
                    None
                } else {
                    Some(item)
                }
            },
            None => Some(item),
        }
    }
}

/// Exactly once: a query registered with id `k` is resolved by the first reply with that
/// id; a second reply changes nothing; the reply is handed out once, and a second poll
/// finds no query.
pub proof fn lemma_resolved_exactly_once(
    slots: Slots,
    open: bool,
    k: i64,
    first: Vec<String>,
    second: Vec<String>,
)
    requires
        !slots.contains_key(k),
    ensures
        ({
            let registered = slots.insert(k, None);
            let answered = delivered(registered, k, first);
            &&& is_waiting(registered, k)
            &&& !is_waiting(answered, k)
            &&& delivered(answered, k, second) == answered
            &&& poll_outcome(answered, open, k) == Ok::<Reply, CorrelationError>(Reply::Ready(first))
            &&& poll_outcome(polled(answered, open, k), open, k) == Err::<Reply, CorrelationError>(
                CorrelationError::Unknown,
            )
        }),
{
}

} // verus!
