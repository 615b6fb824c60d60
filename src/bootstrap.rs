//! Extraction of the start-up messages that make a connection live.
use vstd::prelude::*;

use crate::accounts::{accounts_of, ManagedAccounts};
use crate::decimal::{i64_of, parse_i64};
use crate::kind::MessageKind;
use crate::queue::{fields_kind, kind_of_fields, sieve_after, sieve_kept, Sieve};

verus! {

/// The order identifier that a next-valid-id message carries in its third field.
pub open spec fn order_id_of(item: Vec<String>) -> Option<i64> {
    if item@.len() > 2 {
        i64_of(item@[2]@)
    } else {
        None
    }
}

/// Whether a message is of a kind that start-up looks for.
pub open spec fn is_bootstrap_kind(k: Option<MessageKind>) -> bool {
    k == Some(MessageKind::ManagedAccts) || k == Some(MessageKind::NextValidId)
}

/// What start-up has found so far: the managed accounts and the first order identifier.
#[derive(Debug)]
pub struct Bootstrap {
    accounts: Option<ManagedAccounts>,
    order_id: Option<i64>,
}

impl View for Bootstrap {
    type V = (Option<Set<Seq<char>>>, Option<i64>);

    closed spec fn view(&self) -> (Option<Set<Seq<char>>>, Option<i64>) {
        (
            match self.accounts {
                Some(a) => Some(a@),
                None => None,
            },
            self.order_id,
        )
    }
}

impl Sieve for Bootstrap {
    /// Start-up takes the first managed-accounts message, and next-valid-id messages until
    /// one carries a valid identifier.
    open spec fn takes(state: (Option<Set<Seq<char>>>, Option<i64>), item: Vec<String>) -> bool {
        match kind_of_fields(item) {
            Some(MessageKind::ManagedAccts) => state.0 is None,
            Some(MessageKind::NextValidId) => state.1 is None,
            _ => false,
        }
    }

    open spec fn after(state: (Option<Set<Seq<char>>>, Option<i64>), item: Vec<String>) -> (
        Option<Set<Seq<char>>>,
        Option<i64>,
    ) {
        if !Self::takes(state, item) {
            state
        } else if kind_of_fields(item) == Some(MessageKind::ManagedAccts) {
            (Some(accounts_of(item.deep_view())), state.1)
        } else {
            (state.0, order_id_of(item))
        }
    }

    fn offer(&mut self, item: Vec<String>) -> (r: Option<Vec<String>>) {
        let kind = fields_kind(&item);
        match kind {
            Some(MessageKind::ManagedAccts) => {
                if self.accounts.is_none() {
                    self.accounts = Some(ManagedAccounts::from_fields(&item));
                    None
                } else {
                    Some(item)
                }
            },
            Some(MessageKind::NextValidId) => {
                if self.order_id.is_none() {
                    if item.len() > 2 {
                        self.order_id = parse_i64(item[2].as_str());
                    }
                    None
                } else {
                    Some(item)
                }
            },
            _ => Some(item),
        }
    }
}

impl Bootstrap {
    /// Nothing found yet.
    pub fn new() -> (r: Bootstrap)
        ensures
            r@ == (None::<Set<Seq<char>>>, None::<i64>),
    {
        Bootstrap { accounts: None, order_id: None }
    }

    /// Whether both the managed accounts and a valid order identifier have been found.
    pub fn is_complete(&self) -> (r: bool)
        ensures
            r == (self@.0 is Some && self@.1 is Some),
    {
        self.accounts.is_some() && self.order_id.is_some()
    }

    /// The managed accounts and the first order identifier once both have been found;
    /// before that, this state itself back.
    pub fn finish(self) -> (r: Result<(ManagedAccounts, i64), Bootstrap>)
        ensures
            match r {
                Ok((a, id)) => self@ == (Some(a@), Some(id)),
                Err(back) => back@ == self@ && !(self@.0 is Some && self@.1 is Some),
            },
    {
        match self {
            Bootstrap { accounts: Some(a), order_id: Some(id) } => Ok((a, id)),
            _ => Err(self),
        }
    }
}

/// Offering messages of other kinds changes nothing and hands each of them back.
proof fn lemma_inert_kept(s: (Option<Set<Seq<char>>>, Option<i64>), items: Seq<Vec<String>>)
    requires
        forall|i: int| 0 <= i < items.len() ==> !is_bootstrap_kind(kind_of_fields(#[trigger] items[i])),
    ensures
        sieve_kept::<Bootstrap>(s, items) == items,
        sieve_after::<Bootstrap>(s, items) == s,
    decreases items.len(),
{
    if items.len() > 0 {
        let d = items.drop_last();
        assert forall|i: int| 0 <= i < d.len() implies !is_bootstrap_kind(kind_of_fields(#[trigger] d[i])) by {
            assert(d[i] == items[i]);
        }
        lemma_inert_kept(s, d);
        assert(!is_bootstrap_kind(kind_of_fields(items[items.len() - 1])));
        assert(d.push(items.last()) =~= items);
    }
}

/// Rotation: when the queue holds one message that start-up takes, among messages of
/// other kinds, one rotation removes that message and leaves the others in their order.
pub proof fn lemma_rotation_removes_target(
    s: (Option<Set<Seq<char>>>, Option<i64>),
    items: Seq<Vec<String>>,
    k: int,
)
    requires
        0 <= k < items.len(),
        Bootstrap::takes(s, items[k]),
        forall|i: int|
            0 <= i < items.len() && i != k ==> !is_bootstrap_kind(kind_of_fields(#[trigger] items[i])),
    ensures
        sieve_kept::<Bootstrap>(s, items) == items.remove(k),
    decreases items.len(),
{
    let d = items.drop_last();
    if k == items.len() - 1 {
        assert forall|i: int| 0 <= i < d.len() implies !is_bootstrap_kind(kind_of_fields(#[trigger] d[i])) by {
            assert(d[i] == items[i]);
        }
        lemma_inert_kept(s, d);
        assert(items.remove(k) =~= d);
    } else {
        assert(d[k] == items[k]);
        assert forall|i: int| 0 <= i < d.len() && i != k implies !is_bootstrap_kind(kind_of_fields(#[trigger] d[i])) by {
            assert(d[i] == items[i]);
        }
        lemma_rotation_removes_target(s, d, k);
        assert(!is_bootstrap_kind(kind_of_fields(items[items.len() - 1])));
        assert(d.remove(k).push(items.last()) =~= items.remove(k));
    }
}

} // verus!
