//! The outgoing requests of a live client, as lists of fields ready to be framed.
use vstd::prelude::*;

use crate::client::{check_valid_account, Active, Client, RequestError};
use crate::correlation::{CorrelationError, Correlator};
use crate::decimal::{i64_text, signed_text};

verus! {

pub const CANCEL_MKT_DATA: i64 = 2;
pub const CANCEL_ORDER: i64 = 4;
pub const REQ_OPEN_ORDERS: i64 = 5;
pub const REQ_ACCT_DATA: i64 = 6;
pub const REQ_CONTRACT_DATA: i64 = 9;
pub const CANCEL_MKT_DEPTH: i64 = 11;
pub const REQ_AUTO_OPEN_ORDERS: i64 = 15;
pub const REQ_ALL_OPEN_ORDERS: i64 = 16;
pub const REQ_MANAGED_ACCTS: i64 = 17;
pub const CANCEL_HISTORICAL_DATA: i64 = 25;
pub const REQ_CURRENT_TIME: i64 = 49;
pub const CANCEL_REAL_TIME_BARS: i64 = 51;
pub const REQ_GLOBAL_CANCEL: i64 = 58;
pub const REQ_POSITIONS: i64 = 61;
pub const CANCEL_ACCOUNT_SUMMARY: i64 = 63;
pub const CANCEL_POSITIONS: i64 = 64;
pub const REQ_MKT_DEPTH_EXCHANGES: i64 = 82;
pub const CANCEL_HISTOGRAM_DATA: i64 = 89;
pub const CANCEL_HEAD_TIMESTAMP: i64 = 90;
pub const REQ_PNL: i64 = 92;
pub const CANCEL_PNL: i64 = 93;
pub const REQ_PNL_SINGLE: i64 = 94;
pub const CANCEL_TICK_BY_TICK_DATA: i64 = 98;
pub const REQ_COMPLETED_ORDERS: i64 = 99;
pub const REQ_USER_INFO: i64 = 104;

/// The number of empty fields that close a contract query.
pub const CONTRACT_QUERY_PADDING: usize = 15;

/// The text of an optional account: the account, or an empty field.
pub open spec fn optional_text(account: Option<String>) -> Seq<char> {
    match account {
        Some(a) => a@,
        None => Seq::<char>::empty(),
    }
}

/// Whether `account` is given and is not one of `accounts`.
pub open spec fn unknown_account(account: Option<String>, accounts: Set<Seq<char>>) -> bool {
    account matches Some(a) && !accounts.contains(a@)
}

/// The fields that subscribe to (`subscribe == 1`) or cancel (`subscribe == 0`) account
/// updates.
pub open spec fn account_data_fields(subscribe: int, account: Option<String>) -> Seq<Seq<char>> {
    seq![
        signed_text(REQ_ACCT_DATA as int),
        signed_text(2),
        signed_text(subscribe),
        optional_text(account),
    ]
}

/// `after` is `before` with one more request id handed out, and nothing else changed.
pub open spec fn took_req_id(before: Client<Active>, after: Client<Active>) -> bool {
    &&& after.req_ids().issued() == before.req_ids().issued().push(before.req_ids().upcoming())
    &&& after.req_ids().upcoming() == before.req_ids().upcoming() + 1
    &&& after.order_ids() == before.order_ids()
    &&& after.managed_accounts() == before.managed_accounts()
    &&& after.attrs() == before.attrs()
}

/// The fields of a contract query: tag, version, request id, contract id, and the empty
/// fields that close it.
pub open spec fn contract_query_fields(id: i64, contract_id: i64) -> Seq<Seq<char>> {
    seq![
        signed_text(REQ_CONTRACT_DATA as int),
        signed_text(8),
        signed_text(id as int),
        signed_text(contract_id as int),
    ] + Seq::new(CONTRACT_QUERY_PADDING as nat, |i: int| Seq::<char>::empty())
}

impl Client<Active> {
    /// Asks for the server's current time.
    pub fn req_current_time(&self) -> (r: Vec<String>)
        ensures
            r.deep_view() == seq![signed_text(REQ_CURRENT_TIME as int), signed_text(1)],
    {
        let mut f: Vec<String> = Vec::new();
        f.push(i64_text(REQ_CURRENT_TIME));
        f.push(i64_text(1));
        assert(f.deep_view() =~= seq![signed_text(REQ_CURRENT_TIME as int), signed_text(1)]);
        f
    }

    /// Asks for the accounts that the logged-in user can reach.
    pub fn req_managed_accounts(&self) -> (r: Vec<String>)
        ensures
            r.deep_view() == seq![signed_text(REQ_MANAGED_ACCTS as int), signed_text(1)],
    {
        let mut f: Vec<String> = Vec::new();
        f.push(i64_text(REQ_MANAGED_ACCTS));
        f.push(i64_text(1));
        assert(f.deep_view() =~= seq![signed_text(REQ_MANAGED_ACCTS as int), signed_text(1)]);
        f
    }

    /// Subscribes to position updates for all accessible accounts.
    pub fn req_positions(&self) -> (r: Vec<String>)
        ensures
            r.deep_view() == seq![signed_text(REQ_POSITIONS as int), signed_text(1)],
    {
        let mut f: Vec<String> = Vec::new();
        f.push(i64_text(REQ_POSITIONS));
        f.push(i64_text(1));
        assert(f.deep_view() =~= seq![signed_text(REQ_POSITIONS as int), signed_text(1)]);
        f
    }

    /// Cancels the position subscription.
    pub fn cancel_positions(&self) -> (r: Vec<String>)
        ensures
            r.deep_view() == seq![signed_text(CANCEL_POSITIONS as int), signed_text(1)],
    {
        let mut f: Vec<String> = Vec::new();
        f.push(i64_text(CANCEL_POSITIONS));
        f.push(i64_text(1));
        assert(f.deep_view() =~= seq![signed_text(CANCEL_POSITIONS as int), signed_text(1)]);
        f
    }

    /// Cancels a profit-and-loss subscription.
    pub fn cancel_pnl(&self, req_id: i64) -> (r: Vec<String>)
        ensures
            r.deep_view() == seq![signed_text(CANCEL_PNL as int), signed_text(req_id as int)],
    {
        let mut f: Vec<String> = Vec::new();
        f.push(i64_text(CANCEL_PNL));
        f.push(i64_text(req_id));
        assert(f.deep_view() =~= seq![signed_text(CANCEL_PNL as int), signed_text(req_id as int)]);
        f
    }

    /// Cancels a single-position profit-and-loss subscription.
    pub fn cancel_pnl_single(&self, req_id: i64) -> (r: Vec<String>)
        ensures
            r.deep_view() == seq![signed_text(CANCEL_PNL as int), signed_text(req_id as int)],
    {
        let mut f: Vec<String> = Vec::new();
        f.push(i64_text(CANCEL_PNL));
        f.push(i64_text(req_id));
        assert(f.deep_view() =~= seq![signed_text(CANCEL_PNL as int), signed_text(req_id as int)]);
        f
    }

    /// Asks for completed orders; with `api_only`, only those placed through the API.
    pub fn req_completed_orders(&self, api_only: bool) -> (r: Vec<String>)
        ensures
            r.deep_view() == seq![
                signed_text(REQ_COMPLETED_ORDERS as int),
                signed_text(if api_only { 1 } else { 0 }),
            ],
    {
        let mut f: Vec<String> = Vec::new();
        f.push(i64_text(REQ_COMPLETED_ORDERS));
        f.push(i64_text(if api_only { 1 } else { 0 }));
        assert(f.deep_view() =~= seq![
            signed_text(REQ_COMPLETED_ORDERS as int),
            signed_text(if api_only { 1 } else { 0 }),
        ]);
        f
    }

    /// Cancels an account summary subscription.
    pub fn cancel_account_summary(&self, req_id: i64) -> (r: Vec<String>)
        ensures
            r.deep_view() == seq![
                signed_text(CANCEL_ACCOUNT_SUMMARY as int),
                signed_text(1),
                signed_text(req_id as int),
            ],
    {
        let mut f: Vec<String> = Vec::new();
        f.push(i64_text(CANCEL_ACCOUNT_SUMMARY));
        f.push(i64_text(1));
        f.push(i64_text(req_id));
        assert(f.deep_view() =~= seq![
            signed_text(CANCEL_ACCOUNT_SUMMARY as int),
            signed_text(1),
            signed_text(req_id as int),
        ]);
        f
    }

    /// Cancels an updating historical bar subscription.
    pub fn cancel_updating_historical_bar(&self, req_id: i64) -> (r: Vec<String>)
        ensures
            r.deep_view() == seq![
                signed_text(CANCEL_HISTORICAL_DATA as int),
                signed_text(1),
                signed_text(req_id as int),
            ],
    {
        let mut f: Vec<String> = Vec::new();
        f.push(i64_text(CANCEL_HISTORICAL_DATA));
        f.push(i64_text(1));
        f.push(i64_text(req_id));
        assert(f.deep_view() =~= seq![
            signed_text(CANCEL_HISTORICAL_DATA as int),
            signed_text(1),
            signed_text(req_id as int),
        ]);
        f
    }

    /// Cancels a head timestamp request.
    pub fn cancel_head_timestamp(&self, req_id: i64) -> (r: Vec<String>)
        ensures
            r.deep_view() == seq![signed_text(CANCEL_HEAD_TIMESTAMP as int), signed_text(req_id as int)],
    {
        let mut f: Vec<String> = Vec::new();
        f.push(i64_text(CANCEL_HEAD_TIMESTAMP));
        f.push(i64_text(req_id));
        assert(f.deep_view() =~= seq![signed_text(CANCEL_HEAD_TIMESTAMP as int), signed_text(req_id as int)]);
        f
    }

    /// Cancels a histogram data request.
    pub fn cancel_histogram_data(&self, req_id: i64) -> (r: Vec<String>)
        ensures
            r.deep_view() == seq![signed_text(CANCEL_HISTOGRAM_DATA as int), signed_text(req_id as int)],
    {
        let mut f: Vec<String> = Vec::new();
        f.push(i64_text(CANCEL_HISTOGRAM_DATA));
        f.push(i64_text(req_id));
        assert(f.deep_view() =~= seq![signed_text(CANCEL_HISTOGRAM_DATA as int), signed_text(req_id as int)]);
        f
    }

    /// Cancels a market data subscription.
    pub fn cancel_market_data(&self, req_id: i64) -> (r: Vec<String>)
        ensures
            r.deep_view() == seq![
                signed_text(CANCEL_MKT_DATA as int),
                signed_text(2),
                signed_text(req_id as int),
            ],
    {
        let mut f: Vec<String> = Vec::new();
        f.push(i64_text(CANCEL_MKT_DATA));
        f.push(i64_text(2));
        f.push(i64_text(req_id));
        assert(f.deep_view() =~= seq![signed_text(CANCEL_MKT_DATA as int), signed_text(2), signed_text(req_id as int)]);
        f
    }

    /// Cancels a real-time bar subscription.
    pub fn cancel_real_time_bars(&self, req_id: i64) -> (r: Vec<String>)
        ensures
            r.deep_view() == seq![
                signed_text(CANCEL_REAL_TIME_BARS as int),
                signed_text(1),
                signed_text(req_id as int),
            ],
    {
        let mut f: Vec<String> = Vec::new();
        f.push(i64_text(CANCEL_REAL_TIME_BARS));
        f.push(i64_text(1));
        f.push(i64_text(req_id));
        assert(f.deep_view() =~= seq![
            signed_text(CANCEL_REAL_TIME_BARS as int),
            signed_text(1),
            signed_text(req_id as int),
        ]);
        f
    }

    /// Cancels a tick-by-tick subscription.
    pub fn cancel_tick_by_tick_data(&self, req_id: i64) -> (r: Vec<String>)
        ensures
            r.deep_view() == seq![signed_text(CANCEL_TICK_BY_TICK_DATA as int), signed_text(req_id as int)],
    {
        let mut f: Vec<String> = Vec::new();
        f.push(i64_text(CANCEL_TICK_BY_TICK_DATA));
        f.push(i64_text(req_id));
        assert(f.deep_view() =~= seq![signed_text(CANCEL_TICK_BY_TICK_DATA as int), signed_text(req_id as int)]);
        f
    }

    /// Asks for the exchanges that offer market depth.
    pub fn req_market_depth_exchanges(&self) -> (r: Vec<String>)
        ensures
            r.deep_view() == seq![signed_text(REQ_MKT_DEPTH_EXCHANGES as int)],
    {
        let mut f: Vec<String> = Vec::new();
        f.push(i64_text(REQ_MKT_DEPTH_EXCHANGES));
        assert(f.deep_view() =~= seq![signed_text(REQ_MKT_DEPTH_EXCHANGES as int)]);
        f
    }

    /// Cancels a market depth subscription.
    pub fn cancel_market_depth(&self, req_id: i64) -> (r: Vec<String>)
        ensures
            r.deep_view() == seq![
                signed_text(CANCEL_MKT_DEPTH as int),
                signed_text(1),
                signed_text(req_id as int),
            ],
    {
        let mut f: Vec<String> = Vec::new();
        f.push(i64_text(CANCEL_MKT_DEPTH));
        f.push(i64_text(1));
        f.push(i64_text(req_id));
        assert(f.deep_view() =~= seq![signed_text(CANCEL_MKT_DEPTH as int), signed_text(1), signed_text(req_id as int)]);
        f
    }

    /// Cancels the order with id `id`.
    pub fn cancel_order(&self, id: i64) -> (r: Vec<String>)
        ensures
            r.deep_view() == seq![
                signed_text(CANCEL_ORDER as int),
                signed_text(1),
                signed_text(id as int),
                Seq::<char>::empty(),
            ],
    {
        let mut f: Vec<String> = Vec::new();
        f.push(i64_text(CANCEL_ORDER));
        f.push(i64_text(1));
        f.push(i64_text(id));
        f.push(String::new());
        assert(f.deep_view() =~= seq![
            signed_text(CANCEL_ORDER as int),
            signed_text(1),
            signed_text(id as int),
            Seq::<char>::empty(),
        ]);
        f
    }

    /// Cancels every open order, including those placed elsewhere.
    pub fn cancel_all_orders(&self) -> (r: Vec<String>)
        ensures
            r.deep_view() == seq![signed_text(REQ_GLOBAL_CANCEL as int), signed_text(1)],
    {
        let mut f: Vec<String> = Vec::new();
        f.push(i64_text(REQ_GLOBAL_CANCEL));
        f.push(i64_text(1));
        assert(f.deep_view() =~= seq![signed_text(REQ_GLOBAL_CANCEL as int), signed_text(1)]);
        f
    }

    /// Asks for all open orders of every client.
    pub fn req_all_open_orders(&self) -> (r: Vec<String>)
        ensures
            r.deep_view() == seq![signed_text(REQ_ALL_OPEN_ORDERS as int), signed_text(1)],
    {
        let mut f: Vec<String> = Vec::new();
        f.push(i64_text(REQ_ALL_OPEN_ORDERS));
        f.push(i64_text(1));
        assert(f.deep_view() =~= seq![signed_text(REQ_ALL_OPEN_ORDERS as int), signed_text(1)]);
        f
    }

    /// Asks that new orders placed elsewhere be bound to this client.
    pub fn req_auto_open_orders(&self) -> (r: Vec<String>)
        ensures
            r.deep_view() == seq![signed_text(REQ_AUTO_OPEN_ORDERS as int), signed_text(1), signed_text(1)],
    {
        let mut f: Vec<String> = Vec::new();
        f.push(i64_text(REQ_AUTO_OPEN_ORDERS));
        f.push(i64_text(1));
        f.push(i64_text(1));
        assert(f.deep_view() =~= seq![signed_text(REQ_AUTO_OPEN_ORDERS as int), signed_text(1), signed_text(1)]);
        f
    }

    /// Asks for the open orders this client placed.
    pub fn req_open_orders(&self) -> (r: Vec<String>)
        ensures
            r.deep_view() == seq![signed_text(REQ_OPEN_ORDERS as int), signed_text(1)],
    {
        let mut f: Vec<String> = Vec::new();
        f.push(i64_text(REQ_OPEN_ORDERS));
        f.push(i64_text(1));
        assert(f.deep_view() =~= seq![signed_text(REQ_OPEN_ORDERS as int), signed_text(1)]);
        f
    }

    /// Subscribes to account updates, for `account` when given; refused when `account` is
    /// not one of the managed accounts.
    pub fn req_account_updates(&self, account: Option<String>) -> (r: Result<
        Vec<String>,
        RequestError,
    >)
        ensures
            unknown_account(account, self.managed_accounts()) ==> r == Err::<
                Vec<String>,
                RequestError,
            >(RequestError::InvalidAccount),
            !unknown_account(account, self.managed_accounts()) ==> (r matches Ok(f)
                && f.deep_view() == account_data_fields(1, account)),
    {
        self.account_data(account, 1)
    }

    /// Cancels the account updates subscription, for `account` when given; refused when
    /// `account` is not one of the managed accounts.
    pub fn cancel_account_updates(&self, account: Option<String>) -> (r: Result<
        Vec<String>,
        RequestError,
    >)
        ensures
            unknown_account(account, self.managed_accounts()) ==> r == Err::<
                Vec<String>,
                RequestError,
            >(RequestError::InvalidAccount),
            !unknown_account(account, self.managed_accounts()) ==> (r matches Ok(f)
                && f.deep_view() == account_data_fields(0, account)),
    {
        self.account_data(account, 0)
    }

    fn account_data(&self, account: Option<String>, subscribe: i64) -> (r: Result<
        Vec<String>,
        RequestError,
    >)
        ensures
            unknown_account(account, self.managed_accounts()) ==> r == Err::<
                Vec<String>,
                RequestError,
            >(RequestError::InvalidAccount),
            !unknown_account(account, self.managed_accounts()) ==> (r matches Ok(f)
                && f.deep_view() == account_data_fields(subscribe as int, account)),
    {
        let text = match account {
            Some(a) => {
                check_valid_account(self, a.as_str())?;
                a
            },
            None => String::new(),
        };
        let mut f: Vec<String> = Vec::new();
        f.push(i64_text(REQ_ACCT_DATA));
        f.push(i64_text(2));
        f.push(i64_text(subscribe));
        f.push(text);
        assert(f.deep_view() =~= account_data_fields(subscribe as int, account));
        Ok(f)
    }

    /// Subscribes to daily profit and loss of `account` under a new request id. The id is
    /// taken before the account is checked, so a refused request still uses one.
    pub fn req_pnl(&mut self, account: String) -> (r: Result<(i64, Vec<String>), RequestError>)
        requires
            old(self).req_ids().upcoming() < i64::MAX,
        ensures
            took_req_id(*old(self), *final(self)),
            !old(self).managed_accounts().contains(account@) ==> r == Err::<
                (i64, Vec<String>),
                RequestError,
            >(RequestError::InvalidAccount),
            old(self).managed_accounts().contains(account@) ==> (r matches Ok((id, f)) && id
                == old(self).req_ids().upcoming() && f.deep_view() == seq![
                signed_text(REQ_PNL as int),
                signed_text(id as int),
                account@,
                Seq::<char>::empty(),
            ]),
    {
        let id = self.get_next_req_id();
        check_valid_account(self, account.as_str())?;
        let mut f: Vec<String> = Vec::new();
        f.push(i64_text(REQ_PNL));
        f.push(i64_text(id));
        let ghost acct = account@;
        f.push(account);
        f.push(String::new());
        assert(f.deep_view() =~= seq![
            signed_text(REQ_PNL as int),
            signed_text(id as int),
            acct,
            Seq::<char>::empty(),
        ]);
        Ok((id, f))
    }

    /// Subscribes to profit and loss of one position, of contract `contract_id` in
    /// `account`, under a new request id taken before the account is checked.
    pub fn req_single_position_pnl(&mut self, account: String, contract_id: i64) -> (r: Result<
        (i64, Vec<String>),
        RequestError,
    >)
        requires
            old(self).req_ids().upcoming() < i64::MAX,
        ensures
            took_req_id(*old(self), *final(self)),
            !old(self).managed_accounts().contains(account@) ==> r == Err::<
                (i64, Vec<String>),
                RequestError,
            >(RequestError::InvalidAccount),
            old(self).managed_accounts().contains(account@) ==> (r matches Ok((id, f)) && id
                == old(self).req_ids().upcoming() && f.deep_view() == seq![
                signed_text(REQ_PNL_SINGLE as int),
                signed_text(id as int),
                account@,
                Seq::<char>::empty(),
                signed_text(contract_id as int),
            ]),
    {
        let id = self.get_next_req_id();
        check_valid_account(self, account.as_str())?;
        let mut f: Vec<String> = Vec::new();
        f.push(i64_text(REQ_PNL_SINGLE));
        f.push(i64_text(id));
        let ghost acct = account@;
        f.push(account);
        f.push(String::new());
        f.push(i64_text(contract_id));
        assert(f.deep_view() =~= seq![
            signed_text(REQ_PNL_SINGLE as int),
            signed_text(id as int),
            acct,
            Seq::<char>::empty(),
            signed_text(contract_id as int),
        ]);
        Ok((id, f))
    }

    /// Asks for the user's details under a new request id.
    pub fn req_user_info(&mut self) -> (r: (i64, Vec<String>))
        requires
            old(self).req_ids().upcoming() < i64::MAX,
        ensures
            took_req_id(*old(self), *final(self)),
            r.0 == old(self).req_ids().upcoming(),
            r.1.deep_view() == seq![signed_text(REQ_USER_INFO as int), signed_text(r.0 as int)],
    {
        let id = self.get_next_req_id();
        let mut f: Vec<String> = Vec::new();
        f.push(i64_text(REQ_USER_INFO));
        f.push(i64_text(id));
        assert(f.deep_view() =~= seq![signed_text(REQ_USER_INFO as int), signed_text(id as int)]);
        (id, f)
    }

    /// Asks for the details of contract `contract_id` under a new request id, which is
    /// registered with `queries` first so that the reply can be told apart; refused while a
    /// query with that id is outstanding.
    pub fn send_contract_query(&mut self, contract_id: i64, queries: &mut Correlator) -> (r: Result<
        (i64, Vec<String>),
        CorrelationError,
    >)
        requires
            old(self).req_ids().upcoming() < i64::MAX,
        ensures
            took_req_id(*old(self), *final(self)),
            old(queries)@.0.contains_key(old(self).req_ids().upcoming()) ==> r == Err::<
                (i64, Vec<String>),
                CorrelationError,
            >(CorrelationError::AlreadyPending) && final(queries)@ == old(queries)@,
            !old(queries)@.0.contains_key(old(self).req_ids().upcoming()) ==> (r matches Ok((id, f))
                && id == old(self).req_ids().upcoming() && final(queries)@ == (
                old(queries)@.0.insert(id, None),
                old(queries)@.1,
            ) && f.deep_view() == contract_query_fields(id, contract_id)),
    {
        let id = self.get_next_req_id();
        queries.register(id)?;
        let mut f: Vec<String> = Vec::new();
        f.push(i64_text(REQ_CONTRACT_DATA));
        f.push(i64_text(8));
        f.push(i64_text(id));
        f.push(i64_text(contract_id));
        let ghost head = f.deep_view();
        let mut k: usize = 0;
        while k < CONTRACT_QUERY_PADDING
            invariant
                k <= CONTRACT_QUERY_PADDING,
                f.deep_view() == head + Seq::new(k as nat, |i: int| Seq::<char>::empty()),
            decreases CONTRACT_QUERY_PADDING - k,
        {
            let ghost before = f.deep_view();
            f.push(String::new());
            assert(f.deep_view() =~= before.push(Seq::<char>::empty()));
            k = k + 1;
            assert(head + Seq::new(k as nat, |i: int| Seq::<char>::empty()) =~= before.push(
                Seq::<char>::empty(),
            ));
        }
        assert(f.deep_view() =~= contract_query_fields(id, contract_id));
        Ok((id, f))
    }
}

} // verus!
