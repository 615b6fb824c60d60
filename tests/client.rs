use ibapi::bootstrap::Bootstrap;
use ibapi::client::{check_valid_account, Builder, Client, Config, Endpoint, Host, Inactive, Ipv4, Mode, Ports, RequestError};
use ibapi::correlation::{CorrelationError, Correlator};
use ibapi::handshake::Timestamp;
use ibapi::queue::DeliveryQueue;

fn fields(items: &[&str]) -> Vec<String> {
    items.iter().map(|s| s.to_string()).collect()
}

fn config() -> Config {
    Config {
        address: Ipv4 { a: 10, b: 0, c: 0, d: 7 },
        ports: Ports { tws_live: 7496, tws_paper: 7497, gateway_live: 4001, gateway_paper: 4002 },
    }
}

fn inactive() -> Client<Inactive> {
    let endpoint = Builder::manual(4002, None).endpoint();
    Client::from_handshake(endpoint, 5, &b"152\x0020230101 00:00:00 UTC".to_vec()).unwrap()
}

fn live() -> Client<ibapi::client::Active> {
    let mut queue = DeliveryQueue::new();
    queue.push(fields(&["15", "1", "DU1111111,"]));
    queue.push(fields(&["9", "1", "100"]));
    let mut boot = Bootstrap::new();
    queue.rotate(&mut boot);
    match inactive().into_active(boot) {
        Ok(c) => c,
        Err(_) => panic!("start-up incomplete"),
    }
}

#[test]
fn default_mode_is_paper() {
    assert_eq!(Mode::default(), Mode::Paper);
}

#[test]
fn config_builder_picks_port_by_mode_and_host() {
    let cases = [
        (Mode::Live, Host::Tws, 7496),
        (Mode::Paper, Host::Tws, 7497),
        (Mode::Live, Host::Gateway, 4001),
        (Mode::Paper, Host::Gateway, 4002),
    ];
    for (mode, host, port) in cases {
        let e = Builder::from_config(mode, host, config()).endpoint();
        assert_eq!(e, Endpoint { mode: Some(mode), host: Some(host), port, address: Ipv4 { a: 10, b: 0, c: 0, d: 7 } });
    }
}

#[test]
fn manual_builder_defaults_to_localhost() {
    let e = Builder::manual(7497, None).endpoint();
    assert_eq!(e.address, Ipv4 { a: 127, b: 0, c: 0, d: 1 });
    assert_eq!(e.port, 7497);
    assert_eq!(e.mode, None);
    let given = Builder::manual(1, Some(Ipv4 { a: 1, b: 2, c: 3, d: 4 })).endpoint();
    assert_eq!(given.address, Ipv4 { a: 1, b: 2, c: 3, d: 4 });
}

#[test]
fn handshake_only_client_exposes_attributes() {
    let c = inactive();
    assert_eq!(c.get_server_version(), 152);
    assert_eq!(c.get_conn_time(), Timestamp { year: 2023, month: 1, day: 1, hour: 0, minute: 0, second: 0, nanosecond: 0 });
    assert_eq!(c.get_client_id(), 5);
    assert_eq!(c.get_port(), 4002);
    assert_eq!(c.get_address(), Ipv4::localhost());
    assert_eq!(c.get_mode(), None);
    assert_eq!(c.get_host(), None);
}

#[test]
fn incomplete_start_up_keeps_client_inactive() {
    let back = inactive().into_active(Bootstrap::new());
    assert!(back.is_err());
}

#[test]
fn end_to_end_order_ids_start_at_server_seed() {
    let mut c = live();
    assert_eq!(c.get_managed_accounts().names(), vec!["DU1111111".to_string()]);
    assert_eq!(c.get_server_version(), 152);
    assert!(c.can_allocate_order_id());
    assert_eq!(c.get_next_order_id(), 100);
    assert_eq!(c.get_next_order_id(), 101);
    assert_eq!(c.get_next_req_id(), 0);
    assert_eq!(c.get_next_req_id(), 1);
}

#[test]
fn account_checks_happen_before_sending() {
    let mut c = live();
    assert_eq!(check_valid_account(&c, "DU1111111"), Ok(()));
    assert_eq!(check_valid_account(&c, "DU2"), Err(RequestError::InvalidAccount));
    assert_eq!(c.req_account_updates(Some("DU2".to_string())), Err(RequestError::InvalidAccount));
    assert_eq!(c.req_account_updates(None).unwrap(), fields(&["6", "2", "1", ""]));
    assert_eq!(c.cancel_account_updates(Some("DU1111111".to_string())).unwrap(), fields(&["6", "2", "0", "DU1111111"]));
    assert_eq!(c.req_pnl("DU2".to_string()), Err(RequestError::InvalidAccount));
    assert_eq!(c.req_pnl("DU1111111".to_string()).unwrap(), (1, fields(&["92", "1", "DU1111111", ""])));
    assert_eq!(
        c.req_single_position_pnl("DU1111111".to_string(), 265598).unwrap(),
        (2, fields(&["94", "2", "DU1111111", "", "265598"]))
    );
}

#[test]
fn plain_requests() {
    let mut c = live();
    assert_eq!(c.req_current_time(), fields(&["49", "1"]));
    assert_eq!(c.req_managed_accounts(), fields(&["17", "1"]));
    assert_eq!(c.req_completed_orders(true), fields(&["99", "1"]));
    assert_eq!(c.cancel_order(100), fields(&["4", "1", "100", ""]));
    assert_eq!(c.cancel_market_data(3), fields(&["2", "2", "3"]));
    assert_eq!(c.req_market_depth_exchanges(), fields(&["82"]));
    assert_eq!(c.req_user_info(), (0, fields(&["104", "0"])));
}

#[test]
fn contract_query_registers_its_id() {
    let mut c = live();
    let mut queries = Correlator::new();
    let (id, f) = c.send_contract_query(265598, &mut queries).unwrap();
    assert_eq!(id, 0);
    assert_eq!(f.len(), 19);
    assert_eq!(&f[..4], &fields(&["9", "8", "0", "265598"])[..]);
    assert!(f[4..].iter().all(|s| s.is_empty()));
    assert!(queries.is_waiting(0));
    let mut other = Correlator::new();
    other.register(1).unwrap();
    assert_eq!(c.send_contract_query(1, &mut other), Err(CorrelationError::AlreadyPending));
}

#[test]
fn disconnect_gives_a_builder_for_the_same_place() {
    let c = live();
    let b = c.disconnect();
    assert_eq!(b, Builder::manual(4002, Some(Ipv4::localhost())));
}
