use vault_coordinator::balance::balance_of;
use vault_coordinator::error::{DaemonError, Error};
use vault_coordinator::history::HistoryState;
use vault_coordinator::home::ManagerHomeState;
use vault_coordinator::message::{Message, Request, VaultMessage, VaultTransactions};
use vault_coordinator::network::ManagerNetworkState;
use vault_coordinator::vault::{find_vault, OutPoint, Vault, VaultStatus};

fn vault(txid: &str, vout: u32, amount: u64, status: VaultStatus) -> Vault {
    Vault {
        outpoint: OutPoint::new(txid.to_string(), vout),
        amount,
        address: "bc1qw508d6qejxtdg4y5r3zarvary0c5xw7kv8f3t4".to_string(),
        derivation_index: 0,
        status,
    }
}

fn daemon_down() -> DaemonError {
    DaemonError { message: "connection refused".to_string() }
}

#[test]
fn balance_of_one_active_and_one_funded_vault() {
    let vaults = vec![
        vault("a", 0, 100000, VaultStatus::Active),
        vault("b", 0, 50000, VaultStatus::Funded),
    ];
    assert_eq!(balance_of(&vaults), (100000, 50000));
}

#[test]
fn balance_of_no_vaults_is_zero() {
    assert_eq!(balance_of(&[]), (0, 0));
}

#[test]
fn balance_counts_each_status_on_its_side() {
    let vaults = vec![
        vault("a", 0, 1, VaultStatus::Active),
        vault("b", 0, 2, VaultStatus::Unvaulting),
        vault("c", 0, 4, VaultStatus::Unvaulted),
        vault("d", 0, 8, VaultStatus::Secured),
        vault("e", 0, 16, VaultStatus::Funded),
        vault("f", 0, 32, VaultStatus::Unconfirmed),
        vault("g", 0, 64, VaultStatus::Spending),
        vault("h", 0, 128, VaultStatus::Spent),
        vault("i", 0, 256, VaultStatus::Canceled),
        vault("j", 0, 512, VaultStatus::EmergencyVaulting),
        vault("k", 0, 1024, VaultStatus::EmergencyVaulted),
    ];
    assert_eq!(balance_of(&vaults), (7, 56));
}

#[test]
fn balance_stays_within_the_sum_of_all_amounts() {
    let vaults = vec![
        vault("a", 0, 700, VaultStatus::Active),
        vault("b", 0, 20, VaultStatus::Secured),
        vault("c", 0, 5, VaultStatus::Spent),
    ];
    let total: u64 = vaults.iter().map(|v| v.amount).sum();
    let (active, inactive) = balance_of(&vaults);
    assert_eq!(active + inactive, 720);
    assert!(active + inactive < total);
    let counted = vec![
        vault("a", 0, 700, VaultStatus::Active),
        vault("b", 0, 20, VaultStatus::Secured),
    ];
    let (active, inactive) = balance_of(&counted);
    assert_eq!(active + inactive, 720);
}

#[test]
fn balance_stops_at_the_largest_amount() {
    let vaults = vec![
        vault("a", 0, u64::MAX, VaultStatus::Active),
        vault("b", 0, 5, VaultStatus::Active),
        vault("c", 0, 7, VaultStatus::Funded),
    ];
    assert_eq!(balance_of(&vaults), (u64::MAX, 7));
}

#[test]
fn status_sides_are_apart() {
    assert!(VaultStatus::Active.counts_as_active());
    assert!(!VaultStatus::Active.counts_as_inactive());
    assert!(VaultStatus::Funded.counts_as_inactive());
    assert!(!VaultStatus::Funded.counts_as_active());
    assert!(!VaultStatus::Canceled.counts_as_active());
    assert!(!VaultStatus::Canceled.counts_as_inactive());
}

#[test]
fn find_vault_gives_the_first_match() {
    let vaults = vec![
        vault("a", 0, 1, VaultStatus::Active),
        vault("b", 1, 2, VaultStatus::Active),
        vault("b", 1, 3, VaultStatus::Funded),
    ];
    assert_eq!(find_vault(&vaults, &OutPoint::new("b".to_string(), 1)), Some(1));
    assert_eq!(find_vault(&vaults, &OutPoint::new("b".to_string(), 0)), None);
    assert_eq!(find_vault(&vaults, &OutPoint::new("c".to_string(), 1)), None);
    assert_eq!(find_vault(&Vec::new(), &OutPoint::new("a".to_string(), 0)), None);
}

#[test]
fn outpoints_compare_by_both_parts() {
    let a = OutPoint::new("a".to_string(), 3);
    assert!(a.same_as(&a.duplicate()));
    assert!(!a.same_as(&OutPoint::new("a".to_string(), 4)));
    assert!(!a.same_as(&OutPoint::new("b".to_string(), 3)));
}

#[test]
fn history_starts_empty() {
    let state = HistoryState::new();
    assert_eq!(state.blockheight, 0);
    assert!(state.vaults.is_empty());
    assert!(state.warning.is_none());
    assert!(state.selected_vault.is_none());
}

#[test]
fn history_refresh_replaces_the_vaults() {
    let mut state = HistoryState::new();
    state.update_vaults(vec![vault("a", 0, 1, VaultStatus::Active)]);
    state.update_vaults(vec![
        vault("b", 0, 2, VaultStatus::Funded),
        vault("c", 0, 3, VaultStatus::Spent),
    ]);
    assert_eq!(state.vaults.len(), 2);
    assert_eq!(state.vaults[0].amount, 2);
    assert_eq!(state.vaults[1].amount, 3);
}

#[test]
fn refreshing_twice_with_one_snapshot_changes_nothing_more() {
    let snapshot = || vec![
        vault("a", 0, 100000, VaultStatus::Active),
        vault("b", 0, 50000, VaultStatus::Funded),
    ];
    let mut state = ManagerHomeState::new();
    assert!(state.update(Message::Vaults(Ok(snapshot()))).is_none());
    let once = (state.balance, state.vaults.len(), state.blockheight);
    assert!(state.update(Message::Vaults(Ok(snapshot()))).is_none());
    assert_eq!((state.balance, state.vaults.len(), state.blockheight), once);
    assert_eq!(state.balance, (100000, 50000));
    assert!(state.vaults[0].outpoint.same_as(&OutPoint::new("a".to_string(), 0)));
    assert!(state.vaults[1].outpoint.same_as(&OutPoint::new("b".to_string(), 0)));
    assert!(state.warning.is_none());
}

#[test]
fn daemon_failure_keeps_the_last_snapshot() {
    let mut state = ManagerHomeState::new();
    state.update(Message::Vaults(Ok(vec![vault("a", 0, 9, VaultStatus::Active)])));
    state.update(Message::BlockHeight(Ok(700000)));
    assert!(state.update(Message::Vaults(Err(daemon_down()))).is_none());
    assert_eq!(state.vaults.len(), 1);
    assert_eq!(state.balance, (9, 0));
    assert_eq!(state.blockheight, 700000);
    assert!(matches!(&state.warning, Some(Error::Daemon(e)) if e.message == "connection refused"));
    state.update(Message::BlockHeight(Err(daemon_down())));
    assert_eq!(state.blockheight, 700000);
}

#[test]
fn home_loads_height_and_vaults() {
    let requests = ManagerHomeState::new().load();
    assert_eq!(requests.len(), 2);
    assert!(matches!(requests[0], Request::BlockHeight));
    assert!(matches!(requests[1], Request::ListVaults));
    let requests = HistoryState::new().load();
    assert_eq!(requests.len(), 2);
    assert!(matches!(requests[0], Request::BlockHeight));
    assert!(matches!(requests[1], Request::ListVaults));
}

#[test]
fn selecting_a_vault_opens_it_and_asks_for_its_transactions() {
    let mut state = ManagerHomeState::new();
    state.update_vaults(vec![
        vault("a", 0, 1, VaultStatus::Active),
        vault("b", 1, 2, VaultStatus::Funded),
    ]);
    let request = state.on_vault_select(OutPoint::new("b".to_string(), 1));
    assert!(matches!(&request, Some(Request::OnchainTransactions(o)) if o.txid == "b" && o.vout == 1));
    let opened = state.selected_vault.as_ref().unwrap();
    assert_eq!(opened.vault.amount, 2);
    assert!(opened.txs.is_none());
    assert!(opened.warning.is_none());
    assert_eq!(state.vaults.len(), 2);
}

#[test]
fn selecting_the_open_vault_closes_it() {
    let mut state = HistoryState::new();
    state.update_vaults(vec![vault("a", 0, 1, VaultStatus::Active)]);
    assert!(state.update(Message::SelectVault(OutPoint::new("a".to_string(), 0))).is_some());
    assert!(state.selected_vault.is_some());
    assert!(state.update(Message::SelectVault(OutPoint::new("a".to_string(), 0))).is_none());
    assert!(state.selected_vault.is_none());
}

#[test]
fn selecting_an_unknown_vault_changes_nothing() {
    let mut state = HistoryState::new();
    state.update_vaults(vec![vault("a", 0, 1, VaultStatus::Active)]);
    assert!(state.on_vault_select(OutPoint::new("z".to_string(), 0)).is_none());
    assert!(state.selected_vault.is_none());
    state.on_vault_select(OutPoint::new("a".to_string(), 0));
    assert!(state.on_vault_select(OutPoint::new("z".to_string(), 0)).is_none());
    assert_eq!(state.selected_vault.as_ref().unwrap().vault.amount, 1);
}

#[test]
fn the_open_vault_takes_in_its_transactions() {
    let mut state = HistoryState::new();
    state.update_vaults(vec![vault("a", 0, 1, VaultStatus::Active)]);
    state.on_vault_select(OutPoint::new("a".to_string(), 0));
    let txs = VaultTransactions {
        outpoint: OutPoint::new("a".to_string(), 0),
        deposit: vec![1, 2, 3],
        unvault: None,
        spend: None,
        cancel: None,
        emergency: None,
    };
    state.update(Message::Vault(VaultMessage::OnChainTransactions(Ok(txs))));
    let opened = state.selected_vault.as_ref().unwrap();
    assert_eq!(opened.txs.as_ref().unwrap().deposit, vec![1, 2, 3]);
    state.update(Message::Vault(VaultMessage::OnChainTransactions(Err(daemon_down()))));
    let opened = state.selected_vault.as_ref().unwrap();
    assert_eq!(opened.txs.as_ref().unwrap().deposit, vec![1, 2, 3]);
    assert!(matches!(&opened.warning, Some(Error::Daemon(_))));
    assert!(state.warning.is_none());
}

#[test]
fn network_state_keeps_the_last_height() {
    let mut state = ManagerNetworkState::new();
    assert!(state.blockheight.is_none());
    assert!(state.update(Message::BlockHeight(Ok(5))).is_none());
    assert_eq!(state.blockheight, Some(5));
    state.update(Message::BlockHeight(Err(daemon_down())));
    assert_eq!(state.blockheight, Some(5));
    assert!(matches!(&state.warning, Some(Error::Daemon(_))));
    state.update(Message::Next);
    assert_eq!(state.blockheight, Some(5));
    let requests = state.load();
    assert_eq!(requests.len(), 1);
    assert!(matches!(requests[0], Request::BlockHeight));
}
