use stock_ledger::catalog::{CatalogItem, ItemCatalog, RivenWeapon};
use stock_ledger::ledger::StockStore;
use stock_ledger::model::{
    ChangeEvent, RivenAttribute, StockDetail, StockError, StockStatus, SubType,
    TransactionItemType, TransactionType, UIOperationEvent,
};
use stock_ledger::query::StockItemQuery;
use stock_ledger::remote::{
    reconcile_sell_order, remote_result, Auction, AuctionItem, Order, OrderAction, RemoteOutcome,
    RemotePlan,
};
use stock_ledger::stock::{create_item_stock, delete_item_stock, sell_item_stock};
use stock_ledger::stock_riven::{
    create_riven_stock, import_auction, sell_riven_stock, stock_riven_create, stock_riven_delete,
    stock_riven_delete_bulk, stock_riven_sell, stock_riven_update, stock_riven_update_bulk,
};

fn s(x: &str) -> String {
    x.to_string()
}

fn catalog() -> ItemCatalog {
    ItemCatalog {
        items: vec![
            CatalogItem {
                wfm_id: s("w1"),
                url_name: s("nikana_prime_set"),
                name: s("Nikana Prime Set"),
                unique_name: s("/Lotus/Nikana"),
                max_rank: 0,
                variants: vec![],
            },
            CatalogItem {
                wfm_id: s("w2"),
                url_name: s("serration"),
                name: s("Serration"),
                unique_name: s("/Lotus/Serration"),
                max_rank: 10,
                variants: vec![s("flawless")],
            },
        ],
        riven_weapons: vec![RivenWeapon {
            wfm_id: s("r1"),
            url_name: s("torid"),
            name: s("Torid"),
            riven_type: s("rifle"),
            unique_name: s("/Lotus/Torid"),
        }],
        riven_attributes: vec![s("multishot"), s("critical_chance"), s("zoom")],
    }
}

fn attr(name: &str, positive: bool, value: i64) -> RivenAttribute {
    RivenAttribute { url_name: s(name), positive, value }
}

fn attrs() -> Vec<RivenAttribute> {
    vec![attr("zoom", false, -40), attr("multishot", true, 120), attr("critical_chance", true, 95)]
}

fn new_riven(store: &mut StockStore, bought: i64) -> u64 {
    stock_riven_create(
        store,
        &catalog(),
        s("torid"),
        bought,
        s("Torid Crita-tron"),
        12,
        3,
        s("madurai"),
        8,
        attrs(),
        Some(40),
        Some(false),
    )
    .unwrap()
}

fn auction(id: &str) -> Auction {
    Auction {
        id: s(id),
        item: AuctionItem {
            weapon_url: s("torid"),
            mod_name: s("Torid Visi-tron"),
            mastery_level: 10,
            re_rolls: 5,
            polarity: s("naramon"),
            mod_rank: 0,
            attributes: vec![attr("multishot", true, 80)],
        },
    }
}

#[test]
fn create_then_get_owns_and_logs_purchase() {
    let mut store = StockStore::new();
    let rep = create_item_stock(&mut store, &catalog(), s("nikana_prime_set"), false, 3, 100, None).unwrap();
    let e = store.get(rep.entry_id).unwrap();
    assert_eq!(e.owned, 3);
    assert_eq!(e.bought, 3);
    assert_eq!(e.status, StockStatus::Live);
    assert_eq!(e.wfm_id, "w1");
    assert_eq!(e.item_name, "Nikana Prime Set");
    assert_eq!(store.transactions.len(), 1);
    let t = &store.transactions[0];
    assert_eq!(t.transaction_type, TransactionType::Purchase);
    assert_eq!(t.item_type, TransactionItemType::Item);
    assert_eq!(t.quantity, 3);
    assert_eq!(t.price, 100);
    assert_eq!(t.wfm_url, "nikana_prime_set");
    assert_eq!(store.events, vec![ChangeEvent { operation: UIOperationEvent::CreateOrUpdate, entry_id: rep.entry_id }]);
    assert!(matches!(rep.remote, RemotePlan::Nothing));
}

#[test]
fn create_with_report_closes_buy_order() {
    let mut store = StockStore::new();
    let rep = create_item_stock(&mut store, &catalog(), s("nikana_prime_set"), true, 1, 90, None).unwrap();
    match rep.remote {
        RemotePlan::CloseOrder { item_url, direction } => {
            assert_eq!(item_url, "nikana_prime_set");
            assert_eq!(direction, TransactionType::Purchase);
        }
        other => panic!("unexpected plan {:?}", other),
    }
}

#[test]
fn create_rejects_invalid_input_without_effect() {
    let mut store = StockStore::new();
    let c = catalog();
    assert_eq!(create_item_stock(&mut store, &c, s("unknown"), false, 1, 1, None).unwrap_err(), StockError::Validation);
    assert_eq!(create_item_stock(&mut store, &c, s("nikana_prime_set"), false, 0, 1, None).unwrap_err(), StockError::Validation);
    let too_high = Some(SubType { rank: Some(11), variant: None });
    assert_eq!(create_item_stock(&mut store, &c, s("serration"), false, 1, 1, too_high).unwrap_err(), StockError::Validation);
    let bad_variant = Some(SubType { rank: None, variant: Some(s("radiant")) });
    assert_eq!(create_item_stock(&mut store, &c, s("serration"), false, 1, 1, bad_variant).unwrap_err(), StockError::Validation);
    assert!(store.entries.is_empty());
    assert!(store.transactions.is_empty());
    assert!(store.events.is_empty());
    let good = Some(SubType { rank: Some(10), variant: Some(s("flawless")) });
    let rep = create_item_stock(&mut store, &c, s("serration"), false, 2, 15, good).unwrap();
    let e = store.get(rep.entry_id).unwrap();
    assert_eq!(e.sub_type.as_ref().unwrap().rank, Some(10));
    assert_eq!(store.transactions[0].sub_type.as_ref().unwrap().variant.as_deref(), Some("flawless"));
}

#[test]
fn create_fails_with_storage_when_ids_run_out() {
    let mut store = StockStore::new();
    store.next_id = u64::MAX;
    assert_eq!(create_item_stock(&mut store, &catalog(), s("nikana_prime_set"), false, 1, 1, None).unwrap_err(), StockError::Storage);
    assert!(store.entries.is_empty());
}

#[test]
fn partial_sell_keeps_entry_live() {
    let mut store = StockStore::new();
    let id = create_item_stock(&mut store, &catalog(), s("nikana_prime_set"), false, 5, 100, None).unwrap().entry_id;
    let rep = sell_item_stock(&mut store, id, false, 2, 150).unwrap();
    assert_eq!(rep.remaining, 3);
    let e = store.get(id).unwrap();
    assert_eq!(e.owned, 3);
    assert_eq!(e.bought, 5);
    assert_eq!(e.status, StockStatus::Live);
    assert_eq!(store.transactions.len(), 2);
    let t = &store.transactions[1];
    assert_eq!(t.transaction_type, TransactionType::Sale);
    assert_eq!(t.quantity, 2);
    assert_eq!(t.price, 150);
    assert_eq!(*store.events.last().unwrap(), ChangeEvent { operation: UIOperationEvent::CreateOrUpdate, entry_id: id });
    match rep.remote {
        RemotePlan::SyncOrder { item_url, remaining } => {
            assert_eq!(item_url, "nikana_prime_set");
            assert_eq!(remaining, 3);
        }
        other => panic!("unexpected plan {:?}", other),
    }
}

#[test]
fn selling_everything_deletes_once() {
    let mut store = StockStore::new();
    let id = create_item_stock(&mut store, &catalog(), s("nikana_prime_set"), false, 2, 100, None).unwrap().entry_id;
    let rep = sell_item_stock(&mut store, id, true, 2, 120).unwrap();
    assert_eq!(rep.remaining, 0);
    assert!(store.get(id).is_none());
    assert_eq!(
        store.events,
        vec![
            ChangeEvent { operation: UIOperationEvent::CreateOrUpdate, entry_id: id },
            ChangeEvent { operation: UIOperationEvent::Delete, entry_id: id },
        ]
    );
    assert_eq!(store.transactions[1].transaction_type, TransactionType::Sale);
    assert_eq!(store.transactions[1].quantity, 2);
    assert!(matches!(rep.remote, RemotePlan::CloseOrder { direction: TransactionType::Sale, .. }));
}

#[test]
fn sell_errors() {
    let mut store = StockStore::new();
    let id = create_item_stock(&mut store, &catalog(), s("nikana_prime_set"), false, 2, 100, None).unwrap().entry_id;
    let riven = new_riven(&mut store, 50);
    assert_eq!(sell_item_stock(&mut store, id, false, 3, 1).unwrap_err(), StockError::InsufficientQuantity);
    assert_eq!(sell_item_stock(&mut store, id, false, 0, 1).unwrap_err(), StockError::Validation);
    assert_eq!(sell_item_stock(&mut store, 77, false, 1, 1).unwrap_err(), StockError::NotFound);
    assert_eq!(sell_item_stock(&mut store, riven, false, 1, 1).unwrap_err(), StockError::NotFound);
    assert_eq!(store.get(id).unwrap().owned, 2);
    assert_eq!(store.transactions.len(), 2);
}

#[test]
fn sell_order_reconciliation() {
    let orders = vec![
        Order { id: s("o1"), item_url: s("serration"), platinum: 10, quantity: 1, visible: true },
        Order { id: s("o2"), item_url: s("nikana_prime_set"), platinum: 75, quantity: 5, visible: false },
    ];
    match reconcile_sell_order(&orders, &s("nikana_prime_set"), 3) {
        OrderAction::Update { order_id, platinum, quantity, visible } => {
            assert_eq!(order_id, "o2");
            assert_eq!(platinum, 75);
            assert_eq!(quantity, 3);
            assert!(!visible);
        }
        other => panic!("unexpected action {:?}", other),
    }
    match reconcile_sell_order(&orders, &s("serration"), 0) {
        OrderAction::Delete { order_id } => assert_eq!(order_id, "o1"),
        other => panic!("unexpected action {:?}", other),
    }
    assert!(matches!(reconcile_sell_order(&orders, &s("torid"), 2), OrderAction::Nothing));
}

#[test]
fn delete_item_asks_to_remove_sell_order() {
    let mut store = StockStore::new();
    let id = create_item_stock(&mut store, &catalog(), s("nikana_prime_set"), false, 4, 100, None).unwrap().entry_id;
    match delete_item_stock(&mut store, id).unwrap() {
        RemotePlan::SyncOrder { item_url, remaining } => {
            assert_eq!(item_url, "nikana_prime_set");
            assert_eq!(remaining, 0);
        }
        other => panic!("unexpected plan {:?}", other),
    }
    assert!(store.get(id).is_none());
    assert_eq!(store.transactions.len(), 1);
    assert_eq!(delete_item_stock(&mut store, id).unwrap_err(), StockError::NotFound);
}

#[test]
fn deleting_listed_riven_tolerates_absent_auction() {
    let mut store = StockStore::new();
    let id = import_auction(&mut store, &catalog(), &vec![auction("auc1")], s("auc1"), 30).unwrap();
    assert_eq!(store.get(id).unwrap().remote_listing_id.as_deref(), Some("auc1"));
    match stock_riven_delete(&mut store, id).unwrap() {
        RemotePlan::DeleteAuction { auction_id } => assert_eq!(auction_id, "auc1"),
        other => panic!("unexpected plan {:?}", other),
    }
    assert!(store.get(id).is_none());
    assert_eq!(remote_result(RemoteOutcome::AlreadyAbsent), Ok(()));
    assert_eq!(remote_result(RemoteOutcome::Done), Ok(()));
    assert_eq!(remote_result(RemoteOutcome::Unavailable), Err(StockError::RemoteUnavailable));
    assert_eq!(*store.events.last().unwrap(), ChangeEvent { operation: UIOperationEvent::Delete, entry_id: id });
}

#[test]
fn deleting_unlisted_riven_needs_no_remote_step() {
    let mut store = StockStore::new();
    let id = new_riven(&mut store, 10);
    assert!(matches!(stock_riven_delete(&mut store, id).unwrap(), RemotePlan::Nothing));
    assert_eq!(stock_riven_delete(&mut store, id).unwrap_err(), StockError::NotFound);
}

#[test]
fn importing_an_auction_twice() {
    let mut store = StockStore::new();
    let c = catalog();
    let open = vec![auction("auc0"), auction("auc1")];
    let first = import_auction(&mut store, &c, &open, s("auc1"), 30).unwrap();
    let second = import_auction(&mut store, &c, &open, s("auc1"), 35).unwrap();
    assert_ne!(first, second);
    assert!(store.get(first).is_some());
    assert!(store.get(second).is_some());
    let closed = vec![auction("auc0")];
    assert_eq!(import_auction(&mut store, &c, &closed, s("auc1"), 35).unwrap_err(), StockError::NotFound);
    assert_eq!(store.transactions.len(), 2);
    let t = &store.transactions[1];
    assert_eq!(t.item_type, TransactionItemType::Riven);
    assert_eq!(t.transaction_type, TransactionType::Purchase);
    assert_eq!(t.price, 35);
    assert_eq!(t.extra.as_ref().unwrap().mod_name, "Torid Visi-tron");
}

#[test]
fn import_validates_the_auction_riven() {
    let mut store = StockStore::new();
    let mut a = auction("auc2");
    a.item.attributes.push(attr("punch_through", true, 2));
    assert_eq!(import_auction(&mut store, &catalog(), &vec![a], s("auc2"), 30).unwrap_err(), StockError::Validation);
    assert!(store.entries.is_empty());
}

#[test]
fn bulk_update_commits_before_missing_id() {
    let mut store = StockStore::new();
    let r1 = new_riven(&mut store, 10);
    let r3 = new_riven(&mut store, 20);
    let before = store.get(r3).unwrap().minimum_price;
    let res = stock_riven_update_bulk(&mut store, &vec![r1, 999, r3], Some(70), Some(true));
    assert_eq!(res, Err(StockError::NotFound));
    let e1 = store.get(r1).unwrap();
    assert_eq!(e1.minimum_price, Some(70));
    assert!(e1.is_hidden);
    let e3 = store.get(r3).unwrap();
    assert_eq!(e3.minimum_price, before);
    assert!(!e3.is_hidden);
    assert_eq!(stock_riven_update_bulk(&mut store, &vec![r1, r3, r1], Some(80), None), Ok(3));
    assert_eq!(store.get(r3).unwrap().minimum_price, Some(80));
    assert!(store.get(r1).unwrap().is_hidden);
}

#[test]
fn riven_round_trip_keeps_attributes() {
    let mut store = StockStore::new();
    let id = new_riven(&mut store, 60);
    let e = store.get(id).unwrap();
    match &e.detail {
        StockDetail::Riven(d) => {
            assert_eq!(d.attributes.len(), 3);
            for (a, b) in d.attributes.iter().zip(attrs().iter()) {
                assert_eq!(a.url_name, b.url_name);
                assert_eq!(a.positive, b.positive);
                assert_eq!(a.value, b.value);
            }
            assert_eq!(d.polarity, "madurai");
            assert_eq!(d.re_rolls, 3);
            assert_eq!(d.mastery_rank, 12);
        }
        StockDetail::Plain => panic!("expected a riven"),
    }
    assert_eq!(e.owned, 1);
    assert_eq!(e.bought, 1);
    assert_eq!(e.minimum_price, Some(40));
    assert_eq!(store.transactions[0].quantity, 1);
    assert_eq!(store.transactions[0].price, 60);
    assert_eq!(store.transactions[0].extra.as_ref().unwrap().attributes.len(), 3);
}

#[test]
fn riven_create_validation() {
    let mut store = StockStore::new();
    let c = catalog();
    let unknown_weapon = stock_riven_create(&mut store, &c, s("braton"), 10, s("m"), 8, 0, s("v"), 0, attrs(), None, None);
    assert_eq!(unknown_weapon, Err(StockError::Validation));
    let bad = vec![attr("multishot", true, 1), attr("nonsense", true, 1)];
    let bad_attr = stock_riven_create(&mut store, &c, s("torid"), 10, s("m"), 8, 0, s("v"), 0, bad, None, None);
    assert_eq!(bad_attr, Err(StockError::Validation));
    assert!(store.entries.is_empty());
    let id = create_riven_stock(&mut store, &c, s("torid"), 25, 4, attrs(), 9, 1, s("vazarin"), s("Torid Ampi-tak")).unwrap();
    let e = store.get(id).unwrap();
    assert!(e.is_hidden);
    assert_eq!(e.minimum_price, None);
}

#[test]
fn riven_sell_removes_and_logs() {
    let mut store = StockStore::new();
    let id = import_auction(&mut store, &catalog(), &vec![auction("auc9")], s("auc9"), 30).unwrap();
    match stock_riven_sell(&mut store, id, 200).unwrap() {
        RemotePlan::DeleteAuction { auction_id } => assert_eq!(auction_id, "auc9"),
        other => panic!("unexpected plan {:?}", other),
    }
    assert!(store.get(id).is_none());
    let t = store.transactions.last().unwrap();
    assert_eq!(t.transaction_type, TransactionType::Sale);
    assert_eq!(t.item_type, TransactionItemType::Riven);
    assert_eq!(t.quantity, 1);
    assert_eq!(t.price, 200);
    assert_eq!(stock_riven_sell(&mut store, id, 200).unwrap_err(), StockError::NotFound);
}

#[test]
fn riven_sell_quantity_checks() {
    let mut store = StockStore::new();
    let id = new_riven(&mut store, 10);
    assert_eq!(sell_riven_stock(&mut store, id, false, 2, 5).unwrap_err(), StockError::InsufficientQuantity);
    assert_eq!(sell_riven_stock(&mut store, id, false, 0, 5).unwrap_err(), StockError::Validation);
    assert!(matches!(sell_riven_stock(&mut store, id, true, 1, 5).unwrap(), RemotePlan::Nothing));
    assert!(store.get(id).is_none());
}

#[test]
fn riven_update_changes_given_fields() {
    let mut store = StockStore::new();
    let id = new_riven(&mut store, 10);
    let plain = create_item_stock(&mut store, &catalog(), s("nikana_prime_set"), false, 1, 1, None).unwrap().entry_id;
    stock_riven_update(&mut store, id, None, Some(SubType { rank: Some(8), variant: None }), Some(true), None).unwrap();
    let e = store.get(id).unwrap();
    assert_eq!(e.minimum_price, Some(40));
    assert!(e.is_hidden);
    assert_eq!(e.sub_type.as_ref().unwrap().rank, Some(8));
    assert_eq!(stock_riven_update(&mut store, plain, Some(1), None, None, None), Err(StockError::NotFound));
}

#[test]
fn bulk_delete_stops_at_repeated_id() {
    let mut store = StockStore::new();
    let a = import_auction(&mut store, &catalog(), &vec![auction("auc5")], s("auc5"), 30).unwrap();
    let b = new_riven(&mut store, 10);
    let rep = stock_riven_delete_bulk(&mut store, &vec![a, b, a]);
    assert_eq!(rep.deleted, 2);
    assert_eq!(rep.error, Some(StockError::NotFound));
    assert_eq!(rep.remote.len(), 2);
    assert!(matches!(&rep.remote[0], RemotePlan::DeleteAuction { auction_id } if auction_id == "auc5"));
    assert!(matches!(rep.remote[1], RemotePlan::Nothing));
    assert!(store.entries.is_empty());
    let empty = stock_riven_delete_bulk(&mut store, &vec![]);
    assert_eq!(empty.deleted, 0);
    assert_eq!(empty.error, None);
}

#[test]
fn listings_of_the_store() {
    let mut store = StockStore::new();
    let c = catalog();
    let a = create_item_stock(&mut store, &c, s("nikana_prime_set"), false, 1, 10, None).unwrap().entry_id;
    let b = create_item_stock(&mut store, &c, s("serration"), false, 4, 10, None).unwrap().entry_id;
    let r = new_riven(&mut store, 10);
    assert_eq!(StockItemQuery::get_all(&store), vec![a, b, r]);
    assert_eq!(StockItemQuery::get_all_stock_items(&store, 1), vec![b]);
    assert_eq!(StockItemQuery::get_all_stock_items(&store, 0), vec![a, b, r]);
    assert_eq!(StockItemQuery::get_all_stock_items(&store, -5), vec![a, b, r]);
    assert_eq!(StockItemQuery::get_all_stock_items(&store, 4), Vec::<u64>::new());
    sell_item_stock(&mut store, b, false, 1, 12).unwrap();
    assert_eq!(StockItemQuery::find_all_transactions(&store), vec![0, 1, 2, 3]);
}

#[test]
fn sale_fails_with_storage_when_log_is_full() {
    let mut store = StockStore::new();
    let id = create_item_stock(&mut store, &catalog(), s("nikana_prime_set"), false, 2, 100, None).unwrap().entry_id;
    store.next_transaction_id = u64::MAX;
    assert_eq!(sell_item_stock(&mut store, id, false, 1, 5).unwrap_err(), StockError::Storage);
    assert_eq!(store.get(id).unwrap().owned, 2);
}
