use rest_nwc_bridge::config::{listen_port, DEFAULT_PORT};
use rest_nwc_bridge::models::{
    CreateInvoiceRequest, EventNotification, PayRequest, TransactionQuery,
};
use rest_nwc_bridge::routes::{
    balance_response, create_invoice_response, info_response, checked_make_invoice_request, list_transactions_request,
    lookup_invoice_request, make_invoice_request, map_invoice, map_notification,
    pay_invoice_request, pay_response, sse_event, transactions_response, AppError,
    INTERNAL_SERVER_ERROR,
};
use rest_nwc_bridge::wallet::{
    method_str, notification_type_str, parse_transaction_type, transaction_state_str,
    transaction_type_str, HoldInvoiceAcceptedNotification, LookupInvoice, MakeInvoiceResult,
    Method, NotificationResult, NotificationType, PayInvoiceResult, PaymentNotification,
    TransactionState, TransactionType, WalletInfo,
};

fn record(hash: &str, tt: Option<TransactionType>, st: Option<TransactionState>) -> LookupInvoice {
    LookupInvoice {
        transaction_type: tt,
        state: st,
        invoice: Some("lnbc1".to_string()),
        description: Some("test".to_string()),
        preimage: None,
        payment_hash: hash.to_string(),
        amount: 100000,
        fees_paid: 0,
        created_at: Some(1716290000),
        expires_at: Some(1716300000),
        settled_at: None,
        metadata: Some(serde_json::Value::String("m".to_string())),
    }
}

fn payment() -> PaymentNotification {
    PaymentNotification {
        transaction_type: Some(TransactionType::Incoming),
        state: Some(TransactionState::Settled),
        invoice: "lntbs1".to_string(),
        description: None,
        preimage: "abc".to_string(),
        payment_hash: "0b86".to_string(),
        amount: 100000,
        fees_paid: 0,
        created_at: None,
        expires_at: Some(1716300000),
        settled_at: 1716291000,
        metadata: None,
    }
}

#[test]
fn balance_in_whole_sats() {
    let b = balance_response(87500000);
    assert_eq!(b.balance_msats, 87500000);
    assert_eq!(b.balance_sats, 87500);
    assert_eq!(balance_response(1999).balance_sats, 1);
    assert_eq!(balance_response(999).balance_sats, 0);
    assert_eq!(balance_response(u64::MAX).balance_sats, u64::MAX / 1000);
}

#[test]
fn invoice_amount_in_msats() {
    let p = make_invoice_request(CreateInvoiceRequest {
        amount_sats: 100,
        description: Some("test".to_string()),
        description_hash: None,
        expiry: Some(3600),
    });
    assert_eq!(p.amount, 100000);
    assert_eq!(p.description.as_deref(), Some("test"));
    assert_eq!(p.description_hash, None);
    assert_eq!(p.expiry, Some(3600));
}

#[test]
fn sats_round_trip_through_msats() {
    let sats = 12345;
    let p = make_invoice_request(CreateInvoiceRequest {
        amount_sats: sats,
        description: None,
        description_hash: None,
        expiry: None,
    });
    assert_eq!(balance_response(p.amount).balance_sats, sats);
}

#[test]
fn pay_request_and_response() {
    let p = pay_invoice_request(PayRequest { invoice: "lnbc1x".to_string(), amount: Some(21) });
    assert_eq!(p.id, None);
    assert_eq!(p.invoice, "lnbc1x");
    assert_eq!(p.amount, Some(21));
    let r = pay_response(PayInvoiceResult { preimage: "abc123".to_string(), fees_paid: Some(1000) });
    assert_eq!(r.preimage, "abc123");
    assert_eq!(r.fees_paid, Some(1000));
}

#[test]
fn create_invoice_answer() {
    let r = create_invoice_response(MakeInvoiceResult {
        invoice: "lnbc1".to_string(),
        payment_hash: Some("0b86".to_string()),
        expires_at: Some(1716300000),
    });
    assert_eq!(r.invoice, "lnbc1");
    assert_eq!(r.payment_hash.as_deref(), Some("0b86"));
    assert_eq!(r.expires_at, Some(1716300000));
}

#[test]
fn lookup_by_payment_hash() {
    let p = lookup_invoice_request("0b86af".to_string());
    assert_eq!(p.payment_hash.as_deref(), Some("0b86af"));
    assert_eq!(p.invoice, None);
}

#[test]
fn wire_names() {
    assert_eq!(transaction_type_str(TransactionType::Incoming), "incoming");
    assert_eq!(transaction_type_str(TransactionType::Outgoing), "outgoing");
    assert_eq!(transaction_state_str(TransactionState::Pending), "pending");
    assert_eq!(transaction_state_str(TransactionState::Settled), "settled");
    assert_eq!(transaction_state_str(TransactionState::Expired), "expired");
    assert_eq!(transaction_state_str(TransactionState::Failed), "failed");
    assert_eq!(transaction_state_str(TransactionState::Accepted), "accepted");
    assert_eq!(method_str(Method::PayInvoice), "pay_invoice");
    assert_eq!(method_str(Method::ListTransactions), "list_transactions");
    assert_eq!(method_str(Method::SettleHoldInvoice), "settle_hold_invoice");
    assert_eq!(notification_type_str(NotificationType::PaymentReceived), "payment_received");
    assert_eq!(notification_type_str(NotificationType::PaymentSent), "payment_sent");
    assert_eq!(
        notification_type_str(NotificationType::HoldInvoiceAccepted),
        "hold_invoice_accepted"
    );
}

#[test]
fn query_type_selects_direction() {
    assert_eq!(parse_transaction_type(&"incoming".to_string()), TransactionType::Incoming);
    assert_eq!(parse_transaction_type(&"outgoing".to_string()), TransactionType::Outgoing);
    assert_eq!(parse_transaction_type(&"sideways".to_string()), TransactionType::Incoming);
    assert_eq!(parse_transaction_type(&"".to_string()), TransactionType::Incoming);
    for t in [TransactionType::Incoming, TransactionType::Outgoing] {
        assert_eq!(parse_transaction_type(&transaction_type_str(t)), t);
    }
}

#[test]
fn list_transactions_query() {
    let p = list_transactions_request(TransactionQuery {
        limit: Some(10),
        offset: Some(0),
        transaction_type: Some("outgoing".to_string()),
        unpaid: Some(true),
    });
    assert_eq!(p.from, None);
    assert_eq!(p.until, None);
    assert_eq!(p.limit, Some(10));
    assert_eq!(p.offset, Some(0));
    assert_eq!(p.unpaid, Some(true));
    assert_eq!(p.transaction_type, Some(TransactionType::Outgoing));
    let q = list_transactions_request(TransactionQuery {
        limit: None,
        offset: None,
        transaction_type: None,
        unpaid: None,
    });
    assert_eq!(q.transaction_type, None);
    assert_eq!(q.limit, None);
}

#[test]
fn invoice_shown_with_wire_names() {
    let r = map_invoice(record("0b86af", Some(TransactionType::Incoming), Some(TransactionState::Settled)));
    assert_eq!(r.transaction_type.as_deref(), Some("incoming"));
    assert_eq!(r.state.as_deref(), Some("settled"));
    assert_eq!(r.invoice.as_deref(), Some("lnbc1"));
    assert_eq!(r.description.as_deref(), Some("test"));
    assert_eq!(r.preimage, None);
    assert_eq!(r.payment_hash, "0b86af");
    assert_eq!(r.amount, 100000);
    assert_eq!(r.fees_paid, 0);
    assert_eq!(r.created_at, Some(1716290000));
    assert_eq!(r.expires_at, Some(1716300000));
    assert_eq!(r.settled_at, None);
    assert_eq!(r.metadata, Some(serde_json::Value::String("m".to_string())));
    let s = map_invoice(record("x", None, None));
    assert_eq!(s.transaction_type, None);
    assert_eq!(s.state, None);
}

#[test]
fn transactions_keep_order() {
    let res = transactions_response(vec![
        record("a", Some(TransactionType::Incoming), Some(TransactionState::Pending)),
        record("b", Some(TransactionType::Outgoing), Some(TransactionState::Failed)),
        record("c", None, Some(TransactionState::Expired)),
    ]);
    assert_eq!(res.transactions.len(), 3);
    assert_eq!(res.transactions[0].payment_hash, "a");
    assert_eq!(res.transactions[1].payment_hash, "b");
    assert_eq!(res.transactions[2].payment_hash, "c");
    assert_eq!(res.transactions[1].transaction_type.as_deref(), Some("outgoing"));
    assert_eq!(res.transactions[1].state.as_deref(), Some("failed"));
    assert_eq!(res.transactions[2].transaction_type, None);
    assert_eq!(transactions_response(vec![]).transactions.len(), 0);
}

#[test]
fn info_methods_by_name() {
    let r = info_response(WalletInfo {
        alias: Some("my-node".to_string()),
        color: Some("#ff9900".to_string()),
        pubkey: Some("03ab".to_string()),
        network: Some("mainnet".to_string()),
        block_height: Some(850000),
        block_hash: Some("0000".to_string()),
        methods: vec![Method::PayInvoice, Method::GetBalance, Method::MakeInvoice, Method::LookupInvoice, Method::ListTransactions],
        notifications: vec![],
    });
    assert_eq!(r.alias.as_deref(), Some("my-node"));
    assert_eq!(r.color.as_deref(), Some("#ff9900"));
    assert_eq!(r.network.as_deref(), Some("mainnet"));
    assert_eq!(r.block_height, Some(850000));
    assert_eq!(
        r.methods,
        vec!["pay_invoice", "get_balance", "make_invoice", "lookup_invoice", "list_transactions"]
    );
    assert!(r.notifications.is_empty());
}

#[test]
fn payment_received_event() {
    let e = map_notification(
        NotificationType::PaymentReceived,
        NotificationResult::PaymentReceived(payment()),
    );
    assert_eq!(e.notification_type, "payment_received");
    assert_eq!(e.transaction_type.as_deref(), Some("incoming"));
    assert_eq!(e.state.as_deref(), Some("settled"));
    assert_eq!(e.invoice.as_deref(), Some("lntbs1"));
    assert_eq!(e.preimage.as_deref(), Some("abc"));
    assert_eq!(e.payment_hash.as_deref(), Some("0b86"));
    assert_eq!(e.amount, Some(100000));
    assert_eq!(e.fees_paid, Some(0));
    assert_eq!(e.created_at, None);
    assert_eq!(e.expires_at, Some(1716300000));
    assert_eq!(e.settled_at, Some(1716291000));
    assert_eq!(e.settle_deadline, None);
}

#[test]
fn payment_sent_event() {
    let mut p = payment();
    p.transaction_type = Some(TransactionType::Outgoing);
    p.fees_paid = 100;
    let e = map_notification(NotificationType::PaymentSent, NotificationResult::PaymentSent(p));
    assert_eq!(e.notification_type, "payment_sent");
    assert_eq!(e.transaction_type.as_deref(), Some("outgoing"));
    assert_eq!(e.fees_paid, Some(100));
}

#[test]
fn hold_invoice_accepted_event() {
    let e = map_notification(
        NotificationType::HoldInvoiceAccepted,
        NotificationResult::HoldInvoiceAccepted(HoldInvoiceAcceptedNotification {
            transaction_type: TransactionType::Incoming,
            state: Some(TransactionState::Accepted),
            invoice: "lntbs2".to_string(),
            description: Some("hold".to_string()),
            payment_hash: "9a1b".to_string(),
            amount: 200000,
            created_at: 1716290000,
            expires_at: 1716300000,
            settle_deadline: 850100,
            metadata: None,
        }),
    );
    assert_eq!(e.notification_type, "hold_invoice_accepted");
    assert_eq!(e.transaction_type.as_deref(), Some("incoming"));
    assert_eq!(e.state.as_deref(), Some("accepted"));
    assert_eq!(e.invoice.as_deref(), Some("lntbs2"));
    assert_eq!(e.preimage, None);
    assert_eq!(e.payment_hash.as_deref(), Some("9a1b"));
    assert_eq!(e.amount, Some(200000));
    assert_eq!(e.fees_paid, None);
    assert_eq!(e.created_at, Some(1716290000));
    assert_eq!(e.expires_at, Some(1716300000));
    assert_eq!(e.settled_at, None);
    assert_eq!(e.settle_deadline, Some(850100));
}

fn bare_event(kind: &str) -> EventNotification {
    EventNotification {
        notification_type: kind.to_string(),
        transaction_type: None,
        state: None,
        invoice: None,
        description: None,
        preimage: None,
        payment_hash: None,
        amount: None,
        fees_paid: None,
        created_at: None,
        expires_at: None,
        settled_at: None,
        settle_deadline: None,
        metadata: None,
    }
}

#[test]
fn sse_event_named_by_kind() {
    let n = bare_event("payment_sent");
    let e = sse_event(&n, Some("{\"a\":1}".to_string())).unwrap();
    assert_eq!(e.event, "payment_sent");
    assert_eq!(e.data, "{\"a\":1}");
    assert!(sse_event(&n, None).is_none());
}

#[test]
fn error_answer() {
    let (status, body) = AppError { message: "wallet timeout".to_string() }.into_response();
    assert_eq!(status, 500);
    assert_eq!(status, INTERNAL_SERVER_ERROR);
    assert_eq!(body.error, "wallet timeout");
}

#[test]
fn port_from_environment() {
    assert_eq!(listen_port(None), DEFAULT_PORT);
    assert_eq!(DEFAULT_PORT, 8080);
    assert_eq!(listen_port(Some("3000".to_string())), 3000);
    assert_eq!(listen_port(Some("+3000".to_string())), 3000);
    assert_eq!(listen_port(Some("00080".to_string())), 80);
    assert_eq!(listen_port(Some("65535".to_string())), 65535);
    assert_eq!(listen_port(Some("65536".to_string())), 8080);
    assert_eq!(listen_port(Some("-1".to_string())), 8080);
    assert_eq!(listen_port(Some(" 80".to_string())), 8080);
    assert_eq!(listen_port(Some("+".to_string())), 8080);
    assert_eq!(listen_port(Some("".to_string())), 8080);
    assert_eq!(listen_port(Some("8o8o".to_string())), 8080);
}

#[test]
fn oversized_invoice_amount_refused() {
    let big = u64::MAX / 1000 + 1;
    assert_eq!(big, 18446744073709552);
    let none = checked_make_invoice_request(CreateInvoiceRequest {
        amount_sats: big,
        description: None,
        description_hash: None,
        expiry: None,
    });
    assert!(none.is_none());
    let some = checked_make_invoice_request(CreateInvoiceRequest {
        amount_sats: u64::MAX / 1000,
        description: Some("d".to_string()),
        description_hash: None,
        expiry: None,
    })
    .unwrap();
    assert_eq!(some.amount, (u64::MAX / 1000) * 1000);
    assert_eq!(some.description.as_deref(), Some("d"));
}
