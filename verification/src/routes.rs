//! What each HTTP endpoint computes: the wallet command it hands on, and the
//! answer it builds from the wallet's reply.

use vstd::prelude::*;
use crate::models::{
    BalanceResponse, CreateInvoiceRequest, CreateInvoiceResponse, ErrorResponse,
    EventNotification, InfoResponse, InvoiceResponse, PayRequest, PayResponse, SseEvent,
    TransactionQuery, TransactionsResponse,
};
use crate::wallet::{
    lemma_method_name_denotes_itself, lemma_notification_type_name_denotes_itself,
    lemma_transaction_state_name_denotes_itself, lemma_transaction_type_name_selects_itself,
    method_from_name, notification_type_from_name, transaction_state_from_name,
    PaymentNotification,
    method_name, method_str, notification_type_name, notification_type_str,
    parse_transaction_type, transaction_state_name, transaction_state_str,
    transaction_type_from_name, transaction_type_name, transaction_type_str,
    ListTransactionsParams, LookupInvoice, LookupInvoiceParams, MakeInvoiceParams,
    MakeInvoiceResult, NotificationResult, NotificationType, PayInvoiceParams, PayInvoiceResult,
    TransactionState, TransactionType, WalletInfo,
};

verus! {

// -- Error handling --

/// The HTTP status of every failed request (500 Internal Server Error).
pub const INTERNAL_SERVER_ERROR: u16 = 500;

/// A failed request, by the message of the error that ended it.
pub struct AppError {
    pub message: String,
}

impl AppError {
    /// The answer to a failed request: status 500 and the error's message.
    pub fn into_response(self) -> (res: (u16, ErrorResponse))
        ensures
            res.0 == INTERNAL_SERVER_ERROR,
            res.1.error == self.message,
    {
        (INTERNAL_SERVER_ERROR, ErrorResponse { error: self.message })
    }
}

// -- Specifications --

/// The view of an optional string.
pub open spec fn opt_string_view(o: Option<String>) -> Option<Seq<char>> {
    match o {
        Some(s) => Some(s@),
        None => None,
    }
}

/// The wire name of an optional transaction direction.
pub open spec fn opt_type_name(o: Option<TransactionType>) -> Option<Seq<char>> {
    match o {
        Some(t) => Some(transaction_type_name(t)),
        None => None,
    }
}

/// The wire name of an optional transaction state.
pub open spec fn opt_state_name(o: Option<TransactionState>) -> Option<Seq<char>> {
    match o {
        Some(s) => Some(transaction_state_name(s)),
        None => None,
    }
}

/// `res` shows the transaction `r`: the direction and the state by their wire
/// names, every other field as it is.
pub open spec fn shows_invoice(r: LookupInvoice, res: InvoiceResponse) -> bool {
    &&& opt_string_view(res.transaction_type) == opt_type_name(r.transaction_type)
    &&& opt_string_view(res.state) == opt_state_name(r.state)
    &&& res.invoice == r.invoice
    &&& res.description == r.description
    &&& res.preimage == r.preimage
    &&& res.payment_hash == r.payment_hash
    &&& res.amount == r.amount
    &&& res.fees_paid == r.fees_paid
    &&& res.created_at == r.created_at
    &&& res.expires_at == r.expires_at
    &&& res.settled_at == r.settled_at
    &&& res.metadata == r.metadata
}

/// `res` is the event that announces the notification `result` of kind `kind`.
pub open spec fn announces(
    kind: NotificationType,
    result: NotificationResult,
    res: EventNotification,
) -> bool {
    &&& res.notification_type@ == notification_type_name(kind)
    &&& match result {
        NotificationResult::PaymentReceived(p) | NotificationResult::PaymentSent(p) => {
            &&& opt_string_view(res.transaction_type) == opt_type_name(p.transaction_type)
            &&& opt_string_view(res.state) == opt_state_name(p.state)
            &&& res.invoice == Some(p.invoice)
            &&& res.description == p.description
            &&& res.preimage == Some(p.preimage)
            &&& res.payment_hash == Some(p.payment_hash)
            &&& res.amount == Some(p.amount)
            &&& res.fees_paid == Some(p.fees_paid)
            &&& res.created_at == p.created_at
            &&& res.expires_at == p.expires_at
            &&& res.settled_at == Some(p.settled_at)
            &&& res.settle_deadline == None::<u32>
            &&& res.metadata == p.metadata
        },
        NotificationResult::HoldInvoiceAccepted(h) => {
            &&& opt_string_view(res.transaction_type) == Some(
                transaction_type_name(h.transaction_type),
            )
            &&& opt_string_view(res.state) == opt_state_name(h.state)
            &&& res.invoice == Some(h.invoice)
            &&& res.description == h.description
            &&& res.preimage == None::<String>
            &&& res.payment_hash == Some(h.payment_hash)
            &&& res.amount == Some(h.amount)
            &&& res.fees_paid == None::<u64>
            &&& res.created_at == Some(h.created_at)
            &&& res.expires_at == Some(h.expires_at)
            &&& res.settled_at == None::<u64>
            &&& res.settle_deadline == Some(h.settle_deadline)
            &&& res.metadata == h.metadata
        },
    }
}

/// `res` shows the wallet description `info`: every command by its wire name,
/// every other field as it is.
pub open spec fn shows_info(info: WalletInfo, res: InfoResponse) -> bool {
    &&& res.alias == info.alias
    &&& res.color == info.color
    &&& res.pubkey == info.pubkey
    &&& res.network == info.network
    &&& res.block_height == info.block_height
    &&& res.block_hash == info.block_hash
    &&& res.methods@.len() == info.methods@.len()
    &&& forall|i: int|
        0 <= i < info.methods@.len() ==> #[trigger] res.methods@[i]@ == method_name(
            info.methods@[i],
        )
    &&& res.notifications == info.notifications
}

/// Whole sats in an amount of msats (rounded down).
pub open spec fn msats_to_sats(msats: nat) -> nat {
    msats / 1000
}

/// Msats in an amount of sats.
pub open spec fn sats_to_msats(sats: nat) -> nat {
    sats * 1000
}

// -- Helpers --

fn opt_transaction_type_str(o: Option<TransactionType>) -> (res: Option<String>)
    ensures
        opt_string_view(res) == opt_type_name(o),
{
    match o {
        Some(t) => Some(transaction_type_str(t)),
        None => None,
    }
}

fn opt_transaction_state_str(o: Option<TransactionState>) -> (res: Option<String>)
    ensures
        opt_string_view(res) == opt_state_name(o),
{
    match o {
        Some(s) => Some(transaction_state_str(s)),
        None => None,
    }
}

/// Shows one transaction record as the HTTP API does.
pub fn map_invoice(r: LookupInvoice) -> (res: InvoiceResponse)
    ensures
        shows_invoice(r, res),
{
    InvoiceResponse {
        transaction_type: opt_transaction_type_str(r.transaction_type),
        state: opt_transaction_state_str(r.state),
        invoice: r.invoice,
        description: r.description,
        preimage: r.preimage,
        payment_hash: r.payment_hash,
        amount: r.amount,
        fees_paid: r.fees_paid,
        created_at: r.created_at,
        expires_at: r.expires_at,
        settled_at: r.settled_at,
        metadata: r.metadata,
    }
}

/// Turns a wallet notification into the event that `GET /events` and the
/// webhook deliver.
pub fn map_notification(
    notification_type: NotificationType,
    result: NotificationResult,
) -> (res: EventNotification)
    ensures
        announces(notification_type, result, res),
{
    match result {
        NotificationResult::PaymentReceived(p) | NotificationResult::PaymentSent(p) => {
            EventNotification {
                notification_type: notification_type_str(notification_type),
                transaction_type: opt_transaction_type_str(p.transaction_type),
                state: opt_transaction_state_str(p.state),
                invoice: Some(p.invoice),
                description: p.description,
                preimage: Some(p.preimage),
                payment_hash: Some(p.payment_hash),
                amount: Some(p.amount),
                fees_paid: Some(p.fees_paid),
                created_at: p.created_at,
                expires_at: p.expires_at,
                settled_at: Some(p.settled_at),
                settle_deadline: None,
                metadata: p.metadata,
            }
        },
        NotificationResult::HoldInvoiceAccepted(h) => EventNotification {
            notification_type: notification_type_str(notification_type),
            transaction_type: Some(transaction_type_str(h.transaction_type)),
            state: opt_transaction_state_str(h.state),
            invoice: Some(h.invoice),
            description: h.description,
            preimage: None,
            payment_hash: Some(h.payment_hash),
            amount: Some(h.amount),
            fees_paid: None,
            created_at: Some(h.created_at),
            expires_at: Some(h.expires_at),
            settled_at: None,
            settle_deadline: Some(h.settle_deadline),
            metadata: h.metadata,
        },
    }
}

// -- Endpoints --

/// `GET /info`: the wallet's description, its commands by their wire names.
pub fn info_response(info: WalletInfo) -> (res: InfoResponse)
    ensures
        res.alias == info.alias,
        res.color == info.color,
        res.pubkey == info.pubkey,
        res.network == info.network,
        res.block_height == info.block_height,
        res.block_hash == info.block_hash,
        res.methods@.len() == info.methods@.len(),
        forall|i: int|
            0 <= i < info.methods@.len() ==> #[trigger] res.methods@[i]@ == method_name(
                info.methods@[i],
            ),
        res.notifications == info.notifications,
        shows_info(info, res),
{
    let mut methods: Vec<String> = Vec::new();
    let n = info.methods.len();
    for i in 0..n
        invariant
            n == info.methods@.len(),
            methods@.len() == i,
            forall|j: int| 0 <= j < i ==> #[trigger] methods@[j]@ == method_name(info.methods@[j]),
    {
        methods.push(method_str(info.methods[i]));
    }
    InfoResponse {
        alias: info.alias,
        color: info.color,
        pubkey: info.pubkey,
        network: info.network,
        block_height: info.block_height,
        block_hash: info.block_hash,
        methods,
        notifications: info.notifications,
    }
}

/// `GET /balance`: the balance in msats and in whole sats.
pub fn balance_response(balance_msats: u64) -> (res: BalanceResponse)
    ensures
        res.balance_msats == balance_msats,
        res.balance_sats == msats_to_sats(balance_msats as nat),
        res.balance_sats * 1000 <= balance_msats < res.balance_sats * 1000 + 1000,
{
    BalanceResponse { balance_msats, balance_sats: balance_msats / 1000 }
}

/// `POST /pay`: the command that pays the requested invoice.
pub fn pay_invoice_request(req: PayRequest) -> (res: PayInvoiceParams)
    ensures
        res.id == None::<String>,
        res.invoice == req.invoice,
        res.amount == req.amount,
{
    PayInvoiceParams { id: None, invoice: req.invoice, amount: req.amount }
}

/// `POST /pay`: the answer built from the wallet's reply.
pub fn pay_response(res: PayInvoiceResult) -> (out: PayResponse)
    ensures
        out.preimage == res.preimage,
        out.fees_paid == res.fees_paid,
{
    PayResponse { preimage: res.preimage, fees_paid: res.fees_paid }
}

/// `POST /invoice`: the command that makes an invoice for the requested amount,
/// given in sats and handed on in msats.
pub fn make_invoice_request(req: CreateInvoiceRequest) -> (res: MakeInvoiceParams)
    requires
        sats_to_msats(req.amount_sats as nat) <= u64::MAX,
    ensures
        res.amount == sats_to_msats(req.amount_sats as nat),
        res.description == req.description,
        res.description_hash == req.description_hash,
        res.expiry == req.expiry,
{
    MakeInvoiceParams {
        amount: req.amount_sats * 1000,
        description: req.description,
        description_hash: req.description_hash,
        expiry: req.expiry,
    }
}

/// `POST /invoice`: the command for the requested amount where its msats fit in
/// `u64`; none where they do not, and the request is then answered with an error.
pub fn checked_make_invoice_request(req: CreateInvoiceRequest) -> (res: Option<
    MakeInvoiceParams,
>)
    ensures
        sats_to_msats(req.amount_sats as nat) <= u64::MAX <==> res is Some,
        res matches Some(p) ==> {
            &&& p.amount == sats_to_msats(req.amount_sats as nat)
            &&& p.description == req.description
            &&& p.description_hash == req.description_hash
            &&& p.expiry == req.expiry
        },
{
    if req.amount_sats <= u64::MAX / 1000 {
        Some(make_invoice_request(req))
    } else {
        None
    }
}

/// `POST /invoice`: the answer built from the wallet's reply.
pub fn create_invoice_response(res: MakeInvoiceResult) -> (out: CreateInvoiceResponse)
    ensures
        out.invoice == res.invoice,
        out.payment_hash == res.payment_hash,
        out.expires_at == res.expires_at,
{
    CreateInvoiceResponse {
        invoice: res.invoice,
        payment_hash: res.payment_hash,
        expires_at: res.expires_at,
    }
}

/// `GET /invoice/{payment_hash}`: the command that looks the invoice up by its
/// payment hash.
pub fn lookup_invoice_request(payment_hash: String) -> (res: LookupInvoiceParams)
    ensures
        res.payment_hash == Some(payment_hash),
        res.invoice == None::<String>,
{
    LookupInvoiceParams { payment_hash: Some(payment_hash), invoice: None }
}

/// `GET /transactions`: the command that lists the transactions the query asks
/// for. An unknown `type` selects incoming transactions.
pub fn list_transactions_request(q: TransactionQuery) -> (res: ListTransactionsParams)
    ensures
        res.from == None::<u64>,
        res.until == None::<u64>,
        res.limit == q.limit,
        res.offset == q.offset,
        res.unpaid == q.unpaid,
        res.transaction_type == match q.transaction_type {
            Some(t) => Some(transaction_type_from_name(t@)),
            None => None,
        },
{
    let transaction_type = match &q.transaction_type {
        Some(t) => Some(parse_transaction_type(t)),
        None => None,
    };
    ListTransactionsParams {
        from: None,
        until: None,
        limit: q.limit,
        offset: q.offset,
        unpaid: q.unpaid,
        transaction_type,
    }
}

/// `GET /transactions`: every listed transaction, in the wallet's order, shown
/// as `map_invoice` shows it.
pub fn transactions_response(records: Vec<LookupInvoice>) -> (res: TransactionsResponse)
    ensures
        res.transactions@.len() == records@.len(),
        forall|i: int|
            0 <= i < records@.len() ==> shows_invoice(
                records@[i],
                #[trigger] res.transactions@[i],
            ),
{
    let ghost input = records@;
    let mut transactions: Vec<InvoiceResponse> = Vec::new();
    for r in it: records.into_iter()
        invariant
            it.seq() == input,
            transactions@.len() == it.index(),
            forall|j: int|
                0 <= j < it.index() ==> shows_invoice(input[j], #[trigger] transactions@[j]),
    {
        transactions.push(map_invoice(r));
    }
    TransactionsResponse { transactions }
}

/// `GET /events`: the server-sent event for a notification, given the JSON text
/// of the notification; none where it could not be encoded.
pub fn sse_event(notification: &EventNotification, data: Option<String>) -> (res: Option<
    SseEvent,
>)
    ensures
        match data {
            Some(d) => res matches Some(e) && e.event@ == notification.notification_type@
                && e.data == d,
            None => res is None,
        },
{
    match data {
        Some(d) => Some(SseEvent { event: notification.notification_type.clone(), data: d }),
        None => None,
    }
}

// -- Laws --

/// An invoice created for an amount of sats, read back as a balance, is worth
/// that same number of whole sats.
pub proof fn lemma_sats_round_trip(sats: nat)
    ensures
        msats_to_sats(sats_to_msats(sats)) == sats,
{
}

/// The server-sent event that announces a wallet notification is named by the
/// notification's kind (`payment_received`, `payment_sent` or
/// `hold_invoice_accepted`).
pub proof fn lemma_event_named_by_kind(
    kind: NotificationType,
    result: NotificationResult,
    notification: EventNotification,
    event: SseEvent,
)
    requires
        announces(kind, result, notification),
        event.event@ == notification.notification_type@,
    ensures
        event.event@ == notification_type_name(kind),
{
}

/// Each command listed by `GET /info` is shown by its own NIP-47 name: read
/// back through the protocol's list of names, every shown name gives the
/// command the wallet listed at that place.
pub proof fn lemma_info_methods_denote_wallet_methods(info: WalletInfo, res: InfoResponse)
    requires
        shows_info(info, res),
    ensures
        forall|i: int|
            0 <= i < res.methods@.len() ==> method_from_name(#[trigger] res.methods@[i]@) == Some(
                info.methods@[i],
            ),
        forall|i: int, j: int|
            0 <= i < res.methods@.len() && 0 <= j < res.methods@.len() && info.methods@[i]
                != info.methods@[j] ==> #[trigger] res.methods@[i]@ != #[trigger] res.methods@[j]@,
{
    assert forall|i: int| 0 <= i < res.methods@.len() implies method_from_name(
        #[trigger] res.methods@[i]@,
    ) == Some(info.methods@[i]) by {
        lemma_method_name_denotes_itself(info.methods@[i]);
    }
    assert forall|i: int, j: int|
        0 <= i < res.methods@.len() && 0 <= j < res.methods@.len() && info.methods@[i]
            != info.methods@[j] implies #[trigger] res.methods@[i]@
        != #[trigger] res.methods@[j]@ by {
        lemma_method_name_denotes_itself(info.methods@[i]);
        lemma_method_name_denotes_itself(info.methods@[j]);
    }
}

proof fn lemma_opt_type_name_injective(a: Option<TransactionType>, b: Option<TransactionType>)
    ensures
        opt_type_name(a) == opt_type_name(b) ==> a == b,
{
    if let Some(x) = a {
        lemma_transaction_type_name_selects_itself(x);
    }
    if let Some(y) = b {
        lemma_transaction_type_name_selects_itself(y);
    }
}

proof fn lemma_opt_state_name_injective(a: Option<TransactionState>, b: Option<TransactionState>)
    ensures
        opt_state_name(a) == opt_state_name(b) ==> a == b,
{
    if let Some(x) = a {
        lemma_transaction_state_name_denotes_itself(x);
    }
    if let Some(y) = b {
        lemma_transaction_state_name_denotes_itself(y);
    }
}

/// A shown transaction's state names the record's own state: read back through
/// the NIP-47 state names it gives the record's state (an expired invoice is
/// shown as "expired", never as another state).
pub proof fn lemma_shown_state_denotes_record_state(r: LookupInvoice, res: InvoiceResponse)
    requires
        shows_invoice(r, res),
    ensures
        match res.state {
            Some(s) => r.state == Some(transaction_state_from_name(s@).unwrap())
                && transaction_state_from_name(s@) is Some,
            None => r.state is None,
        },
{
    if let Some(x) = r.state {
        lemma_transaction_state_name_denotes_itself(x);
    }
}

/// The answer about a transaction loses nothing of the wallet's record: two
/// records shown the same way are the same record (so, among others, a record
/// settled at one time is never shown as settled at another).
pub proof fn lemma_shown_invoice_determines_record(
    r1: LookupInvoice,
    r2: LookupInvoice,
    res: InvoiceResponse,
)
    requires
        shows_invoice(r1, res),
        shows_invoice(r2, res),
    ensures
        r1 == r2,
{
    lemma_opt_type_name_injective(r1.transaction_type, r2.transaction_type);
    lemma_opt_state_name_injective(r1.state, r2.state);
}

/// The record `r` that a lookup returns and the payment notification `p`
/// describe the same transaction.
pub open spec fn same_transaction(r: LookupInvoice, p: PaymentNotification) -> bool {
    &&& r.transaction_type == p.transaction_type
    &&& r.state == p.state
    &&& r.invoice == Some(p.invoice)
    &&& r.description == p.description
    &&& r.preimage == Some(p.preimage)
    &&& r.payment_hash == p.payment_hash
    &&& r.amount == p.amount
    &&& r.fees_paid == p.fees_paid
    &&& r.created_at == p.created_at
    &&& r.expires_at == p.expires_at
    &&& r.settled_at == Some(p.settled_at)
    &&& r.metadata == p.metadata
}

/// A payment's event and the lookup of the same transaction tell the same
/// story: the event carries the preimage, hash, amounts, times and names that
/// the lookup shows.
pub proof fn lemma_payment_event_agrees_with_lookup(
    r: LookupInvoice,
    p: PaymentNotification,
    shown: InvoiceResponse,
    kind: NotificationType,
    n: NotificationResult,
    event: EventNotification,
)
    requires
        same_transaction(r, p),
        n == NotificationResult::PaymentReceived(p) || n == NotificationResult::PaymentSent(p),
        shows_invoice(r, shown),
        announces(kind, n, event),
    ensures
        event.preimage == shown.preimage,
        event.payment_hash == Some(shown.payment_hash),
        event.amount == Some(shown.amount),
        event.fees_paid == Some(shown.fees_paid),
        event.settled_at == shown.settled_at,
        event.created_at == shown.created_at,
        event.expires_at == shown.expires_at,
        event.invoice == shown.invoice,
        event.description == shown.description,
        opt_string_view(event.transaction_type) == opt_string_view(shown.transaction_type),
        opt_string_view(event.state) == opt_string_view(shown.state),
        event.metadata == shown.metadata,
{
}

/// Every payment event, for a payment received or sent, carries the payment's
/// preimage (its proof of payment), its hash, amount, fees and settle time.
pub proof fn lemma_payment_event_carries_payment(
    kind: NotificationType,
    n: NotificationResult,
    p: PaymentNotification,
    event: EventNotification,
)
    requires
        n == NotificationResult::PaymentReceived(p) || n == NotificationResult::PaymentSent(p),
        announces(kind, n, event),
    ensures
        event.preimage == Some(p.preimage),
        event.payment_hash == Some(p.payment_hash),
        event.amount == Some(p.amount),
        event.fees_paid == Some(p.fees_paid),
        event.settled_at == Some(p.settled_at),
        event.settle_deadline is None,
{
}

/// A payment received and the same payment sent give events that differ in
/// nothing but the notification's kind.
pub proof fn lemma_sent_and_received_events_agree(
    received_kind: NotificationType,
    sent_kind: NotificationType,
    p: PaymentNotification,
    received: EventNotification,
    sent: EventNotification,
)
    requires
        announces(received_kind, NotificationResult::PaymentReceived(p), received),
        announces(sent_kind, NotificationResult::PaymentSent(p), sent),
    ensures
        opt_string_view(received.transaction_type) == opt_string_view(sent.transaction_type),
        opt_string_view(received.state) == opt_string_view(sent.state),
        received.invoice == sent.invoice,
        received.description == sent.description,
        received.preimage == sent.preimage,
        received.payment_hash == sent.payment_hash,
        received.amount == sent.amount,
        received.fees_paid == sent.fees_paid,
        received.created_at == sent.created_at,
        received.expires_at == sent.expires_at,
        received.settled_at == sent.settled_at,
        received.settle_deadline == sent.settle_deadline,
        received.metadata == sent.metadata,
{
}

/// An event's name denotes the notification's kind.
pub proof fn lemma_event_name_denotes_kind(
    kind: NotificationType,
    n: NotificationResult,
    event: EventNotification,
)
    requires
        announces(kind, n, event),
    ensures
        notification_type_from_name(event.notification_type@) == Some(kind),
{
    lemma_notification_type_name_denotes_itself(kind);
}

/// An event loses nothing of the notification it announces: two notifications
/// of the same kind and variant announced by the same event are the same
/// notification (so no field, such as a hold invoice's description or a
/// payment's preimage, is dropped or taken from another field).
pub proof fn lemma_event_determines_notification(
    kind: NotificationType,
    n1: NotificationResult,
    n2: NotificationResult,
    event: EventNotification,
)
    requires
        announces(kind, n1, event),
        announces(kind, n2, event),
        (n1 is PaymentReceived && n2 is PaymentReceived) || (n1 is PaymentSent && n2 is PaymentSent)
            || (n1 is HoldInvoiceAccepted && n2 is HoldInvoiceAccepted),
    ensures
        n1 == n2,
{
    match (n1, n2) {
        (NotificationResult::PaymentReceived(p1), NotificationResult::PaymentReceived(p2)) => {
            lemma_opt_type_name_injective(p1.transaction_type, p2.transaction_type);
            lemma_opt_state_name_injective(p1.state, p2.state);
        },
        (NotificationResult::PaymentSent(p1), NotificationResult::PaymentSent(p2)) => {
            lemma_opt_type_name_injective(p1.transaction_type, p2.transaction_type);
            lemma_opt_state_name_injective(p1.state, p2.state);
        },
        (
            NotificationResult::HoldInvoiceAccepted(h1),
            NotificationResult::HoldInvoiceAccepted(h2),
        ) => {
            lemma_opt_type_name_injective(Some(h1.transaction_type), Some(h2.transaction_type));
            lemma_opt_state_name_injective(h1.state, h2.state);
        },
        _ => {},
    }
}

} // verus!
