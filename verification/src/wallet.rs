//! The NIP-47 records that the wallet service answers with, and the request
//! parameters handed to it, held as plain values.

use vstd::prelude::*;

verus! {

/// A JSON value carried through unchanged (the `metadata` of a transaction).
#[verifier::external_type_specification]
#[verifier::external_body]
pub struct ExJsonValue(serde_json::Value);

/// Direction of a wallet transaction.
#[derive(Clone, Copy, Debug, PartialEq, Eq, Structural)]
pub enum TransactionType {
    Incoming,
    Outgoing,
}

/// State of a wallet transaction.
#[derive(Clone, Copy, Debug, PartialEq, Eq, Structural)]
pub enum TransactionState {
    Pending,
    Settled,
    Expired,
    Failed,
    Accepted,
}

/// A NIP-47 command that a wallet service may support.
#[derive(Clone, Copy, Debug, PartialEq, Eq, Structural)]
pub enum Method {
    PayInvoice,
    MultiPayInvoice,
    PayKeysend,
    MultiPayKeysend,
    MakeInvoice,
    LookupInvoice,
    ListTransactions,
    GetBalance,
    GetInfo,
    MakeHoldInvoice,
    CancelHoldInvoice,
    SettleHoldInvoice,
}

/// The kind of a wallet notification.
#[derive(Clone, Copy, Debug, PartialEq, Eq, Structural)]
pub enum NotificationType {
    PaymentReceived,
    PaymentSent,
    HoldInvoiceAccepted,
}

/// The wire name of a transaction direction.
pub open spec fn transaction_type_name(t: TransactionType) -> Seq<char> {
    match t {
        TransactionType::Incoming => "incoming"@,
        TransactionType::Outgoing => "outgoing"@,
    }
}

/// The wire name of a transaction state.
pub open spec fn transaction_state_name(s: TransactionState) -> Seq<char> {
    match s {
        TransactionState::Pending => "pending"@,
        TransactionState::Settled => "settled"@,
        TransactionState::Expired => "expired"@,
        TransactionState::Failed => "failed"@,
        TransactionState::Accepted => "accepted"@,
    }
}

/// The wire name of a NIP-47 command.
pub open spec fn method_name(m: Method) -> Seq<char> {
    match m {
        Method::PayInvoice => "pay_invoice"@,
        Method::MultiPayInvoice => "multi_pay_invoice"@,
        Method::PayKeysend => "pay_keysend"@,
        Method::MultiPayKeysend => "multi_pay_keysend"@,
        Method::MakeInvoice => "make_invoice"@,
        Method::LookupInvoice => "lookup_invoice"@,
        Method::ListTransactions => "list_transactions"@,
        Method::GetBalance => "get_balance"@,
        Method::GetInfo => "get_info"@,
        Method::MakeHoldInvoice => "make_hold_invoice"@,
        Method::CancelHoldInvoice => "cancel_hold_invoice"@,
        Method::SettleHoldInvoice => "settle_hold_invoice"@,
    }
}

/// The wire name of a notification kind.
pub open spec fn notification_type_name(n: NotificationType) -> Seq<char> {
    match n {
        NotificationType::PaymentReceived => "payment_received"@,
        NotificationType::PaymentSent => "payment_sent"@,
        NotificationType::HoldInvoiceAccepted => "hold_invoice_accepted"@,
    }
}

/// The transaction direction that a query string selects: `"outgoing"` selects
/// outgoing transactions, `"incoming"` and every other string incoming ones.
pub open spec fn transaction_type_from_name(s: Seq<char>) -> TransactionType {
    if s == "incoming"@ {
        TransactionType::Incoming
    } else if s == "outgoing"@ {
        TransactionType::Outgoing
    } else {
        TransactionType::Incoming
    }
}

/// Renders a transaction direction by its wire name.
pub fn transaction_type_str(t: TransactionType) -> (res: String)
    ensures
        res@ == transaction_type_name(t),
{
    match t {
        TransactionType::Incoming => "incoming".to_owned(),
        TransactionType::Outgoing => "outgoing".to_owned(),
    }
}

/// Renders a transaction state by its wire name.
pub fn transaction_state_str(s: TransactionState) -> (res: String)
    ensures
        res@ == transaction_state_name(s),
{
    match s {
        TransactionState::Pending => "pending".to_owned(),
        TransactionState::Settled => "settled".to_owned(),
        TransactionState::Expired => "expired".to_owned(),
        TransactionState::Failed => "failed".to_owned(),
        TransactionState::Accepted => "accepted".to_owned(),
    }
}

/// Renders a NIP-47 command by its wire name.
pub fn method_str(m: Method) -> (res: String)
    ensures
        res@ == method_name(m),
{
    match m {
        Method::PayInvoice => "pay_invoice".to_owned(),
        Method::MultiPayInvoice => "multi_pay_invoice".to_owned(),
        Method::PayKeysend => "pay_keysend".to_owned(),
        Method::MultiPayKeysend => "multi_pay_keysend".to_owned(),
        Method::MakeInvoice => "make_invoice".to_owned(),
        Method::LookupInvoice => "lookup_invoice".to_owned(),
        Method::ListTransactions => "list_transactions".to_owned(),
        Method::GetBalance => "get_balance".to_owned(),
        Method::GetInfo => "get_info".to_owned(),
        Method::MakeHoldInvoice => "make_hold_invoice".to_owned(),
        Method::CancelHoldInvoice => "cancel_hold_invoice".to_owned(),
        Method::SettleHoldInvoice => "settle_hold_invoice".to_owned(),
    }
}

/// Renders a notification kind by its wire name.
pub fn notification_type_str(n: NotificationType) -> (res: String)
    ensures
        res@ == notification_type_name(n),
{
    match n {
        NotificationType::PaymentReceived => "payment_received".to_owned(),
        NotificationType::PaymentSent => "payment_sent".to_owned(),
        NotificationType::HoldInvoiceAccepted => "hold_invoice_accepted".to_owned(),
    }
}

/// Reads the transaction direction that a query string selects.
pub fn parse_transaction_type(s: &String) -> (res: TransactionType)
    ensures
        res == transaction_type_from_name(s@),
{
    let incoming = "incoming".to_owned();
    let outgoing = "outgoing".to_owned();
    if s.eq(&incoming) {
        TransactionType::Incoming
    } else if s.eq(&outgoing) {
        TransactionType::Outgoing
    } else {
        TransactionType::Incoming
    }
}

/// One transaction as the wallet reports it (a `lookup_invoice` answer or an
/// entry of a `list_transactions` answer). Times are UNIX seconds.
pub struct LookupInvoice {
    pub transaction_type: Option<TransactionType>,
    pub state: Option<TransactionState>,
    pub invoice: Option<String>,
    pub description: Option<String>,
    pub preimage: Option<String>,
    pub payment_hash: String,
    pub amount: u64,
    pub fees_paid: u64,
    pub created_at: Option<u64>,
    pub expires_at: Option<u64>,
    pub settled_at: Option<u64>,
    pub metadata: Option<serde_json::Value>,
}

/// A payment that the wallet received or sent. Times are UNIX seconds.
pub struct PaymentNotification {
    pub transaction_type: Option<TransactionType>,
    pub state: Option<TransactionState>,
    pub invoice: String,
    pub description: Option<String>,
    pub preimage: String,
    pub payment_hash: String,
    pub amount: u64,
    pub fees_paid: u64,
    pub created_at: Option<u64>,
    pub expires_at: Option<u64>,
    pub settled_at: u64,
    pub metadata: Option<serde_json::Value>,
}

/// A hold invoice whose funds are locked. Times are UNIX seconds.
pub struct HoldInvoiceAcceptedNotification {
    pub transaction_type: TransactionType,
    pub state: Option<TransactionState>,
    pub invoice: String,
    pub description: Option<String>,
    pub payment_hash: String,
    pub amount: u64,
    pub created_at: u64,
    pub expires_at: u64,
    pub settle_deadline: u32,
    pub metadata: Option<serde_json::Value>,
}

/// The body of a wallet notification.
pub enum NotificationResult {
    PaymentReceived(PaymentNotification),
    PaymentSent(PaymentNotification),
    HoldInvoiceAccepted(HoldInvoiceAcceptedNotification),
}

/// What the wallet says of itself (a `get_info` answer).
pub struct WalletInfo {
    pub alias: Option<String>,
    pub color: Option<String>,
    pub pubkey: Option<String>,
    pub network: Option<String>,
    pub block_height: Option<u32>,
    pub block_hash: Option<String>,
    pub methods: Vec<Method>,
    pub notifications: Vec<String>,
}

/// The answer to a `pay_invoice` command.
pub struct PayInvoiceResult {
    pub preimage: String,
    pub fees_paid: Option<u64>,
}

/// The answer to a `make_invoice` command. Times are UNIX seconds.
pub struct MakeInvoiceResult {
    pub invoice: String,
    pub payment_hash: Option<String>,
    pub expires_at: Option<u64>,
}

/// Parameters of a `pay_invoice` command. Amounts are in msats.
pub struct PayInvoiceParams {
    pub id: Option<String>,
    pub invoice: String,
    pub amount: Option<u64>,
}

/// Parameters of a `make_invoice` command. Amounts are in msats.
pub struct MakeInvoiceParams {
    pub amount: u64,
    pub description: Option<String>,
    pub description_hash: Option<String>,
    pub expiry: Option<u64>,
}

/// Parameters of a `lookup_invoice` command.
pub struct LookupInvoiceParams {
    pub payment_hash: Option<String>,
    pub invoice: Option<String>,
}

/// Parameters of a `list_transactions` command. Times are UNIX seconds.
pub struct ListTransactionsParams {
    pub from: Option<u64>,
    pub until: Option<u64>,
    pub limit: Option<u64>,
    pub offset: Option<u64>,
    pub unpaid: Option<bool>,
    pub transaction_type: Option<TransactionType>,
}

/// A transaction direction's wire name, given as the `type` of a
/// `GET /transactions` query, selects that same direction.
pub proof fn lemma_transaction_type_name_selects_itself(t: TransactionType)
    ensures
        transaction_type_from_name(transaction_type_name(t)) == t,
{
    reveal_strlit("incoming");
    reveal_strlit("outgoing");
    assert("incoming"@[0] != "outgoing"@[0]);
}

/// Distinct notification kinds have distinct wire names, so the name of an
/// event tells its kind.
pub proof fn lemma_notification_type_names_distinct(a: NotificationType, b: NotificationType)
    ensures
        a != b ==> notification_type_name(a) != notification_type_name(b),
{
    reveal_strlit("payment_received");
    reveal_strlit("payment_sent");
    reveal_strlit("hold_invoice_accepted");
    assert("payment_received"@.len() != "payment_sent"@.len());
    assert("payment_received"@[0] != "hold_invoice_accepted"@[0]);
    assert("payment_sent"@[0] != "hold_invoice_accepted"@[0]);
}

/// Distinct transaction states have distinct wire names.
pub proof fn lemma_transaction_state_names_distinct(a: TransactionState, b: TransactionState)
    ensures
        a != b ==> transaction_state_name(a) != transaction_state_name(b),
{
    reveal_strlit("pending");
    reveal_strlit("settled");
    reveal_strlit("expired");
    reveal_strlit("failed");
    reveal_strlit("accepted");
    assert("pending"@[0] != "settled"@[0]);
    assert("pending"@[0] != "expired"@[0]);
    assert("pending"@[0] != "failed"@[0]);
    assert("pending"@[0] != "accepted"@[0]);
    assert("settled"@[0] != "expired"@[0]);
    assert("settled"@[0] != "failed"@[0]);
    assert("settled"@[0] != "accepted"@[0]);
    assert("expired"@[0] != "failed"@[0]);
    assert("expired"@[0] != "accepted"@[0]);
    assert("failed"@[0] != "accepted"@[0]);
}

/// The command that a NIP-47 wire name denotes (the protocol's list of
/// command names), if any.
pub open spec fn method_from_name(s: Seq<char>) -> Option<Method> {
    if s == "pay_invoice"@ {
        Some(Method::PayInvoice)
    } else if s == "multi_pay_invoice"@ {
        Some(Method::MultiPayInvoice)
    } else if s == "pay_keysend"@ {
        Some(Method::PayKeysend)
    } else if s == "multi_pay_keysend"@ {
        Some(Method::MultiPayKeysend)
    } else if s == "make_invoice"@ {
        Some(Method::MakeInvoice)
    } else if s == "lookup_invoice"@ {
        Some(Method::LookupInvoice)
    } else if s == "list_transactions"@ {
        Some(Method::ListTransactions)
    } else if s == "get_balance"@ {
        Some(Method::GetBalance)
    } else if s == "get_info"@ {
        Some(Method::GetInfo)
    } else if s == "make_hold_invoice"@ {
        Some(Method::MakeHoldInvoice)
    } else if s == "cancel_hold_invoice"@ {
        Some(Method::CancelHoldInvoice)
    } else if s == "settle_hold_invoice"@ {
        Some(Method::SettleHoldInvoice)
    } else {
        None
    }
}

/// The transaction state that a NIP-47 wire name denotes, if any.
pub open spec fn transaction_state_from_name(s: Seq<char>) -> Option<TransactionState> {
    if s == "pending"@ {
        Some(TransactionState::Pending)
    } else if s == "settled"@ {
        Some(TransactionState::Settled)
    } else if s == "expired"@ {
        Some(TransactionState::Expired)
    } else if s == "failed"@ {
        Some(TransactionState::Failed)
    } else if s == "accepted"@ {
        Some(TransactionState::Accepted)
    } else {
        None
    }
}

/// The notification kind that a NIP-47 wire name denotes, if any.
pub open spec fn notification_type_from_name(s: Seq<char>) -> Option<NotificationType> {
    if s == "payment_received"@ {
        Some(NotificationType::PaymentReceived)
    } else if s == "payment_sent"@ {
        Some(NotificationType::PaymentSent)
    } else if s == "hold_invoice_accepted"@ {
        Some(NotificationType::HoldInvoiceAccepted)
    } else {
        None
    }
}

proof fn lemma_method_literals_differ()
    ensures
        "pay_invoice"@ != "pay_keysend"@,
        "pay_invoice"@ != "get_balance"@,
        "pay_keysend"@ != "get_balance"@,
        "multi_pay_invoice"@ != "multi_pay_keysend"@,
        "multi_pay_invoice"@ != "list_transactions"@,
        "multi_pay_invoice"@ != "make_hold_invoice"@,
        "multi_pay_keysend"@ != "list_transactions"@,
        "multi_pay_keysend"@ != "make_hold_invoice"@,
        "list_transactions"@ != "make_hold_invoice"@,
        "cancel_hold_invoice"@ != "settle_hold_invoice"@,
        "pay_invoice"@.len() == 11,
        "pay_keysend"@.len() == 11,
        "get_balance"@.len() == 11,
        "multi_pay_invoice"@.len() == 17,
        "multi_pay_keysend"@.len() == 17,
        "list_transactions"@.len() == 17,
        "make_hold_invoice"@.len() == 17,
        "cancel_hold_invoice"@.len() == 19,
        "settle_hold_invoice"@.len() == 19,
        "make_invoice"@.len() == 12,
        "lookup_invoice"@.len() == 14,
        "get_info"@.len() == 8,
{
    reveal_strlit("pay_invoice");
    reveal_strlit("multi_pay_invoice");
    reveal_strlit("pay_keysend");
    reveal_strlit("multi_pay_keysend");
    reveal_strlit("make_invoice");
    reveal_strlit("lookup_invoice");
    reveal_strlit("list_transactions");
    reveal_strlit("get_balance");
    reveal_strlit("get_info");
    reveal_strlit("make_hold_invoice");
    reveal_strlit("cancel_hold_invoice");
    reveal_strlit("settle_hold_invoice");
    assert("pay_invoice"@[4] != "pay_keysend"@[4]);
    assert("pay_invoice"@[0] != "get_balance"@[0]);
    assert("pay_keysend"@[0] != "get_balance"@[0]);
    assert("multi_pay_invoice"@[10] != "multi_pay_keysend"@[10]);
    assert("multi_pay_invoice"@[0] != "list_transactions"@[0]);
    assert("multi_pay_invoice"@[1] != "make_hold_invoice"@[1]);
    assert("multi_pay_keysend"@[0] != "list_transactions"@[0]);
    assert("multi_pay_keysend"@[1] != "make_hold_invoice"@[1]);
    assert("list_transactions"@[0] != "make_hold_invoice"@[0]);
    assert("cancel_hold_invoice"@[0] != "settle_hold_invoice"@[0]);
}

/// Every command's wire name is the NIP-47 name of that command: read back
/// through the protocol's list of names, it gives the command itself.
pub proof fn lemma_method_name_denotes_itself(m: Method)
    ensures
        method_from_name(method_name(m)) == Some(m),
{
    lemma_method_literals_differ();
}

/// Distinct commands have distinct wire names, so a client can tell from the
/// names which commands a wallet supports.
pub proof fn lemma_method_names_distinct(a: Method, b: Method)
    ensures
        a != b ==> method_name(a) != method_name(b),
{
    lemma_method_name_denotes_itself(a);
    lemma_method_name_denotes_itself(b);
}

/// Every transaction state's wire name denotes that same state.
pub proof fn lemma_transaction_state_name_denotes_itself(s: TransactionState)
    ensures
        transaction_state_from_name(transaction_state_name(s)) == Some(s),
{
    reveal_strlit("pending");
    reveal_strlit("settled");
    reveal_strlit("expired");
    reveal_strlit("failed");
    reveal_strlit("accepted");
    assert("pending"@[0] != "settled"@[0]);
    assert("pending"@[0] != "expired"@[0]);
    assert("pending"@[0] != "failed"@[0]);
    assert("pending"@[0] != "accepted"@[0]);
    assert("settled"@[0] != "expired"@[0]);
    assert("settled"@[0] != "failed"@[0]);
    assert("settled"@[0] != "accepted"@[0]);
    assert("expired"@[0] != "failed"@[0]);
    assert("expired"@[0] != "accepted"@[0]);
    assert("failed"@[0] != "accepted"@[0]);
}

/// Every notification kind's wire name denotes that same kind.
pub proof fn lemma_notification_type_name_denotes_itself(n: NotificationType)
    ensures
        notification_type_from_name(notification_type_name(n)) == Some(n),
{
    reveal_strlit("payment_received");
    reveal_strlit("payment_sent");
    reveal_strlit("hold_invoice_accepted");
    assert("payment_received"@.len() != "payment_sent"@.len());
    assert("payment_received"@[0] != "hold_invoice_accepted"@[0]);
    assert("payment_sent"@[0] != "hold_invoice_accepted"@[0]);
}

} // verus!
