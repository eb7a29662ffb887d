//! Inbound events, their types and payloads, preference gating, and the
//! rendering of each payload into message text.

use vstd::prelude::*;
use crate::account_activity::{account_message, AccountNotifData};
use crate::text::{concat2, concat3, decimal, decimal_text, format_utc_millis, utc_text};

verus! {

/// The kind of an inbound event.
#[derive(Debug, Clone, Copy, PartialEq, Eq, Structural, Hash)]
pub enum NotifType {
    Order,
    Transaction,
    Account,
    Announcement,
    Campaign,
}

/// Direction of a wallet transaction.
#[derive(Debug, Clone, Copy, PartialEq, Eq, Structural, Hash)]
pub enum TradingType {
    Buy,
    Sell,
    Add,
    Remove,
}

/// Upper-case wire name of a notification type.
pub open spec fn notif_type_name(t: NotifType) -> Seq<char> {
    match t {
        NotifType::Order => "ORDER"@,
        NotifType::Transaction => "TRANSACTION"@,
        NotifType::Account => "ACCOUNT"@,
        NotifType::Announcement => "ANNOUNCEMENT"@,
        NotifType::Campaign => "CAMPAIGN"@,
    }
}

/// The fixed title shown for each notification type.
pub open spec fn notif_title(t: NotifType) -> Seq<char> {
    match t {
        NotifType::Order => "Order Notification"@,
        NotifType::Transaction => "Transaction Notification"@,
        NotifType::Account => "Account Notification"@,
        NotifType::Announcement => "Announcement Notification"@,
        NotifType::Campaign => "Campaign Notification"@,
    }
}

/// Upper-case name of a trading type.
pub open spec fn trading_type_name(t: TradingType) -> Seq<char> {
    match t {
        TradingType::Buy => "BUY"@,
        TradingType::Sell => "SELL"@,
        TradingType::Add => "ADD"@,
        TradingType::Remove => "REMOVE"@,
    }
}

/// Returns whether `a` holds exactly the characters of `lit`.
pub fn text_is(a: &String, lit: &str) -> (r: bool)
    ensures
        r == (a@ == lit@),
{
    let l = String::from_str(lit);
    *a == l
}

impl NotifType {
    pub fn construct_title(&self) -> (r: String)
        ensures
            r@ == notif_title(*self),
    {
        match self {
            NotifType::Transaction => String::from_str("Transaction Notification"),
            NotifType::Order => String::from_str("Order Notification"),
            NotifType::Account => String::from_str("Account Notification"),
            NotifType::Announcement => String::from_str("Announcement Notification"),
            NotifType::Campaign => String::from_str("Campaign Notification"),
        }
    }

    /// The upper-case name under which the type is stored and sent.
    pub fn to_type_string(&self) -> (r: String)
        ensures
            r@ == notif_type_name(*self),
    {
        match self {
            NotifType::Transaction => String::from_str("TRANSACTION"),
            NotifType::Order => String::from_str("ORDER"),
            NotifType::Account => String::from_str("ACCOUNT"),
            NotifType::Announcement => String::from_str("ANNOUNCEMENT"),
            NotifType::Campaign => String::from_str("CAMPAIGN"),
        }
    }

    /// Parses an upper-case type name; any other text is rejected.
    pub fn parse(s: &String) -> (r: Option<NotifType>)
        ensures
            r == notif_type_from_name(s@),
    {
        if text_is(s, "ORDER") {
            Some(NotifType::Order)
        } else if text_is(s, "TRANSACTION") {
            Some(NotifType::Transaction)
        } else if text_is(s, "ACCOUNT") {
            Some(NotifType::Account)
        } else if text_is(s, "ANNOUNCEMENT") {
            Some(NotifType::Announcement)
        } else if text_is(s, "CAMPAIGN") {
            Some(NotifType::Campaign)
        } else {
            None
        }
    }
}

/// The type whose upper-case name is `s`, if any.
pub open spec fn notif_type_from_name(s: Seq<char>) -> Option<NotifType> {
    if s == "ORDER"@ {
        Some(NotifType::Order)
    } else if s == "TRANSACTION"@ {
        Some(NotifType::Transaction)
    } else if s == "ACCOUNT"@ {
        Some(NotifType::Account)
    } else if s == "ANNOUNCEMENT"@ {
        Some(NotifType::Announcement)
    } else if s == "CAMPAIGN"@ {
        Some(NotifType::Campaign)
    } else {
        None
    }
}

impl TradingType {
    pub fn to_type_string(&self) -> (r: String)
        ensures
            r@ == trading_type_name(*self),
    {
        match self {
            TradingType::Buy => String::from_str("BUY"),
            TradingType::Sell => String::from_str("SELL"),
            TradingType::Add => String::from_str("ADD"),
            TradingType::Remove => String::from_str("REMOVE"),
        }
    }
}

/// Per-user switches for each notification family.
#[derive(Debug, Clone, Copy, PartialEq, Eq, Structural)]
pub struct NotificationPreferences {
    pub announcement: bool,
    pub account: bool,
    pub campaign: bool,
    pub transaction: bool,
}

/// Whether preferences `p` let a notification of type `t` through.
/// Order events are governed by the transaction switch.
pub open spec fn allows(p: NotificationPreferences, t: NotifType) -> bool {
    match t {
        NotifType::Transaction => p.transaction,
        NotifType::Order => p.transaction,
        NotifType::Account => p.account,
        NotifType::Announcement => p.announcement,
        NotifType::Campaign => p.campaign,
    }
}

/// The preferences of a user that has no stored record: everything enabled.
pub open spec fn default_preferences() -> NotificationPreferences {
    NotificationPreferences { announcement: true, account: true, campaign: true, transaction: true }
}

impl NotificationPreferences {
    pub fn contains(&self, notif_type: NotifType) -> (r: bool)
        ensures
            r == allows(*self, notif_type),
    {
        match notif_type {
            NotifType::Transaction => self.transaction,
            NotifType::Order => self.transaction,
            NotifType::Account => self.account,
            NotifType::Announcement => self.announcement,
            NotifType::Campaign => self.campaign,
        }
    }

    /// All four switches on.
    pub fn all_enabled() -> (r: NotificationPreferences)
        ensures
            r == default_preferences(),
    {
        NotificationPreferences { announcement: true, account: true, campaign: true, transaction: true }
    }
}

} // verus!

verus! {

/// An order event.
#[derive(Debug, Clone)]
pub struct OrderNotifData {
    pub order_id: u64,
    pub status: String,
}

/// A wallet transaction event.
#[derive(Debug, Clone)]
pub struct TransactionNotifData {
    pub id: u64,
    pub user_id: String,
    pub asset: String,
    pub network_id: String,
    pub tx_hash: String,
    pub trading_type: TradingType,
    pub amount: String,
    pub status: String,
}

/// What an event carries, one variant per kind of payload.
#[derive(Debug, Clone)]
pub enum NotifMetadata {
    Order(OrderNotifData),
    Transaction(TransactionNotifData),
    Account(AccountNotifData),
}

/// One inbound event: whose it is, its type, when (milliseconds since the
/// epoch, producer clock) and its payload.
#[derive(Debug, Clone)]
pub struct NotifMessage {
    pub user_id: String,
    pub notif_type: NotifType,
    pub timestamp: i64,
    pub metadata: NotifMetadata,
}

/// A rendered push for one user, before the title is attached.
#[derive(Debug, Clone)]
pub struct OrderNotifBuilder {
    pub user_id: String,
    pub message: String,
}

/// The phrase for a supported order status.
pub open spec fn order_phrase(status: Seq<char>) -> Option<Seq<char>> {
    if status == "NEW"@ {
        Some("placed successfully"@)
    } else if status == "FILLED"@ {
        Some("matched"@)
    } else if status == "CANCELLED"@ {
        Some("cancelled"@)
    } else if status == "REJECTED"@ {
        Some("rejected"@)
    } else {
        None
    }
}

/// The message for an order event; `None` for an unsupported status.
pub open spec fn order_message(d: OrderNotifData) -> Option<Seq<char>> {
    match order_phrase(d.status@) {
        Some(p) => Some("Order "@ + decimal(d.order_id as nat) + " "@ + p + "."@),
        None => None,
    }
}

/// The message for a transaction event at `time`; `None` for an unsupported status.
pub open spec fn transaction_message(d: TransactionNotifData, time: Seq<char>) -> Option<Seq<char>> {
    if d.status@ == "COMPLETED"@ {
        if d.trading_type == TradingType::Add {
            Some("You have successfully deposit "@ + d.amount@ + " "@ + d.asset@ + " at "@ + time)
        } else {
            Some("You have successfully withdraw "@ + d.amount@ + " "@ + d.asset@ + " at "@ + time
                + ". If you do not recognize this activity, please contact us immediately."@)
        }
    } else if d.status@ == "FAILED"@ || d.status@ == "REJECTED"@ {
        Some("Your "@ + trading_type_name(d.trading_type) + " transaction of "@ + d.amount@ + " "@
            + d.asset@ + " failed at "@ + time + "."@)
    } else {
        None
    }
}

/// The message for a payload at `time`; `None` where rendering is unsupported.
pub open spec fn metadata_message(m: NotifMetadata, time: Seq<char>) -> Option<Seq<char>> {
    match m {
        NotifMetadata::Order(d) => order_message(d),
        NotifMetadata::Transaction(d) => transaction_message(d, time),
        NotifMetadata::Account(d) => Some(account_message(d.activity_type, d.action_status, time)),
    }
}

/// The message of an event, its time text taken from its own timestamp;
/// `None` where rendering is unsupported, or where a message that carries the
/// time has a timestamp without calendar text.
pub open spec fn event_message(e: NotifMessage) -> Option<Seq<char>> {
    match e.metadata {
        NotifMetadata::Order(d) => order_message(d),
        _ => match utc_text(e.timestamp as int) {
            Some(t) => metadata_message(e.metadata, t),
            None => None,
        },
    }
}

impl OrderNotifData {
    pub fn construct_message(&self) -> (r: Option<String>)
        ensures
            match r {
                Some(s) => order_message(*self) == Some(s@),
                None => order_message(*self) is None,
            },
    {
        let phrase = if text_is(&self.status, "NEW") {
            "placed successfully"
        } else if text_is(&self.status, "FILLED") {
            "matched"
        } else if text_is(&self.status, "CANCELLED") {
            "cancelled"
        } else if text_is(&self.status, "REJECTED") {
            "rejected"
        } else {
            return None;
        };
        let mut r = concat2("Order ", &decimal_text(self.order_id));
        r.append(" ");
        r.append(phrase);
        r.append(".");
        Some(r)
    }
}

impl TransactionNotifData {
    pub fn construct_message(&self, time: &String) -> (r: Option<String>)
        ensures
            match r {
                Some(s) => transaction_message(*self, time@) == Some(s@),
                None => transaction_message(*self, time@) is None,
            },
    {
        if text_is(&self.status, "COMPLETED") {
            let mut r = if self.trading_type == TradingType::Add {
                String::from_str("You have successfully deposit ")
            } else {
                String::from_str("You have successfully withdraw ")
            };
            r.append(self.amount.as_str());
            r.append(" ");
            r.append(self.asset.as_str());
            r.append(" at ");
            r.append(time.as_str());
            if self.trading_type != TradingType::Add {
                r.append(". If you do not recognize this activity, please contact us immediately.");
            }
            Some(r)
        } else if text_is(&self.status, "FAILED") || text_is(&self.status, "REJECTED") {
            let mut r = concat3("Your ", &self.trading_type.to_type_string(), " transaction of ");
            r.append(self.amount.as_str());
            r.append(" ");
            r.append(self.asset.as_str());
            r.append(" failed at ");
            r.append(time.as_str());
            r.append(".");
            Some(r)
        } else {
            None
        }
    }
}

impl NotifMetadata {
    /// Renders the payload's message with `time` as the event's time text;
    /// `None` where the payload has no template.
    pub fn construct_message(&self, time: &String) -> (r: Option<String>)
        ensures
            match r {
                Some(s) => metadata_message(*self, time@) == Some(s@),
                None => metadata_message(*self, time@) is None,
            },
    {
        match self {
            NotifMetadata::Order(d) => d.construct_message(),
            NotifMetadata::Transaction(d) => d.construct_message(time),
            NotifMetadata::Account(d) => Some(d.construct_message(time)),
        }
    }
}

impl NotifMessage {
    /// Renders this event, its time text taken from its own timestamp.
    pub fn render(&self) -> (r: Option<String>)
        ensures
            match r {
                Some(s) => event_message(*self) == Some(s@),
                None => event_message(*self) is None,
            },
    {
        match &self.metadata {
            NotifMetadata::Order(d) => d.construct_message(),
            _ => match format_utc_millis(self.timestamp) {
                Some(t) => self.metadata.construct_message(&t),
                None => None,
            },
        }
    }
}

} // verus!
