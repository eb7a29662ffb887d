//! Account-security events and their message templates.

use vstd::prelude::*;
use crate::text::concat3;

verus! {

#[derive(Debug, Clone, Copy, PartialEq, Eq, Structural)]
pub enum KycAction {
    Approved,
    Upgraded,
}

#[derive(Debug, Clone, Copy, PartialEq, Eq, Structural)]
pub enum WhitelistingAction {
    Enabled,
    Disabled,
    Added,
    Removed,
}

#[derive(Debug, Clone, Copy, PartialEq, Eq, Structural)]
pub enum AccountAction {
    Disabled,
    Deleted,
}

#[derive(Debug, Clone, Copy, PartialEq, Eq, Structural)]
pub enum MfaAction {
    Enabled,
    Disabled,
}

#[derive(Debug, Clone, Copy, PartialEq, Eq, Structural)]
pub enum PasswordAction {
    Initialized,
    Change,
    Reset,
}

#[derive(Debug, Clone, Copy, PartialEq, Eq, Structural)]
pub enum ActionStatus {
    Failed,
    Success,
}

/// A security-relevant action on an account.
#[derive(Debug, Clone, Copy, PartialEq, Eq, Structural)]
pub enum AccountNotifType {
    Kyc(KycAction),
    Whitelisting(WhitelistingAction),
    Account(AccountAction),
    Mfa(MfaAction),
    Password(PasswordAction),
}

/// An account event: who, what, and whether it succeeded.
#[derive(Debug, Clone)]
pub struct AccountNotifData {
    pub user_id: String,
    pub activity_type: AccountNotifType,
    pub action_status: ActionStatus,
}

/// The verb phrase naming an account activity ("enable two-factor authentication").
pub open spec fn activity_phrase(a: AccountNotifType) -> Seq<char> {
    match a {
        AccountNotifType::Kyc(KycAction::Approved) => "verify KYC"@,
        AccountNotifType::Kyc(KycAction::Upgraded) => "upgrade KYC"@,
        AccountNotifType::Whitelisting(WhitelistingAction::Enabled) => "enable withdrawal address whitelisting"@,
        AccountNotifType::Whitelisting(WhitelistingAction::Disabled) => "disable withdrawal address whitelisting"@,
        AccountNotifType::Whitelisting(WhitelistingAction::Added) => "add withdrawal address to whitelist"@,
        AccountNotifType::Whitelisting(WhitelistingAction::Removed) => "remove withdrawal address from whitelist"@,
        AccountNotifType::Account(AccountAction::Disabled) => "disable account"@,
        AccountNotifType::Account(AccountAction::Deleted) => "delete account"@,
        AccountNotifType::Mfa(MfaAction::Enabled) => "enable two-factor authentication"@,
        AccountNotifType::Mfa(MfaAction::Disabled) => "disable two-factor authentication"@,
        AccountNotifType::Password(PasswordAction::Initialized) => "initialize password"@,
        AccountNotifType::Password(PasswordAction::Change) => "change password"@,
        AccountNotifType::Password(PasswordAction::Reset) => "reset password"@,
    }
}

/// The sentence that reports a successful activity, with `time` in it.
pub open spec fn success_message(a: AccountNotifType, time: Seq<char>) -> Seq<char> {
    match a {
        AccountNotifType::Kyc(KycAction::Approved) =>
            "Your identity verification was approved on "@ + time + "."@,
        AccountNotifType::Kyc(KycAction::Upgraded) =>
            "Your verification level was upgraded on "@ + time + "."@,
        AccountNotifType::Whitelisting(WhitelistingAction::Enabled) =>
            "Withdrawal address whitelisting was enabled on "@ + time + "."@,
        AccountNotifType::Whitelisting(WhitelistingAction::Disabled) =>
            "Withdrawal address whitelisting was disabled on "@ + time + "."@,
        AccountNotifType::Whitelisting(WhitelistingAction::Added) =>
            "A new withdrawal address was added to your whitelist on "@ + time + "."@,
        AccountNotifType::Whitelisting(WhitelistingAction::Removed) =>
            "A withdrawal address was removed from your whitelist on "@ + time + "."@,
        AccountNotifType::Account(AccountAction::Disabled) =>
            "Your account was disabled on "@ + time + ". If you do not recognize this activity, please contact us immediately."@,
        AccountNotifType::Account(AccountAction::Deleted) =>
            "Your account was permanently deleted on "@ + time + ". All data has been removed as requested."@,
        AccountNotifType::Mfa(MfaAction::Enabled) =>
            "Two-factor authentication was enabled on "@ + time + "."@,
        AccountNotifType::Mfa(MfaAction::Disabled) =>
            "Two-factor authentication was disabled on "@ + time + ". If you do not recognize this activity, please contact us immediately."@,
        AccountNotifType::Password(PasswordAction::Initialized) =>
            "Your account password was set up on "@ + time + ". Your account is ready to use."@,
        AccountNotifType::Password(PasswordAction::Change) =>
            "Your password was changed on "@ + time + ". If you do not recognize this activity, please contact us immediately."@,
        AccountNotifType::Password(PasswordAction::Reset) =>
            "Your password was reset on "@ + time + ". If you do not recognize this activity, please contact us immediately."@,
    }
}

/// The message for an account event that happened at `time`.
pub open spec fn account_message(a: AccountNotifType, status: ActionStatus, time: Seq<char>) -> Seq<char> {
    match status {
        ActionStatus::Failed =>
            "Your request to "@ + activity_phrase(a) + " failed on "@ + time
                + ". If you do not recognize this activity, please contact us immediately."@,
        ActionStatus::Success => success_message(a, time),
    }
}

impl AccountNotifType {
    /// The verb phrase naming this activity.
    pub fn phrase(&self) -> (r: String)
        ensures
            r@ == activity_phrase(*self),
    {
        match self {
            AccountNotifType::Kyc(KycAction::Approved) => String::from_str("verify KYC"),
            AccountNotifType::Kyc(KycAction::Upgraded) => String::from_str("upgrade KYC"),
            AccountNotifType::Whitelisting(WhitelistingAction::Enabled) => String::from_str("enable withdrawal address whitelisting"),
            AccountNotifType::Whitelisting(WhitelistingAction::Disabled) => String::from_str("disable withdrawal address whitelisting"),
            AccountNotifType::Whitelisting(WhitelistingAction::Added) => String::from_str("add withdrawal address to whitelist"),
            AccountNotifType::Whitelisting(WhitelistingAction::Removed) => String::from_str("remove withdrawal address from whitelist"),
            AccountNotifType::Account(AccountAction::Disabled) => String::from_str("disable account"),
            AccountNotifType::Account(AccountAction::Deleted) => String::from_str("delete account"),
            AccountNotifType::Mfa(MfaAction::Enabled) => String::from_str("enable two-factor authentication"),
            AccountNotifType::Mfa(MfaAction::Disabled) => String::from_str("disable two-factor authentication"),
            AccountNotifType::Password(PasswordAction::Initialized) => String::from_str("initialize password"),
            AccountNotifType::Password(PasswordAction::Change) => String::from_str("change password"),
            AccountNotifType::Password(PasswordAction::Reset) => String::from_str("reset password"),
        }
    }
}

impl AccountNotifData {
    /// Renders the message for this event, which happened at `time`.
    pub fn construct_message(&self, time: &String) -> (r: String)
        ensures
            r@ == account_message(self.activity_type, self.action_status, time@),
    {
        match self.action_status {
            ActionStatus::Failed => {
                let mut r = concat3("Your request to ", &self.activity_type.phrase(), " failed on ");
                r.append(time.as_str());
                r.append(". If you do not recognize this activity, please contact us immediately.");
                r
            },
            ActionStatus::Success => match self.activity_type {
                AccountNotifType::Kyc(KycAction::Approved) =>
                    concat3("Your identity verification was approved on ", time, "."),
                AccountNotifType::Kyc(KycAction::Upgraded) =>
                    concat3("Your verification level was upgraded on ", time, "."),
                AccountNotifType::Whitelisting(WhitelistingAction::Enabled) =>
                    concat3("Withdrawal address whitelisting was enabled on ", time, "."),
                AccountNotifType::Whitelisting(WhitelistingAction::Disabled) =>
                    concat3("Withdrawal address whitelisting was disabled on ", time, "."),
                AccountNotifType::Whitelisting(WhitelistingAction::Added) =>
                    concat3("A new withdrawal address was added to your whitelist on ", time, "."),
                AccountNotifType::Whitelisting(WhitelistingAction::Removed) =>
                    concat3("A withdrawal address was removed from your whitelist on ", time, "."),
                AccountNotifType::Account(AccountAction::Disabled) =>
                    concat3("Your account was disabled on ", time, ". If you do not recognize this activity, please contact us immediately."),
                AccountNotifType::Account(AccountAction::Deleted) =>
                    concat3("Your account was permanently deleted on ", time, ". All data has been removed as requested."),
                AccountNotifType::Mfa(MfaAction::Enabled) =>
                    concat3("Two-factor authentication was enabled on ", time, "."),
                AccountNotifType::Mfa(MfaAction::Disabled) =>
                    concat3("Two-factor authentication was disabled on ", time, ". If you do not recognize this activity, please contact us immediately."),
                AccountNotifType::Password(PasswordAction::Initialized) =>
                    concat3("Your account password was set up on ", time, ". Your account is ready to use."),
                AccountNotifType::Password(PasswordAction::Change) =>
                    concat3("Your password was changed on ", time, ". If you do not recognize this activity, please contact us immediately."),
                AccountNotifType::Password(PasswordAction::Reset) =>
                    concat3("Your password was reset on ", time, ". If you do not recognize this activity, please contact us immediately."),
            },
        }
    }

}

} // verus!
