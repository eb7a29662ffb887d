//! Access scopes carried by tokens.

use vstd::prelude::*;
use crate::notification::text_is;
use crate::text::concat2;

verus! {

/// An access scope a token may carry.
#[derive(Debug, Clone, Copy, PartialEq, Eq, Structural)]
pub enum EAvailableScope {
    FullAccess,
    FullReadOnly,
    PositionsReadOnly,
    PositionsWrite,
    PresetSettingReadOnly,
    PresetSettingWrite,
    TransactionsReadOnly,
    HoldersReadOnly,
    FavoritesReadOnly,
    FavoritesWrite,
    ReferralsReadOnly,
    ReferralsWrite,
    TokenReadOnly,
    SettingsFullAccess,
}

/// The lower-case form of `s` as `str::to_lowercase` computes it.
pub uninterp spec fn lower_of(s: Seq<char>) -> Seq<char>;

/// Relies on `str::to_lowercase`: the result depends on the characters alone.
#[verifier::external_body]
fn lowercase(s: &str) -> (r: String)
    ensures
        r@ == lower_of(s@),
{
    s.to_lowercase()
}

/// The scope with lower-case name `s`, if any.
pub open spec fn scope_named(s: Seq<char>) -> Option<EAvailableScope> {
    if s == "full_access"@ { Some(EAvailableScope::FullAccess) }
    else if s == "full_read_only"@ { Some(EAvailableScope::FullReadOnly) }
    else if s == "common.positions.read_only"@ { Some(EAvailableScope::PositionsReadOnly) }
    else if s == "common.positions.write"@ { Some(EAvailableScope::PositionsWrite) }
    else if s == "common.preset_settings.read_only"@ { Some(EAvailableScope::PresetSettingReadOnly) }
    else if s == "common.preset_settings.write"@ { Some(EAvailableScope::PresetSettingWrite) }
    else if s == "common.transactions.read_only"@ { Some(EAvailableScope::TransactionsReadOnly) }
    else if s == "common.holders.read_only"@ { Some(EAvailableScope::HoldersReadOnly) }
    else if s == "common.favorites.read_only"@ { Some(EAvailableScope::FavoritesReadOnly) }
    else if s == "common.favorites.write"@ { Some(EAvailableScope::FavoritesWrite) }
    else if s == "common.referrals.read_only"@ { Some(EAvailableScope::ReferralsReadOnly) }
    else if s == "common.referrals.write"@ { Some(EAvailableScope::ReferralsWrite) }
    else if s == "common.token.read_only"@ { Some(EAvailableScope::TokenReadOnly) }
    else if s == "settings.full_access"@ { Some(EAvailableScope::SettingsFullAccess) }
    else { None }
}

impl EAvailableScope {
    /// The scope whose name is `lowered`, already in lower case.
    pub fn from_lowercase(lowered: &String) -> (r: Option<EAvailableScope>)
        ensures
            r == scope_named(lowered@),
    {
        if text_is(lowered, "full_access") { Some(EAvailableScope::FullAccess) }
        else if text_is(lowered, "full_read_only") { Some(EAvailableScope::FullReadOnly) }
        else if text_is(lowered, "common.positions.read_only") { Some(EAvailableScope::PositionsReadOnly) }
        else if text_is(lowered, "common.positions.write") { Some(EAvailableScope::PositionsWrite) }
        else if text_is(lowered, "common.preset_settings.read_only") { Some(EAvailableScope::PresetSettingReadOnly) }
        else if text_is(lowered, "common.preset_settings.write") { Some(EAvailableScope::PresetSettingWrite) }
        else if text_is(lowered, "common.transactions.read_only") { Some(EAvailableScope::TransactionsReadOnly) }
        else if text_is(lowered, "common.holders.read_only") { Some(EAvailableScope::HoldersReadOnly) }
        else if text_is(lowered, "common.favorites.read_only") { Some(EAvailableScope::FavoritesReadOnly) }
        else if text_is(lowered, "common.favorites.write") { Some(EAvailableScope::FavoritesWrite) }
        else if text_is(lowered, "common.referrals.read_only") { Some(EAvailableScope::ReferralsReadOnly) }
        else if text_is(lowered, "common.referrals.write") { Some(EAvailableScope::ReferralsWrite) }
        else if text_is(lowered, "common.token.read_only") { Some(EAvailableScope::TokenReadOnly) }
        else if text_is(lowered, "settings.full_access") { Some(EAvailableScope::SettingsFullAccess) }
        else { None }
    }

    /// Parses a scope name in any letter case; an unknown name gives
    /// "Invalid scope: " followed by the input.
    pub fn parse(input: &str) -> (r: Result<EAvailableScope, String>)
        ensures
            match scope_named(lower_of(input@)) {
                Some(s) => r == Ok::<EAvailableScope, String>(s),
                None => r matches Err(m) && m@ == "Invalid scope: "@ + input@,
            },
    {
        match EAvailableScope::from_lowercase(&lowercase(input)) {
            Some(s) => Ok(s),
            None => Err(concat2("Invalid scope: ", &String::from_str(input))),
        }
    }
}

/// The scopes named in `input`, in order, unknown names left out.
pub open spec fn known_scopes(input: Seq<Seq<char>>) -> Seq<EAvailableScope>
    decreases input.len(),
{
    if input.len() == 0 {
        Seq::empty()
    } else {
        let prev = known_scopes(input.drop_last());
        match scope_named(lower_of(input.last())) {
            Some(s) => prev.push(s),
            None => prev,
        }
    }
}

/// The known scopes among `input`, in order.
pub fn convert_scopes(input: Vec<String>) -> (r: Vec<EAvailableScope>)
    ensures
        r@ == known_scopes(input@.map_values(|s: String| s@)),
{
    let ghost names = input@.map_values(|s: String| s@);
    let mut r: Vec<EAvailableScope> = Vec::new();
    let mut i: usize = 0;
    while i < input.len()
        invariant
            names == input@.map_values(|s: String| s@),
            i <= input@.len(),
            r@ == known_scopes(names.subrange(0, i as int)),
        decreases input@.len() - i,
    {
        proof {
            assert(names.subrange(0, i + 1).drop_last() =~= names.subrange(0, i as int));
            assert(names.subrange(0, i + 1).last() == input@[i as int]@);
        }
        match EAvailableScope::parse(input[i].as_str()) {
            Ok(s) => r.push(s),
            Err(_) => {},
        }
        i = i + 1;
    }
    assert(names.subrange(0, names.len() as int) =~= names);
    r
}

} // verus!
