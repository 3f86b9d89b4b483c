//! Wallets as molecules use them: where tokens sit and how much.

use vstd::prelude::*;
use crate::text::opt_view;
use crate::json::{Json, JsonValue, json_get, str_field, string_field};

verus! {

/// A wallet: a position in a bundle holding an amount of one token.
#[derive(Debug)]
pub struct Wallet {
    /// Token slug
    pub token: String,
    /// Position (one-time key index), if known
    pub position: Option<String>,
    /// Address, if known
    pub address: Option<String>,
    /// Batch ID of stackable tokens, if any
    pub batch_id: Option<String>,
    /// Bundle hash of the owner, if known
    pub bundle: Option<String>,
    /// Amount of the token held, in whole units
    pub balance: i64,
    /// Character set of the key, if known
    pub characters: Option<String>,
    /// Public key, if known
    pub pubkey: Option<String>,
}

/// What of a wallet an atom records: position, address, token and batch ID.
#[derive(Debug)]
pub struct WalletInfo {
    /// Position (empty when unknown)
    pub position: String,
    /// Address (empty when unknown)
    pub address: String,
    /// Token slug
    pub token: String,
    /// Batch ID, if any
    pub batch_id: Option<String>,
}

/// The mathematical form of a wallet.
pub struct WalletView {
    pub token: Seq<char>,
    pub position: Option<Seq<char>>,
    pub address: Option<Seq<char>>,
    pub batch_id: Option<Seq<char>>,
    pub bundle: Option<Seq<char>>,
    pub balance: int,
    pub characters: Option<Seq<char>>,
    pub pubkey: Option<Seq<char>>,
}

/// The mathematical form of what an atom records of a wallet.
pub struct WalletInfoView {
    pub position: Seq<char>,
    pub address: Seq<char>,
    pub token: Seq<char>,
    pub batch_id: Option<Seq<char>>,
}

impl View for Wallet {
    type V = WalletView;

    open spec fn view(&self) -> WalletView {
        WalletView {
            token: self.token@,
            position: opt_view(self.position),
            address: opt_view(self.address),
            batch_id: opt_view(self.batch_id),
            bundle: opt_view(self.bundle),
            balance: self.balance as int,
            characters: opt_view(self.characters),
            pubkey: opt_view(self.pubkey),
        }
    }
}

impl View for WalletInfo {
    type V = WalletInfoView;

    open spec fn view(&self) -> WalletInfoView {
        WalletInfoView {
            position: self.position@,
            address: self.address@,
            token: self.token@,
            batch_id: opt_view(self.batch_id),
        }
    }
}

/// A string option's characters, or none for an absent one.
pub open spec fn or_empty(o: Option<Seq<char>>) -> Seq<char> {
    match o {
        Some(s) => s,
        None => Seq::empty(),
    }
}

/// What an atom records of a wallet: a missing position or address counts as
/// empty.
pub open spec fn info_of(w: WalletView) -> WalletInfoView {
    WalletInfoView {
        position: or_empty(w.position),
        address: or_empty(w.address),
        token: w.token,
        batch_id: w.batch_id,
    }
}

fn string_or_empty(o: &Option<String>) -> (s: String)
    ensures
        s@ == or_empty(opt_view(*o)),
{
    match o {
        Some(s) => s.clone(),
        None => String::new(),
    }
}

fn clone_opt(o: &Option<String>) -> (r: Option<String>)
    ensures
        opt_view(r) == opt_view(*o),
{
    match o {
        Some(s) => Some(s.clone()),
        None => None,
    }
}

impl Wallet {
    /// A wallet of the given token with nothing else known and nothing held.
    pub fn new(token: &str) -> (w: Self)
        ensures
            w@ == (WalletView {
                token: token@,
                position: None,
                address: None,
                batch_id: None,
                bundle: None,
                balance: 0,
                characters: None,
                pubkey: None,
            }),
    {
        Wallet {
            token: token.to_owned(),
            position: None,
            address: None,
            batch_id: None,
            bundle: None,
            balance: 0,
            characters: None,
            pubkey: None,
        }
    }

    /// What an atom records of this wallet.
    pub fn info(&self) -> (i: WalletInfo)
        ensures
            i@ == info_of(self@),
    {
        WalletInfo {
            position: string_or_empty(&self.position),
            address: string_or_empty(&self.address),
            token: self.token.clone(),
            batch_id: clone_opt(&self.batch_id),
        }
    }
}

impl Clone for Wallet {
    fn clone(&self) -> (w: Self)
        ensures
            w@ == self@,
    {
        Wallet {
            token: self.token.clone(),
            position: clone_opt(&self.position),
            address: clone_opt(&self.address),
            batch_id: clone_opt(&self.batch_id),
            bundle: clone_opt(&self.bundle),
            balance: self.balance,
            characters: clone_opt(&self.characters),
            pubkey: clone_opt(&self.pubkey),
        }
    }
}

/// A copy of an optional string.
pub fn copy_opt(o: &Option<String>) -> (r: Option<String>)
    ensures
        opt_view(r) == opt_view(*o),
{
    clone_opt(o)
}

/// What a wallet's JSON form says of it, with the defaults for what it
/// leaves out: token `TEST`, balance 0 and character set `BASE64`.
#[derive(Debug)]
pub struct WalletJsonFields {
    /// Token slug
    pub token: String,
    /// Position, if given
    pub position: Option<String>,
    /// Address, if given
    pub address: Option<String>,
    /// Balance in whole units
    pub balance: i64,
    /// Bundle hash, if given
    pub bundle: Option<String>,
    /// Batch ID, if given
    pub batch_id: Option<String>,
    /// Character set of the key
    pub characters: String,
    /// Public key, if given
    pub pubkey: Option<String>,
}

/// A text field, or a default when the field is not a text.
pub open spec fn str_or(j: Json, key: Seq<char>, default: Seq<char>) -> Seq<char> {
    match str_field(j, key) {
        Some(s) => s,
        None => default,
    }
}

/// The balance a wallet's JSON form gives: its number, else 0.
pub open spec fn balance_of(j: Json) -> int {
    match json_get(j, "balance"@) {
        Some(Json::Number(n)) => n as int,
        _ => 0,
    }
}

/// Read the fields of a wallet from its JSON form (`token`, `position`,
/// `address`, `balance`, `bundle`, `batchId`, `characters`, `pubkey`); a field
/// that is missing or of another kind takes its default or stays absent.
pub fn wallet_fields_from_json(data: &JsonValue) -> (r: WalletJsonFields)
    ensures
        r.token@ == str_or(data@, "token"@, "TEST"@),
        opt_view(r.position) == str_field(data@, "position"@),
        opt_view(r.address) == str_field(data@, "address"@),
        r.balance == balance_of(data@),
        opt_view(r.bundle) == str_field(data@, "bundle"@),
        opt_view(r.batch_id) == str_field(data@, "batchId"@),
        r.characters@ == str_or(data@, "characters"@, "BASE64"@),
        opt_view(r.pubkey) == str_field(data@, "pubkey"@),
{
    let token = match string_field(data, "token") {
        Some(t) => t,
        None => "TEST".to_owned(),
    };
    let characters = match string_field(data, "characters") {
        Some(c) => c,
        None => "BASE64".to_owned(),
    };
    let balance: i64 = match data.get("balance") {
        Some(v) => match v {
            JsonValue::Number(n) => *n,
            _ => 0,
        },
        None => 0,
    };
    WalletJsonFields {
        token,
        position: string_field(data, "position"),
        address: string_field(data, "address"),
        balance,
        bundle: string_field(data, "bundle"),
        batch_id: string_field(data, "batchId"),
        characters,
        pubkey: string_field(data, "pubkey"),
    }
}

} // verus!
