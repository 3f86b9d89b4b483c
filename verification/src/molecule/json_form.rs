//! The JSON form of a molecule shared with the other SDKs: its fixed keys,
//! the cell slug origin when there is one, its atoms, and, on request, the
//! source and remainder wallets that validation needs. The JSON form of each
//! atom is given with the molecule, already made.

use vstd::prelude::*;
use crate::atom::Atom;
use crate::error::KnishIOError;
use crate::json::{
    Json, JsonValue, array_field, entries_view, items_view, json_get, key_index, lemma_items_view, lemma_key_index,
    lemma_key_index_none, lemma_lookup_concat, lemma_lookup_key_index, lemma_lookup_opt_text, lemma_lookup_single,
    lookup, object, opt_text_entry, push_entry, str_field, string_field,
};
use crate::molecule::{Molecule, opt_wallet};
use crate::text::opt_view;
use crate::wallet::{Wallet, WalletView, balance_of, str_or, wallet_fields_from_json};

verus! {

/// Options of writing a molecule as JSON.
#[derive(Debug, Clone, Copy)]
pub struct MoleculeJsonOptions {
    /// Refuse a molecule that holds a secret
    pub secure_mode: bool,
    /// Whether the atoms' JSON carries their signature fragments; it applies
    /// to the atom JSON given with the molecule
    pub include_ots_fragments: bool,
    /// Add the source and remainder wallets
    pub include_validation_context: bool,
}

/// Options of reading a molecule from JSON.
#[derive(Debug, Clone, Copy)]
pub struct MoleculeFromJsonOptions {
    /// Read the source and remainder wallets
    pub include_validation_context: bool,
    /// Require a molecular hash and a non-empty array of atoms
    pub validate_structure: bool,
    /// Require a molecular hash and a non-empty array of atoms
    pub strict_mode: bool,
}

/// A text, or `null` when there is none.
pub open spec fn text_or_null(o: Option<Seq<char>>) -> Json {
    match o {
        Some(s) => Json::Str(s),
        None => Json::Null,
    }
}

/// The JSON form of a wallet in a molecule's validation context; its token
/// units, trade rates and molecules are always empty.
pub open spec fn wallet_json(w: WalletView) -> Json {
    Json::Object(
        seq![
            ("address"@, text_or_null(w.address)),
            ("position"@, text_or_null(w.position)),
            ("token"@, Json::Str(w.token)),
            ("balance"@, Json::Number(w.balance)),
            ("bundle"@, text_or_null(w.bundle)),
            ("batchId"@, text_or_null(w.batch_id)),
            ("characters"@, text_or_null(w.characters)),
            ("pubkey"@, text_or_null(w.pubkey)),
            ("tokenUnits"@, Json::Array(seq![])),
            ("tradeRates"@, Json::Object(seq![])),
            ("molecules"@, Json::Object(seq![])),
        ],
    )
}

/// One entry `key: wallet` when there is a wallet, none otherwise.
pub open spec fn wallet_entry(key: Seq<char>, w: Option<WalletView>) -> Seq<(Seq<char>, Json)> {
    match w {
        Some(w) => seq![(key, wallet_json(w))],
        None => seq![],
    }
}

/// The JSON form of a molecule with the given atom JSON: status, molecular
/// hash, creation time, cell slug, version and bundle (`null` when absent);
/// the cell slug origin only when there is one; the atoms; and, with the
/// validation context, the source and remainder wallets that there are.
pub open spec fn molecule_json(m: Molecule, options: MoleculeJsonOptions, atoms: Seq<Json>) -> Json {
    Json::Object(
        seq![
            ("status"@, text_or_null(opt_view(m.status))),
            ("molecularHash"@, text_or_null(opt_view(m.molecular_hash))),
            ("createdAt"@, Json::Str(m.created_at@)),
            ("cellSlug"@, text_or_null(opt_view(m.cell_slug))),
            ("version"@, text_or_null(opt_view(m.version))),
            ("bundle"@, text_or_null(opt_view(m.bundle))),
        ] + opt_text_entry("cellSlugOrigin"@, opt_view(m.cell_slug_origin)) + seq![("atoms"@, Json::Array(atoms))]
            + if options.include_validation_context {
            wallet_entry("sourceWallet"@, opt_wallet(m.source_wallet)) + wallet_entry(
                "remainderWallet"@,
                opt_wallet(m.remainder_wallet),
            )
        } else {
            seq![]
        },
    )
}

/// The text of an option, or `null`.
fn text_or_null_value(o: &Option<String>) -> (r: JsonValue)
    ensures
        r@ == text_or_null(opt_view(*o)),
{
    match o {
        Some(s) => JsonValue::Str(s.clone()),
        None => JsonValue::Null,
    }
}

/// The JSON form of a wallet.
fn wallet_value(w: &Wallet) -> (r: JsonValue)
    ensures
        r@ == wallet_json(w@),
{
    let mut e: Vec<(String, JsonValue)> = Vec::new();
    proof {
        assert(entries_view(e@) =~= Seq::<(Seq<char>, Json)>::empty());
    }
    push_entry(&mut e, "address", text_or_null_value(&w.address));
    push_entry(&mut e, "position", text_or_null_value(&w.position));
    push_entry(&mut e, "token", JsonValue::Str(w.token.clone()));
    push_entry(&mut e, "balance", JsonValue::Number(w.balance));
    push_entry(&mut e, "bundle", text_or_null_value(&w.bundle));
    push_entry(&mut e, "batchId", text_or_null_value(&w.batch_id));
    push_entry(&mut e, "characters", text_or_null_value(&w.characters));
    push_entry(&mut e, "pubkey", text_or_null_value(&w.pubkey));
    let units: Vec<JsonValue> = Vec::new();
    assert(items_view(units@) =~= Seq::<Json>::empty());
    push_entry(&mut e, "tokenUnits", JsonValue::Array(units));
    let rates: Vec<(String, JsonValue)> = Vec::new();
    assert(entries_view(rates@) =~= Seq::<(Seq<char>, Json)>::empty());
    push_entry(&mut e, "tradeRates", JsonValue::Object(rates));
    let molecules: Vec<(String, JsonValue)> = Vec::new();
    assert(entries_view(molecules@) =~= Seq::<(Seq<char>, Json)>::empty());
    push_entry(&mut e, "molecules", JsonValue::Object(molecules));
    assert(entries_view(e@) =~= seq![
        ("address"@, text_or_null(w@.address)),
        ("position"@, text_or_null(w@.position)),
        ("token"@, Json::Str(w@.token)),
        ("balance"@, Json::Number(w@.balance)),
        ("bundle"@, text_or_null(w@.bundle)),
        ("batchId"@, text_or_null(w@.batch_id)),
        ("characters"@, text_or_null(w@.characters)),
        ("pubkey"@, text_or_null(w@.pubkey)),
        ("tokenUnits"@, Json::Array(seq![])),
        ("tradeRates"@, Json::Object(seq![])),
        ("molecules"@, Json::Object(seq![])),
    ]);
    let r = object(e);
    assert(r@ == wallet_json(w@));
    r
}

/// Append `key: wallet` when there is a wallet.
fn push_wallet(e: &mut Vec<(String, JsonValue)>, key: &str, w: &Option<Wallet>)
    ensures
        entries_view(final(e)@) == entries_view(old(e)@) + wallet_entry(key@, opt_wallet(*w)),
{
    match w {
        Some(w) => {
            push_entry(e, key, wallet_value(w));
        },
        None => {},
    }
    assert(entries_view(e@) =~= entries_view(old(e)@) + wallet_entry(key@, opt_wallet(*w)));
}

/// The wallet that a wallet's JSON form describes: its fields as given, with
/// token `TEST`, balance 0 and character set `BASE64` where it gives none.
pub open spec fn wallet_from_json(j: Json) -> WalletView {
    WalletView {
        token: str_or(j, "token"@, "TEST"@),
        position: str_field(j, "position"@),
        address: str_field(j, "address"@),
        batch_id: str_field(j, "batchId"@),
        bundle: str_field(j, "bundle"@),
        balance: balance_of(j),
        characters: Some(str_or(j, "characters"@, "BASE64"@)),
        pubkey: str_field(j, "pubkey"@),
    }
}

/// The wallet under `key` of a molecule's JSON form, when there is one.
pub open spec fn wallet_under(j: Json, key: Seq<char>) -> Option<WalletView> {
    match json_get(j, key) {
        Some(w) => Some(wallet_from_json(w)),
        None => None,
    }
}

/// Whether a molecule's JSON form has a molecular hash and a non-empty array
/// of atoms.
pub open spec fn well_structured(j: Json) -> bool {
    &&& json_get(j, "molecularHash"@) is Some
    &&& array_field(j, "atoms"@) matches Some(a) && a.len() > 0
}

/// The wallet that a wallet's JSON form describes.
fn wallet_of_json(data: &JsonValue) -> (r: Wallet)
    ensures
        r@ == wallet_from_json(data@),
{
    let f = wallet_fields_from_json(data);
    Wallet {
        token: f.token,
        position: f.position,
        address: f.address,
        batch_id: f.batch_id,
        bundle: f.bundle,
        balance: f.balance,
        characters: Some(f.characters),
        pubkey: f.pubkey,
    }
}

/// The wallet under `key`, when there is one.
fn wallet_field(json: &JsonValue, key: &str) -> (r: Option<Wallet>)
    ensures
        opt_wallet(r) == wallet_under(json@, key@),
{
    match json.get(key) {
        Some(w) => Some(wallet_of_json(w)),
        None => None,
    }
}

impl Molecule {
    /// The JSON form of this molecule, with `atoms_json` as the JSON of its
    /// atoms, in order. In secure mode a molecule that holds a secret is
    /// refused.
    pub fn to_json(&self, options: MoleculeJsonOptions, atoms_json: Vec<JsonValue>) -> (r: Result<
        JsonValue,
        KnishIOError,
    >)
        requires
            atoms_json@.len() == self.atoms@.len(),
        ensures
            r is Err <==> options.secure_mode && self.secret is Some,
            r matches Err(e) ==> e matches KnishIOError::Custom(m) && m@
                == "Cannot serialize molecule with secret in secure mode"@,
            r matches Ok(v) ==> v@ == molecule_json(*self, options, items_view(atoms_json@)),
    {
        if options.secure_mode && self.secret.is_some() {
            return Err(KnishIOError::Custom("Cannot serialize molecule with secret in secure mode".to_owned()));
        }
        let ghost atoms = items_view(atoms_json@);
        let mut e: Vec<(String, JsonValue)> = Vec::new();
        proof {
            assert(entries_view(e@) =~= Seq::<(Seq<char>, Json)>::empty());
        }
        push_entry(&mut e, "status", text_or_null_value(&self.status));
        push_entry(&mut e, "molecularHash", text_or_null_value(&self.molecular_hash));
        push_entry(&mut e, "createdAt", JsonValue::Str(self.created_at.clone()));
        push_entry(&mut e, "cellSlug", text_or_null_value(&self.cell_slug));
        push_entry(&mut e, "version", text_or_null_value(&self.version));
        push_entry(&mut e, "bundle", text_or_null_value(&self.bundle));
        let ghost fixed = entries_view(e@);
        assert(fixed =~= seq![
            ("status"@, text_or_null(opt_view(self.status))),
            ("molecularHash"@, text_or_null(opt_view(self.molecular_hash))),
            ("createdAt"@, Json::Str(self.created_at@)),
            ("cellSlug"@, text_or_null(opt_view(self.cell_slug))),
            ("version"@, text_or_null(opt_view(self.version))),
            ("bundle"@, text_or_null(opt_view(self.bundle))),
        ]);
        match &self.cell_slug_origin {
            Some(o) => {
                push_entry(&mut e, "cellSlugOrigin", JsonValue::Str(o.clone()));
            },
            None => {},
        }
        assert(entries_view(e@) =~= fixed + opt_text_entry("cellSlugOrigin"@, opt_view(self.cell_slug_origin)));
        push_entry(&mut e, "atoms", JsonValue::Array(atoms_json));
        let ghost base = entries_view(e@);
        assert(base =~= fixed + opt_text_entry("cellSlugOrigin"@, opt_view(self.cell_slug_origin)) + seq![
            ("atoms"@, Json::Array(atoms)),
        ]);
        if options.include_validation_context {
            push_wallet(&mut e, "sourceWallet", &self.source_wallet);
            push_wallet(&mut e, "remainderWallet", &self.remainder_wallet);
            assert(entries_view(e@) =~= base + (wallet_entry("sourceWallet"@, opt_wallet(self.source_wallet))
                + wallet_entry("remainderWallet"@, opt_wallet(self.remainder_wallet))));
        } else {
            assert(entries_view(e@) =~= base + Seq::<(Seq<char>, Json)>::empty());
        }
        let r = object(e);
        assert(r@ =~= molecule_json(*self, options, atoms));
        Ok(r)
    }

    /// A molecule read from its JSON form, with `atoms` as the atoms read from
    /// the JSON's `atoms` array (ignored when there is no such array). With
    /// strict or structure validation, a form without a molecular hash or
    /// without a non-empty array of atoms is refused. No secret is read;
    /// status, molecular hash, creation time, bundle, cell slug and version are
    /// taken when they are texts, the cell slug origin defaults to the cell
    /// slug, and with the validation context the source and remainder wallets
    /// are read from their JSON.
    pub fn from_json(json: &JsonValue, options: MoleculeFromJsonOptions, atoms: Vec<Atom>) -> (r: Result<
        Molecule,
        KnishIOError,
    >)
        requires
            array_field(json@, "atoms"@) matches Some(a) ==> atoms@.len() == a.len(),
        ensures
            r is Err <==> (options.strict_mode || options.validate_structure) && !well_structured(json@),
            r matches Err(e) ==> e matches KnishIOError::Custom(m) && m@
                == "Invalid molecule data: missing molecularHash or atoms array"@,
            r matches Ok(m) ==> {
                &&& m.secret is None
                &&& opt_view(m.bundle) == str_field(json@, "bundle"@)
                &&& opt_view(m.cell_slug) == str_field(json@, "cellSlug"@)
                &&& opt_view(m.version) == str_field(json@, "version"@)
                &&& opt_view(m.status) == str_field(json@, "status"@)
                &&& opt_view(m.molecular_hash) == str_field(json@, "molecularHash"@)
                &&& (str_field(json@, "createdAt"@) matches Some(c) ==> m.created_at@ == c)
                &&& opt_view(m.cell_slug_origin) == match str_field(json@, "cellSlugOrigin"@) {
                    Some(o) => Some(o),
                    None => str_field(json@, "cellSlug"@),
                }
                &&& m.atoms@ == if array_field(json@, "atoms"@) is Some { atoms@ } else { Seq::empty() }
                &&& opt_wallet(m.source_wallet) == if options.include_validation_context {
                    wallet_under(json@, "sourceWallet"@)
                } else {
                    None
                }
                &&& opt_wallet(m.remainder_wallet) == if options.include_validation_context {
                    wallet_under(json@, "remainderWallet"@)
                } else {
                    None
                }
                &&& m.parent_hashes@.len() == 0
            },
    {
        if options.strict_mode || options.validate_structure {
            let has_hash = json.get("molecularHash").is_some();
            let has_atoms = match json.get("atoms") {
                Some(a) => match a.as_array() {
                    Some(v) => {
                        proof {
                            lemma_items_view(v@);
                        }
                        v.len() > 0
                    },
                    None => false,
                },
                None => false,
            };
            if !has_hash || !has_atoms {
                return Err(KnishIOError::Custom("Invalid molecule data: missing molecularHash or atoms array".to_owned()));
            }
        }
        let mut molecule = Molecule::with_params(
            None,
            string_field(json, "bundle"),
            None,
            None,
            string_field(json, "cellSlug"),
            string_field(json, "version"),
        );
        molecule.status = string_field(json, "status");
        molecule.molecular_hash = string_field(json, "molecularHash");
        match string_field(json, "createdAt") {
            Some(c) => {
                molecule.created_at = c;
            },
            None => {},
        }
        match string_field(json, "cellSlugOrigin") {
            Some(o) => {
                molecule.cell_slug_origin = Some(o);
            },
            None => {},
        }
        let has_array = match json.get("atoms") {
            Some(a) => a.as_array().is_some(),
            None => false,
        };
        if has_array {
            molecule.atoms = atoms;
        }
        if options.include_validation_context {
            molecule.source_wallet = wallet_field(json, "sourceWallet");
            molecule.remainder_wallet = wallet_field(json, "remainderWallet");
        }
        Ok(molecule)
    }
}

/// The value under `key` is that of the first entry holding it.
proof fn lemma_lookup_at(e: Seq<(Seq<char>, Json)>, key: Seq<char>, i: int)
    requires
        0 <= i < e.len(),
        e[i].0 == key,
        forall|j: int| 0 <= j < i ==> #[trigger] e[j].0 != key,
    ensures
        lookup(e, key) == Some(e[i].1),
{
    lemma_key_index(e, key, i);
    lemma_lookup_key_index(e, key);
}

/// Without an entry holding `key`, there is no value under it.
proof fn lemma_lookup_absent(e: Seq<(Seq<char>, Json)>, key: Seq<char>)
    requires
        forall|j: int| 0 <= j < e.len() ==> #[trigger] e[j].0 != key,
    ensures
        lookup(e, key) is None,
{
    lemma_key_index_none(e, key);
    lemma_lookup_key_index(e, key);
}

/// The value under a key in four joined parts: that of the first part that
/// holds it.
proof fn lemma_lookup_four(
    a: Seq<(Seq<char>, Json)>,
    b: Seq<(Seq<char>, Json)>,
    c: Seq<(Seq<char>, Json)>,
    d: Seq<(Seq<char>, Json)>,
    key: Seq<char>,
)
    ensures
        lookup(a + b + c + d, key) == match lookup(a, key) {
            Some(v) => Some(v),
            None => match lookup(b, key) {
                Some(v) => Some(v),
                None => match lookup(c, key) {
                    Some(v) => Some(v),
                    None => lookup(d, key),
                },
            },
        },
{
    lemma_lookup_concat(a + b + c, d, key);
    lemma_lookup_concat(a + b, c, key);
    lemma_lookup_concat(a, b, key);
}

/// A molecule's JSON form reads back to the molecule: its status, molecular
/// hash, cell slug, version and bundle are the texts under their keys (none
/// when absent), its creation time is the text under `createdAt`, its cell
/// slug origin the text under `cellSlugOrigin`, and its atoms the array under
/// `atoms`. So reading the form back with `from_json` gives these fields again.
pub proof fn law_molecule_json_reads_back(m: Molecule, options: MoleculeJsonOptions, atoms: Seq<Json>)
    ensures
        ({
            let j = molecule_json(m, options, atoms);
            &&& str_field(j, "status"@) == opt_view(m.status)
            &&& str_field(j, "molecularHash"@) == opt_view(m.molecular_hash)
            &&& str_field(j, "createdAt"@) == Some(m.created_at@)
            &&& str_field(j, "cellSlug"@) == opt_view(m.cell_slug)
            &&& str_field(j, "version"@) == opt_view(m.version)
            &&& str_field(j, "bundle"@) == opt_view(m.bundle)
            &&& str_field(j, "cellSlugOrigin"@) == opt_view(m.cell_slug_origin)
            &&& array_field(j, "atoms"@) == Some(atoms)
        }),
{
    reveal_strlit("status");
    reveal_strlit("molecularHash");
    reveal_strlit("createdAt");
    reveal_strlit("cellSlug");
    reveal_strlit("version");
    reveal_strlit("bundle");
    reveal_strlit("cellSlugOrigin");
    reveal_strlit("atoms");
    reveal_strlit("sourceWallet");
    reveal_strlit("remainderWallet");
    assert("status"@[0] != "bundle"@[0]);
    assert("status"@.len() == 6 && "molecularHash"@.len() == 13 && "createdAt"@.len() == 9);
    assert("cellSlug"@.len() == 8 && "version"@.len() == 7 && "bundle"@.len() == 6);
    assert("cellSlugOrigin"@.len() == 14 && "atoms"@.len() == 5);
    let f = seq![
        ("status"@, text_or_null(opt_view(m.status))),
        ("molecularHash"@, text_or_null(opt_view(m.molecular_hash))),
        ("createdAt"@, Json::Str(m.created_at@)),
        ("cellSlug"@, text_or_null(opt_view(m.cell_slug))),
        ("version"@, text_or_null(opt_view(m.version))),
        ("bundle"@, text_or_null(opt_view(m.bundle))),
    ];
    let o = opt_text_entry("cellSlugOrigin"@, opt_view(m.cell_slug_origin));
    let a = seq![("atoms"@, Json::Array(atoms))];
    let c = if options.include_validation_context {
        wallet_entry("sourceWallet"@, opt_wallet(m.source_wallet)) + wallet_entry(
            "remainderWallet"@,
            opt_wallet(m.remainder_wallet),
        )
    } else {
        seq![]
    };
    assert(molecule_json(m, options, atoms) == Json::Object(f + o + a + c));
    lemma_lookup_four(f, o, a, c, "status"@);
    lemma_lookup_at(f, "status"@, 0);
    lemma_lookup_four(f, o, a, c, "molecularHash"@);
    lemma_lookup_at(f, "molecularHash"@, 1);
    lemma_lookup_four(f, o, a, c, "createdAt"@);
    lemma_lookup_at(f, "createdAt"@, 2);
    lemma_lookup_four(f, o, a, c, "cellSlug"@);
    lemma_lookup_at(f, "cellSlug"@, 3);
    lemma_lookup_four(f, o, a, c, "version"@);
    lemma_lookup_at(f, "version"@, 4);
    lemma_lookup_four(f, o, a, c, "bundle"@);
    lemma_lookup_at(f, "bundle"@, 5);
    lemma_lookup_four(f, o, a, c, "cellSlugOrigin"@);
    lemma_lookup_absent(f, "cellSlugOrigin"@);
    lemma_lookup_opt_text("cellSlugOrigin"@, opt_view(m.cell_slug_origin), "cellSlugOrigin"@);
    lemma_lookup_single("atoms"@, Json::Array(atoms), "cellSlugOrigin"@);
    assert("sourceWallet"@.len() == 12 && "remainderWallet"@.len() == 15);
    if options.include_validation_context {
        let s1 = wallet_entry("sourceWallet"@, opt_wallet(m.source_wallet));
        let s2 = wallet_entry("remainderWallet"@, opt_wallet(m.remainder_wallet));
        lemma_lookup_concat(s1, s2, "cellSlugOrigin"@);
        lemma_lookup_absent(s1, "cellSlugOrigin"@);
        lemma_lookup_absent(s2, "cellSlugOrigin"@);
    } else {
        lemma_lookup_absent(c, "cellSlugOrigin"@);
    }
    lemma_lookup_four(f, o, a, c, "atoms"@);
    lemma_lookup_absent(f, "atoms"@);
    lemma_lookup_opt_text("cellSlugOrigin"@, opt_view(m.cell_slug_origin), "atoms"@);
    lemma_lookup_single("atoms"@, Json::Array(atoms), "atoms"@);
}

} // verus!
