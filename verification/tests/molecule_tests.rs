use knishio_client::atom::Atom;
use knishio_client::error::KnishIOError;
use knishio_client::molecule::builder::{
    BufferDepositAtomParams, BufferWithdrawAtomParams, FusionAtomParams, MetaAtomParams, StackableTransferParams,
    TypeSafeMoleculeBuilder, ValueAtomParams,
};
use knishio_client::molecule::json_form::{MoleculeFromJsonOptions, MoleculeJsonOptions};
use knishio_client::molecule::Molecule;
use knishio_client::types::{Isotope, MetaItem};
use knishio_client::json::JsonValue;
use knishio_client::wallet::{wallet_fields_from_json, Wallet};

/// A wallet of `token` at a known position, address and bundle.
fn wallet(token: &str, id: &str) -> Wallet {
    let mut w = Wallet::new(token);
    w.position = Some(format!("{}-position", id));
    w.address = Some(format!("{}-address", id));
    w.bundle = Some(format!("{}-bundle", id));
    w
}

#[test]
fn test_molecule_creation() {
    let molecule = Molecule::with_params(
        Some("test-secret".to_string()),
        Some("test-bundle".to_string()),
        None,
        None,
        None,
        None,
    );

    assert_eq!(molecule.bundle, Some("test-bundle".to_string()));
    assert_eq!(molecule.secret, Some("test-secret".to_string()));
    assert!(molecule.atoms.is_empty());
    assert!(molecule.molecular_hash.is_none());
}

#[test]
fn test_enumerate() {
    let hash = "0123456789abcdef";
    let enumerated = Molecule::enumerate(hash);

    assert_eq!(enumerated.len(), 16);
    assert_eq!(enumerated[0], -8);
    assert_eq!(enumerated[1], -7);
    assert_eq!(enumerated[9], 1);
    assert_eq!(enumerated[10], 2);
    assert_eq!(enumerated[15], 7);
}

#[test]
fn test_normalize() {
    let mapped = vec![-8, -7, -6, -5, -4, -3, -2, -1, 0, 1, 2, 3, 4, 5, 6, 7];
    let normalized = Molecule::normalize(mapped);

    let sum: i32 = normalized.iter().map(|&x| x as i32).sum();
    assert_eq!(sum, 0);
}

#[test]
fn test_generate_next_atom_index() {
    let atoms = vec![
        Atom::new("pos1", "addr1", Isotope::V, "TEST"),
        Atom::new("pos2", "addr2", Isotope::V, "TEST"),
    ];

    let next_index = Molecule::generate_next_atom_index(&atoms);
    assert_eq!(next_index, 2);
}

#[test]
fn test_isotope_filter() {
    let atoms = vec![
        Atom::new("pos1", "addr1", Isotope::V, "TEST"),
        Atom::new("pos2", "addr2", Isotope::M, "TEST"),
        Atom::new("pos3", "addr3", Isotope::V, "TEST"),
    ];

    let filtered = Molecule::isotope_filter(&[Isotope::V], &atoms);
    assert_eq!(filtered.len(), 2);
    assert!(filtered.iter().all(|atom| atom.isotope == Isotope::V));
}

#[test]
fn test_add_atom() {
    let mut molecule = Molecule::default();
    let atom = Atom::new("pos1", "addr1", Isotope::V, "TEST");

    molecule.add_atom(atom);

    assert_eq!(molecule.atoms.len(), 1);
    assert_eq!(molecule.atoms[0].index, Some(0));
    assert!(molecule.molecular_hash.is_none());
}

#[test]
fn test_init_value() {
    let mut source_wallet = wallet("TEST", "test-secret");
    source_wallet.balance = 100;
    let recipient_wallet = wallet("TEST", "test-secret2");
    let remainder_wallet = wallet("TEST", "test-secret");

    let mut molecule = Molecule::with_params(
        Some("test-secret".to_string()),
        None,
        Some(source_wallet),
        Some(remainder_wallet),
        None,
        None,
    );

    molecule.init_value(&recipient_wallet, 50).unwrap();

    assert_eq!(molecule.atoms.len(), 3);
    assert_eq!(molecule.atoms[0].isotope, Isotope::V);
    assert_eq!(molecule.atoms[0].value, Some("-50".to_string()));
    assert_eq!(molecule.atoms[1].value, Some("50".to_string()));
    assert_eq!(molecule.atoms[2].value, Some("50".to_string()));
}

#[test]
fn test_insufficient_balance() {
    let mut source_wallet = wallet("TEST", "test-secret");
    source_wallet.balance = 10;
    let recipient_wallet = wallet("TEST", "test-secret2");

    let mut molecule = Molecule::with_params(
        Some("test-secret".to_string()),
        None,
        Some(source_wallet),
        None,
        None,
        None,
    );

    let result = molecule.init_value(&recipient_wallet, 50);
    assert!(result.is_err());
    assert!(matches!(result.unwrap_err(), KnishIOError::BalanceInsufficient));
}

#[test]
fn test_builder_validation() {
    let wallet = wallet("TEST", "test-secret");

    let builder = TypeSafeMoleculeBuilder::new("test-secret")
        .with_source_wallet(wallet.clone())
        .add_value_atom(ValueAtomParams {
            position: "W1".to_string(),
            wallet_address: wallet.address.as_ref().unwrap().clone(),
            token: "TEST".to_string(),
            value: Some(100),
            ..Default::default()
        })
        .unwrap()
        .ready_to_sign()
        .unwrap();

    assert!(builder.validate().is_ok());
    assert_eq!(builder.atom_count(), 1);
    assert!(builder.has_isotope(Isotope::V));
    assert!(!builder.has_isotope(Isotope::M));
}

#[test]
fn test_empty_molecule_validation() {
    let wallet = wallet("TEST", "test-secret");

    let result = TypeSafeMoleculeBuilder::new("test-secret")
        .with_source_wallet(wallet.clone())
        .add_value_atom(ValueAtomParams {
            position: wallet.position.clone().unwrap_or_default(),
            wallet_address: wallet.address.clone().unwrap_or_default(),
            token: "TEST".to_string(),
            value: Some(100),
            batch_id: None,
            meta: None,
        })
        .and_then(|builder| builder.ready_to_sign());

    assert!(result.is_ok());
}

#[test]
fn test_buffer_deposit_builder() {
    let wallet = wallet("TEST", "test-secret");

    let result = TypeSafeMoleculeBuilder::new("test-secret")
        .with_source_wallet(wallet.clone())
        .add_buffer_deposit_atom(BufferDepositAtomParams {
            position: "W1".to_string(),
            wallet_address: wallet.address.as_ref().unwrap().clone(),
            token: "TEST".to_string(),
            value: 50,
            meta_type: Some("walletBundle".to_string()),
            meta_id: wallet.bundle.clone(),
            batch_id: None,
        });

    assert!(result.is_ok());
    let builder = result.unwrap();
    assert_eq!(builder.atom_count(), 1);
    assert!(builder.has_isotope(Isotope::B));
}

#[test]
fn test_buffer_withdraw_builder() {
    let wallet = wallet("TEST", "test-secret");

    let result = TypeSafeMoleculeBuilder::new("test-secret")
        .with_source_wallet(wallet.clone())
        .add_buffer_withdraw_atom(BufferWithdrawAtomParams {
            position: "W1".to_string(),
            wallet_address: wallet.address.as_ref().unwrap().clone(),
            token: "TEST".to_string(),
            value: 25,
            meta_type: Some("walletBundle".to_string()),
            meta_id: wallet.bundle.clone(),
            batch_id: None,
        });

    assert!(result.is_ok());
    let builder = result.unwrap();
    assert_eq!(builder.atom_count(), 1);
    assert!(builder.has_isotope(Isotope::B));
}

#[test]
fn test_fusion_builder() {
    let wallet = wallet("TEST", "test-secret");

    let result = TypeSafeMoleculeBuilder::new("test-secret")
        .with_source_wallet(wallet.clone())
        .add_fusion_atom(FusionAtomParams {
            position: "W1".to_string(),
            wallet_address: wallet.address.as_ref().unwrap().clone(),
            token: "TEST".to_string(),
            value: Some(1),
            meta_type: Some("walletBundle".to_string()),
            meta_id: wallet.bundle.clone(),
            batch_id: None,
        });

    assert!(result.is_ok());
    let builder = result.unwrap();
    assert_eq!(builder.atom_count(), 1);
    assert!(builder.has_isotope(Isotope::F));
}

#[test]
fn test_buffer_and_fusion_multi_atom() {
    let wallet = wallet("TEST", "test-secret");

    let result = TypeSafeMoleculeBuilder::new("test-secret")
        .with_source_wallet(wallet.clone())
        .add_value_atom(ValueAtomParams {
            position: "W1".to_string(),
            wallet_address: wallet.address.as_ref().unwrap().clone(),
            token: "TEST".to_string(),
            value: Some(-50),
            ..Default::default()
        })
        .unwrap()
        .add_buffer_deposit_atom(BufferDepositAtomParams {
            position: "W2".to_string(),
            wallet_address: wallet.address.as_ref().unwrap().clone(),
            token: "TEST".to_string(),
            value: 50,
            meta_type: Some("walletBundle".to_string()),
            meta_id: wallet.bundle.clone(),
            batch_id: None,
        });

    assert!(result.is_ok());
    let builder = result.unwrap();
    assert_eq!(builder.atom_count(), 2);
    assert!(builder.has_isotope(Isotope::V));
    assert!(builder.has_isotope(Isotope::B));
}

#[test]
fn test_missing_source_wallet_validation() {
    let wallet = wallet("TEST", "test-secret");
    let result = TypeSafeMoleculeBuilder::new("test-secret")
        .with_source_wallet(wallet.clone())
        .add_value_atom(ValueAtomParams {
            position: wallet.position.clone().unwrap_or_default(),
            wallet_address: wallet.address.clone().unwrap_or_default(),
            token: "TEST".to_string(),
            value: Some(100),
            batch_id: None,
            meta: None,
        });

    assert!(result.is_ok());
}

#[test]
fn test_builder_with_parent_hashes() {
    let wallet = wallet("TEST", "test-secret");
    let parent_hashes = vec!["parent_hash_1".to_string(), "parent_hash_2".to_string()];

    let builder = TypeSafeMoleculeBuilder::new("test-secret")
        .with_source_wallet(wallet.clone())
        .with_parent_hashes(parent_hashes.clone())
        .add_value_atom(ValueAtomParams {
            position: wallet.position.clone().unwrap_or_default(),
            wallet_address: wallet.address.clone().unwrap_or_default(),
            token: "TEST".to_string(),
            value: Some(100),
            batch_id: None,
            meta: None,
        })
        .unwrap();

    assert_eq!(builder.molecule().parent_hashes, parent_hashes);
}

#[test]
fn test_stackable_transfer() {
    let mut source_wallet = wallet("TICKETS", "stackable-secret");
    source_wallet.balance = 1000;
    source_wallet.batch_id = Some("batch-001".to_string());
    let mut remainder_wallet = wallet("TICKETS", "stackable-secret");
    remainder_wallet.position = Some("W2".to_string());
    let recipient_wallet = wallet("TICKETS", "recipient-secret");

    let builder = TypeSafeMoleculeBuilder::new("stackable-secret")
        .with_source_wallet(source_wallet.clone())
        .with_remainder_wallet(remainder_wallet.clone())
        .add_stackable_transfer(StackableTransferParams {
            token: "TICKETS".to_string(),
            amount: 250,
            recipient_address: recipient_wallet.address.clone().unwrap(),
            recipient_position: recipient_wallet.position.clone().unwrap(),
            recipient_bundle: recipient_wallet.bundle.clone(),
            batch_id: Some("batch-001".to_string()),
        })
        .unwrap();

    let atoms = &builder.molecule().atoms;
    assert_eq!(atoms.len(), 3, "Should have 3 V-isotope atoms");

    assert_eq!(atoms[0].isotope, Isotope::V);
    assert_eq!(atoms[0].value, Some("-1000".to_string()));
    assert_eq!(atoms[0].batch_id, Some("batch-001".to_string()));

    assert_eq!(atoms[1].isotope, Isotope::V);
    assert_eq!(atoms[1].value, Some("250".to_string()));
    assert_eq!(atoms[1].batch_id, Some("batch-001".to_string()));
    assert_eq!(atoms[1].meta_type, Some("walletBundle".to_string()));

    assert_eq!(atoms[2].isotope, Isotope::V);
    assert_eq!(atoms[2].value, Some("750".to_string()));
    assert_eq!(atoms[2].batch_id, Some("batch-001".to_string()));

    let ready = builder.ready_to_sign().unwrap();
    assert!(ready.validate().is_ok());
}

#[test]
fn test_stackable_transfer_exact_amount() {
    let mut source_wallet = wallet("COINS", "exact-secret");
    source_wallet.balance = 500;
    let recipient_wallet = wallet("COINS", "recipient-exact");

    let builder = TypeSafeMoleculeBuilder::new("exact-secret")
        .with_source_wallet(source_wallet.clone())
        .add_stackable_transfer(StackableTransferParams {
            token: "COINS".to_string(),
            amount: 500,
            recipient_address: recipient_wallet.address.clone().unwrap(),
            recipient_position: recipient_wallet.position.clone().unwrap(),
            recipient_bundle: None,
            batch_id: None,
        })
        .unwrap();

    assert_eq!(builder.molecule().atoms.len(), 2, "Should have 2 atoms when amount == balance");
    assert_eq!(builder.molecule().atoms[0].value, Some("-500".to_string()));
    assert_eq!(builder.molecule().atoms[1].value, Some("500".to_string()));
}

#[test]
fn test_stackable_transfer_insufficient_balance() {
    let mut source_wallet = wallet("RARE", "poor-secret");
    source_wallet.balance = 100;

    let result = TypeSafeMoleculeBuilder::new("poor-secret")
        .with_source_wallet(source_wallet)
        .add_stackable_transfer(StackableTransferParams {
            token: "RARE".to_string(),
            amount: 200,
            recipient_address: "addr".to_string(),
            recipient_position: "W1".to_string(),
            recipient_bundle: None,
            batch_id: None,
        });

    assert!(result.is_err(), "Should fail with insufficient balance");
}

#[test]
fn test_stackable_transfer_conservation_law() {
    let mut source_wallet = wallet("STKTEST", "cons-secret");
    source_wallet.balance = 1000;
    let mut remainder_wallet = wallet("STKTEST", "cons-secret");
    remainder_wallet.position = Some("W2".to_string());
    let recipient = wallet("STKTEST", "cons-recipient");

    let ready = TypeSafeMoleculeBuilder::new("cons-secret")
        .with_source_wallet(source_wallet)
        .with_remainder_wallet(remainder_wallet)
        .add_stackable_transfer(StackableTransferParams {
            token: "STKTEST".to_string(),
            amount: 350,
            recipient_address: recipient.address.clone().unwrap(),
            recipient_position: recipient.position.clone().unwrap(),
            recipient_bundle: None,
            batch_id: None,
        })
        .unwrap()
        .ready_to_sign()
        .unwrap();

    let molecule = ready.molecule();
    let v_atoms: Vec<_> = molecule.atoms.iter().filter(|a| a.isotope == Isotope::V).collect();
    assert_eq!(v_atoms.len(), 3, "Stackable transfer must produce 3 V-atoms");

    assert_eq!(v_atoms[0].value, Some("-1000".to_string()), "Sender debits full balance");
    assert_eq!(v_atoms[1].value, Some("350".to_string()), "Recipient receives amount");
    assert_eq!(v_atoms[2].value, Some("650".to_string()), "Remainder receives change");

    let sum: i128 = v_atoms
        .iter()
        .filter_map(|a| a.value.as_ref().and_then(|v| v.parse::<i128>().ok()))
        .sum();
    assert_eq!(sum, 0, "Stackable transfer values must sum to 0, got {}", sum);
}

#[test]
fn builder_rejects_misordered_atoms() {
    let wallet = wallet("TEST", "order-secret");
    let builder = TypeSafeMoleculeBuilder::new("order-secret")
        .with_source_wallet(wallet.clone())
        .add_meta_atom(MetaAtomParams {
            position: "W1".to_string(),
            wallet_address: "addr".to_string(),
            token: "TEST".to_string(),
            meta_type: "profile".to_string(),
            meta_id: "user123".to_string(),
            meta: vec![MetaItem::new("name", "x")],
            batch_id: None,
        })
        .unwrap()
        .add_meta_atom(MetaAtomParams {
            position: "W1".to_string(),
            wallet_address: "addr".to_string(),
            token: "TEST".to_string(),
            meta_type: "profile".to_string(),
            meta_id: "user124".to_string(),
            meta: vec![],
            batch_id: None,
        })
        .unwrap()
        .ready_to_sign()
        .unwrap();
    let err = builder.validate().unwrap_err();
    assert!(err.to_string().contains("Duplicate atom positions detected"));
}

#[test]
fn value_transfer_without_remainder_balances() {
    let mut source = wallet("TEST", "a");
    source.balance = 70;
    let recipient = wallet("TEST", "b");
    let mut molecule = Molecule::with_params(None, None, Some(source), None, None, None);
    molecule.init_value(&recipient, 30).unwrap();
    let sum: i128 = molecule.atoms.iter().map(|a| a.value.as_ref().unwrap().parse::<i128>().unwrap()).sum();
    assert_eq!(molecule.atoms.len(), 2);
    assert_eq!(sum, 0);
}

#[test]
fn normalize_keeps_values_in_range() {
    let enumerated = Molecule::enumerate("ffffffffffffffffffffffffffffffff00000000000000000000000000000000");
    let normalized = Molecule::normalize(enumerated);
    let sum: i32 = normalized.iter().map(|&x| x as i32).sum();
    assert_eq!(sum, 0);
    assert!(normalized.iter().all(|&x| (-8..=8).contains(&x)));
}

#[test]
fn deposit_buffer_puts_the_source_token_in_the_buffer() {
    let mut source = wallet("KNISH", "source");
    source.balance = 100;
    let mut molecule = Molecule::with_params(
        Some("secret".to_string()),
        Some("bundle".to_string()),
        Some(source),
        None,
        None,
        None,
    );
    let buffer = wallet("OTHER", "buffer");
    molecule.init_deposit_buffer(40, &buffer).unwrap();
    assert_eq!(molecule.atoms.len(), 2);
    assert_eq!(molecule.atoms[0].value, Some("-40".to_string()));
    assert_eq!(molecule.atoms[1].isotope, Isotope::B);
    assert_eq!(molecule.atoms[1].token, "KNISH");
    assert_eq!(molecule.atoms[1].wallet_address, "buffer-address");
    assert_eq!(molecule.atoms[1].value, Some("40".to_string()));
}

#[test]
fn normalize_moves_values_towards_the_missing_side() {
    let mapped: Vec<i8> = vec![-8, -8, 3, 1];
    let normalized = Molecule::normalize(mapped.clone());
    assert_eq!(normalized.len(), 4);
    assert_eq!(normalized.iter().map(|&x| x as i32).sum::<i32>(), 0);
    for (a, b) in mapped.iter().zip(normalized.iter()) {
        assert!(a <= b && *b <= 8);
    }
}

#[test]
fn chunks_join_back_to_the_text() {
    let pieces = knishio_client::molecule::chunk_string("abcdefg", 3);
    assert_eq!(pieces, vec!["abc", "def", "g"]);
    assert_eq!(pieces.concat(), "abcdefg");
}

#[test]
fn wallet_fields_take_defaults_for_what_json_leaves_out() {
    let data = JsonValue::Object(vec![
        ("address".to_string(), JsonValue::Str("addr".to_string())),
        ("balance".to_string(), JsonValue::Number(42)),
        ("batchId".to_string(), JsonValue::Str("b1".to_string())),
    ]);
    let f = wallet_fields_from_json(&data);
    assert_eq!(f.token, "TEST");
    assert_eq!(f.characters, "BASE64");
    assert_eq!(f.address, Some("addr".to_string()));
    assert_eq!(f.balance, 42);
    assert_eq!(f.batch_id, Some("b1".to_string()));
    assert_eq!(f.position, None);
    assert_eq!(f.bundle, None);
    let empty = wallet_fields_from_json(&JsonValue::Null);
    assert_eq!(empty.balance, 0);
    assert_eq!(empty.token, "TEST");
}

fn jstr(s: &str) -> JsonValue {
    JsonValue::Str(s.to_string())
}

fn keys_of(v: &JsonValue) -> Vec<String> {
    match v {
        JsonValue::Object(e) => e.iter().map(|(k, _)| k.clone()).collect(),
        _ => vec![],
    }
}

#[test]
fn molecule_json_lays_out_its_keys() {
    let mut source = wallet("TEST", "source");
    source.balance = 7;
    let mut molecule = Molecule::with_params(None, Some("b".to_string()), Some(source), None, None, None);
    molecule.add_atom(Atom::new("pos1", "addr1", Isotope::V, "TEST"));
    let plain = MoleculeJsonOptions { secure_mode: false, include_ots_fragments: false, include_validation_context: false };
    let v = molecule.to_json(plain, vec![jstr("atom")]).unwrap();
    assert_eq!(keys_of(&v), vec!["status", "molecularHash", "createdAt", "cellSlug", "version", "bundle", "atoms"]);
    let with_context = MoleculeJsonOptions { include_validation_context: true, ..plain };
    let v = molecule.to_json(with_context, vec![jstr("atom")]).unwrap();
    assert_eq!(keys_of(&v).last().unwrap(), "sourceWallet");
    molecule.secret = Some("s".to_string());
    let secure = MoleculeJsonOptions { secure_mode: true, ..plain };
    match molecule.to_json(secure, vec![jstr("atom")]) {
        Err(KnishIOError::Custom(m)) => assert_eq!(m, "Cannot serialize molecule with secret in secure mode"),
        other => panic!("unexpected {:?}", other),
    }
}

#[test]
fn molecule_read_from_json() {
    let json = JsonValue::Object(vec![
        ("molecularHash".to_string(), JsonValue::Null),
        ("bundle".to_string(), jstr("test-bundle")),
        ("createdAt".to_string(), jstr("1640995200000")),
        ("cellSlug".to_string(), jstr("cell")),
        ("atoms".to_string(), JsonValue::Array(vec![jstr("a")])),
        ("sourceWallet".to_string(), JsonValue::Object(vec![("balance".to_string(), JsonValue::Number(5))])),
    ]);
    let atoms = vec![Atom::new("pos1", "addr1", Isotope::V, "TEST")];
    let options = MoleculeFromJsonOptions { include_validation_context: true, validate_structure: false, strict_mode: false };
    let m = Molecule::from_json(&json, options, atoms).unwrap();
    assert_eq!(m.bundle, Some("test-bundle".to_string()));
    assert_eq!(m.created_at, "1640995200000");
    assert_eq!(m.cell_slug_origin, Some("cell".to_string()));
    assert_eq!(m.atoms.len(), 1);
    assert_eq!(m.atoms[0].isotope, Isotope::V);
    let w = m.source_wallet.unwrap();
    assert_eq!(w.balance, 5);
    assert_eq!(w.token, "TEST");
    assert!(m.remainder_wallet.is_none());
    let strict = MoleculeFromJsonOptions { strict_mode: true, ..options };
    let bare = JsonValue::Object(vec![("bundle".to_string(), jstr("b"))]);
    match Molecule::from_json(&bare, strict, vec![]) {
        Err(KnishIOError::Custom(m)) => assert_eq!(m, "Invalid molecule data: missing molecularHash or atoms array"),
        other => panic!("unexpected {:?}", other),
    }
}
