//! A molecule builder whose type records how far construction has come: a
//! source wallet before atoms, atoms before signing, signing before building.

pub mod states;

use core::marker::PhantomData;
use vstd::prelude::*;
use crate::atom::{Atom, AtomCreateParams, AtomCreateView, AtomView, atoms_view, created_atom};
use crate::error::KnishIOError;
use crate::molecule::{Molecule, appended, lemma_appended_trans, opt_wallet};
use crate::numeric::{int_text, u64_text, nat_digits};
use crate::text::{opt_view, strings_view, str_eq};
use crate::types::{Isotope, MetaItem, metas_view};
use crate::wallet::{Wallet, WalletInfo, WalletInfoView, copy_opt};
use self::states::{Empty, ReadyToSign, Signed, WithAtoms, WithSourceWallet};

verus! {

/// A molecule under construction, in state `State`.
#[derive(Debug)]
pub struct TypeSafeMoleculeBuilder<State> {
    /// The molecule being built
    pub molecule: Molecule,
    /// The secret to sign with
    pub secret: Option<String>,
    /// The source wallet
    pub source_wallet: Option<Wallet>,
    /// The remainder wallet
    pub remainder_wallet: Option<Wallet>,
    /// The state marker
    pub state: PhantomData<State>,
}

/// Parameters of a value atom.
#[derive(Debug)]
pub struct ValueAtomParams {
    pub position: String,
    pub wallet_address: String,
    pub token: String,
    pub value: Option<i64>,
    pub batch_id: Option<String>,
    pub meta: Option<Vec<MetaItem>>,
}

impl Default for ValueAtomParams {
    fn default() -> (p: Self)
        ensures
            p.position@.len() == 0,
            p.wallet_address@.len() == 0,
            p.token@.len() == 0,
            p.value is None,
            p.batch_id is None,
            p.meta is None,
    {
        ValueAtomParams {
            position: String::new(),
            wallet_address: String::new(),
            token: String::new(),
            value: None,
            batch_id: None,
            meta: None,
        }
    }
}

/// Parameters of a metadata atom.
#[derive(Debug)]
pub struct MetaAtomParams {
    pub position: String,
    pub wallet_address: String,
    pub token: String,
    pub meta_type: String,
    pub meta_id: String,
    pub meta: Vec<MetaItem>,
    pub batch_id: Option<String>,
}

/// Parameters of an identity atom.
#[derive(Debug)]
pub struct IdentityAtomParams {
    pub position: String,
    pub wallet_address: String,
    pub token: String,
    pub meta: Vec<MetaItem>,
    pub batch_id: Option<String>,
}

/// Parameters of a token-request atom.
#[derive(Debug)]
pub struct TokenRequestAtomParams {
    pub position: String,
    pub wallet_address: String,
    pub token: String,
    pub meta: Vec<MetaItem>,
    pub batch_id: Option<String>,
}

/// Parameters of a buffer deposit or withdrawal atom.
#[derive(Debug)]
pub struct BufferAtomParams {
    pub position: String,
    pub wallet_address: String,
    pub token: String,
    pub value: i64,
    pub meta_type: Option<String>,
    pub meta_id: Option<String>,
    pub batch_id: Option<String>,
}

/// Parameters of a buffer deposit atom.
pub type BufferDepositAtomParams = BufferAtomParams;

/// Parameters of a buffer withdrawal atom.
pub type BufferWithdrawAtomParams = BufferAtomParams;

/// Parameters of a fusion atom.
#[derive(Debug)]
pub struct FusionAtomParams {
    pub position: String,
    pub wallet_address: String,
    pub token: String,
    pub value: Option<i64>,
    pub meta_type: Option<String>,
    pub meta_id: Option<String>,
    pub batch_id: Option<String>,
}

/// Parameters of a stackable transfer: the token, the amount, the
/// recipient's address, position and bundle, and the batch ID for all atoms.
#[derive(Debug)]
pub struct StackableTransferParams {
    pub token: String,
    pub amount: i64,
    pub recipient_address: String,
    pub recipient_position: String,
    pub recipient_bundle: Option<String>,
    pub batch_id: Option<String>,
}

/// The atom the builder adds for given fields: on the given position,
/// address and token, with the given value, batch ID and metadata.
pub open spec fn direct_atom(
    isotope: Isotope,
    position: Seq<char>,
    address: Seq<char>,
    token: Seq<char>,
    value: Option<int>,
    batch_id: Option<Seq<char>>,
    meta_type: Option<Seq<char>>,
    meta_id: Option<Seq<char>>,
    meta: Option<Seq<(Seq<char>, Seq<char>)>>,
) -> AtomView {
    created_atom(AtomCreateView {
        isotope,
        wallet_info: Some(WalletInfoView { position, address, token, batch_id: None }),
        token: None,
        value,
        batch_id,
        meta_type,
        meta_id,
        meta,
    })
}

/// The same builder fields, whatever the state.
pub open spec fn same_fields<A, B>(a: TypeSafeMoleculeBuilder<A>, b: TypeSafeMoleculeBuilder<B>) -> bool {
    &&& b.molecule == a.molecule
    &&& b.secret == a.secret
    &&& b.source_wallet == a.source_wallet
    &&& b.remainder_wallet == a.remainder_wallet
}

/// The same builder fields but for the molecule, which has the given atoms
/// appended.
pub open spec fn added<A, B>(a: TypeSafeMoleculeBuilder<A>, b: TypeSafeMoleculeBuilder<B>, atoms: Seq<AtomView>) -> bool {
    &&& appended(a.molecule, b.molecule, atoms)
    &&& b.secret == a.secret
    &&& b.source_wallet == a.source_wallet
    &&& b.remainder_wallet == a.remainder_wallet
}

/// The stackable transfer's atoms: the source's whole balance debited, the
/// amount credited to the recipient, and the change (when positive) credited
/// to the remainder wallet; all in the given batch.
pub open spec fn stackable_atoms(source: crate::wallet::WalletView, remainder: Option<crate::wallet::WalletView>, p: StackableTransferParams) -> Seq<AtomView> {
    seq![
        direct_atom(Isotope::V, crate::wallet::or_empty(source.position), crate::wallet::or_empty(source.address), p.token@,
            Some(-source.balance), opt_view(p.batch_id), None, None, None),
        direct_atom(Isotope::V, p.recipient_position@, p.recipient_address@, p.token@,
            Some(p.amount as int), opt_view(p.batch_id), Some("walletBundle"@), opt_view(p.recipient_bundle), None),
    ] + if source.balance - p.amount > 0 {
        seq![direct_atom(Isotope::V, crate::wallet::or_empty(remainder.unwrap().position), crate::wallet::or_empty(remainder.unwrap().address), p.token@,
            Some(source.balance - p.amount), opt_view(p.batch_id), Some("walletBundle"@), remainder.unwrap().bundle, None)]
    } else {
        seq![]
    }
}

/// A stackable transfer debits the source's whole balance on the source's
/// own position and address, credits the amount on the recipient's position
/// and address (under the recipient's bundle), and credits the change, when
/// there is any, on the remainder wallet's position and address; every atom
/// is in the transfer's token.
pub proof fn law_stackable_transfer_parties(
    source: crate::wallet::WalletView,
    remainder: Option<crate::wallet::WalletView>,
    p: StackableTransferParams,
)
    ensures
        ({
            let a = stackable_atoms(source, remainder, p);
            &&& a.len() == if source.balance - p.amount > 0 { 3int } else { 2int }
            &&& a[0].position == crate::wallet::or_empty(source.position)
            &&& a[0].wallet_address == crate::wallet::or_empty(source.address)
            &&& a[0].value == Some(int_text(-source.balance))
            &&& a[1].position == p.recipient_position@
            &&& a[1].wallet_address == p.recipient_address@
            &&& a[1].value == Some(int_text(p.amount as int))
            &&& a[1].meta_id == opt_view(p.recipient_bundle)
            &&& source.balance - p.amount > 0 ==> {
                &&& a[2].position == crate::wallet::or_empty(remainder.unwrap().position)
                &&& a[2].wallet_address == crate::wallet::or_empty(remainder.unwrap().address)
                &&& a[2].value == Some(int_text(source.balance - p.amount))
            }
            &&& forall|i: int| 0 <= i < a.len() ==> (#[trigger] a[i]).token == p.token@
        }),
{
    let a = stackable_atoms(source, remainder, p);
    assert forall|i: int| 0 <= i < a.len() implies (#[trigger] a[i]).token == p.token@ by {
        if i >= 2 {
            assert(source.balance - p.amount > 0);
        }
    }
}

/// The values of a list of atoms' contents, read back from their decimal
/// text where it is one.
pub open spec fn stackable_values(source_balance: int, amount: int) -> Seq<int> {
    seq![-source_balance, amount] + if source_balance - amount > 0 { seq![source_balance - amount] } else { seq![] }
}

/// A stackable transfer conserves value: the values it writes sum to zero.
pub proof fn law_stackable_transfer_conserves(source_balance: int, amount: int)
    requires
        source_balance >= amount,
    ensures
        stackable_values(source_balance, amount).fold_left(0int, |acc: int, x: int| acc + x) == 0,
{
    let s = stackable_values(source_balance, amount);
    reveal_with_fuel(Seq::fold_left, 4);
    if source_balance - amount > 0 {
        assert(s =~= seq![-source_balance, amount, source_balance - amount]);
        assert(s.drop_last() =~= seq![-source_balance, amount]);
        assert(s.drop_last().drop_last() =~= seq![-source_balance]);
        assert(s.drop_last().drop_last().drop_last() =~= Seq::<int>::empty());
    } else {
        assert(s =~= seq![-source_balance, amount]);
        assert(s.drop_last() =~= seq![-source_balance]);
        assert(s.drop_last().drop_last() =~= Seq::<int>::empty());
    }
}

fn direct_params(
    isotope: Isotope,
    position: String,
    address: String,
    token: String,
    value: Option<i128>,
    batch_id: Option<String>,
    meta_type: Option<String>,
    meta_id: Option<String>,
    meta: Option<Vec<MetaItem>>,
) -> (p: AtomCreateParams)
    ensures
        created_atom(p@) == direct_atom(
            isotope,
            position@,
            address@,
            token@,
            match value { Some(v) => Some(v as int), None => None },
            opt_view(batch_id),
            opt_view(meta_type),
            opt_view(meta_id),
            match meta { Some(m) => Some(metas_view(m@)), None => None },
        ),
        p.value == value,
{
    AtomCreateParams {
        isotope,
        wallet_info: Some(WalletInfo { position, address, token, batch_id: None }),
        token: None,
        value,
        batch_id,
        meta_type,
        meta_id,
        meta,
    }
}

fn opt_i64(v: Option<i64>) -> (r: Option<i128>)
    ensures
        match v { Some(x) => r == Some(x as i128), None => r is None },
{
    match v {
        Some(x) => Some(x as i128),
        None => None,
    }
}

impl<State> TypeSafeMoleculeBuilder<State> {
    fn into_state<Next>(self) -> (b: TypeSafeMoleculeBuilder<Next>)
        ensures
            same_fields(self, b),
    {
        TypeSafeMoleculeBuilder {
            molecule: self.molecule,
            secret: self.secret,
            source_wallet: self.source_wallet,
            remainder_wallet: self.remainder_wallet,
            state: PhantomData,
        }
    }

    /// Add one atom built from its parameters, moving to the next state.
    fn add_atom_internal<Next>(self, params: AtomCreateParams) -> (b: TypeSafeMoleculeBuilder<Next>)
        requires
            params.value matches Some(v) ==> v > i128::MIN,
        ensures
            added(self, b, seq![created_atom(params@)]),
    {
        let mut me = self;
        let atom = Atom::create(params);
        me.molecule.add_atom(atom);
        me.into_state()
    }

    /// The molecule being built.
    pub fn molecule(&self) -> (m: &Molecule)
        ensures
            *m == self.molecule,
    {
        &self.molecule
    }

    /// The number of atoms added so far.
    pub fn atom_count(&self) -> (n: usize)
        ensures
            n == self.molecule.atoms@.len(),
    {
        self.molecule.atoms.len()
    }

    /// Whether some atom has the given isotope.
    pub fn has_isotope(&self, isotope: Isotope) -> (r: bool)
        ensures
            r == exists|i: int| 0 <= i < self.molecule.atoms@.len() && (#[trigger] self.molecule.atoms@[i]).isotope == isotope,
    {
        self.molecule.has_isotope(isotope)
    }

    /// The atoms with the given isotope, in order.
    pub fn get_atoms_by_isotope(&self, isotope: Isotope) -> (r: Vec<&Atom>)
        ensures
            r@.map_values(|a: &Atom| a@) == atoms_view(self.molecule.atoms@).filter(|a: AtomView| a.isotope == isotope),
            r@.map_values(|a: &Atom| *a) == self.molecule.atoms@.filter(|a: Atom| a.isotope == isotope),
    {
        let atoms = &self.molecule.atoms;
        let ghost all = atoms_view(atoms@);
        let mut r: Vec<&Atom> = Vec::new();
        let mut i: usize = 0;
        while i < atoms.len()
            invariant
                i <= atoms@.len(),
                all == atoms_view(atoms@),
                r@.map_values(|a: &Atom| a@) == all.take(i as int).filter(|a: AtomView| a.isotope == isotope),
                r@.map_values(|a: &Atom| *a) == atoms@.take(i as int).filter(|a: Atom| a.isotope == isotope),
            decreases atoms@.len() - i,
        {
            let ghost before = r@.map_values(|a: &Atom| a@);
            let ghost before_atoms = r@.map_values(|a: &Atom| *a);
            proof {
                reveal_with_fuel(Seq::filter, 1);
                assert(all.take(i + 1).drop_last() =~= all.take(i as int));
                assert(all.take(i + 1).last() == atoms@[i as int]@);
                assert(atoms@.take(i + 1).drop_last() =~= atoms@.take(i as int));
                assert(atoms@.take(i + 1).last() == atoms@[i as int]);
            }
            if atoms[i].isotope == isotope {
                r.push(&atoms[i]);
                assert(r@.map_values(|a: &Atom| a@) =~= before.push(atoms@[i as int]@));
                assert(r@.map_values(|a: &Atom| *a) =~= before_atoms.push(atoms@[i as int]));
            }
            i = i + 1;
        }
        assert(all.take(atoms@.len() as int) =~= all);
        assert(atoms@.take(atoms@.len() as int) =~= atoms@);
        r
    }
}

impl TypeSafeMoleculeBuilder<Empty> {
    /// A builder for an empty molecule, with the secret to sign with.
    pub fn new(secret: &str) -> (b: Self)
        ensures
            b.molecule.atoms@.len() == 0,
            b.molecule.source_wallet is None,
            b.molecule.remainder_wallet is None,
            b.molecule.bundle is None,
            b.molecule.molecular_hash is None,
            b.molecule.version is None,
            opt_view(b.secret) == Some(secret@),
            b.source_wallet is None,
            b.remainder_wallet is None,
    {
        TypeSafeMoleculeBuilder {
            molecule: Molecule::new(),
            secret: Some(secret.to_owned()),
            source_wallet: None,
            remainder_wallet: None,
            state: PhantomData,
        }
    }

    /// Configure the source wallet: the molecule takes it and its bundle.
    pub fn with_source_wallet(self, wallet: Wallet) -> (b: TypeSafeMoleculeBuilder<WithSourceWallet>)
        ensures
            b.molecule == (Molecule { source_wallet: b.molecule.source_wallet, bundle: b.molecule.bundle, ..self.molecule }),
            opt_wallet(b.molecule.source_wallet) == Some(wallet@),
            opt_view(b.molecule.bundle) == wallet@.bundle,
            b.source_wallet == Some(wallet),
            b.secret == self.secret,
            b.remainder_wallet == self.remainder_wallet,
    {
        let mut me = self;
        me.molecule.source_wallet = Some(wallet.clone());
        me.molecule.bundle = copy_opt(&wallet.bundle);
        TypeSafeMoleculeBuilder {
            molecule: me.molecule,
            secret: me.secret,
            source_wallet: Some(wallet),
            remainder_wallet: me.remainder_wallet,
            state: PhantomData,
        }
    }
}

impl TypeSafeMoleculeBuilder<WithSourceWallet> {
    /// Configure the remainder wallet that receives change.
    pub fn with_remainder_wallet(self, wallet: Wallet) -> (b: Self)
        ensures
            b.molecule == (Molecule { remainder_wallet: b.molecule.remainder_wallet, ..self.molecule }),
            opt_wallet(b.molecule.remainder_wallet) == Some(wallet@),
            b.remainder_wallet == Some(wallet),
            b.secret == self.secret,
            b.source_wallet == self.source_wallet,
    {
        let mut me = self;
        me.molecule.remainder_wallet = Some(wallet.clone());
        me.remainder_wallet = Some(wallet);
        me
    }

    /// Set the cell slug for sharding.
    pub fn with_cell_slug(self, cell_slug: &str) -> (b: Self)
        ensures
            b.molecule == (Molecule { cell_slug: b.molecule.cell_slug, ..self.molecule }),
            opt_view(b.molecule.cell_slug) == Some(cell_slug@),
            b.secret == self.secret,
            b.source_wallet == self.source_wallet,
            b.remainder_wallet == self.remainder_wallet,
    {
        let mut me = self;
        me.molecule.cell_slug = Some(cell_slug.to_owned());
        me
    }

    /// Set the hashes of the parent molecules in the DAG.
    pub fn with_parent_hashes(self, hashes: Vec<String>) -> (b: Self)
        ensures
            b.molecule == (Molecule { parent_hashes: hashes, ..self.molecule }),
            b.secret == self.secret,
            b.source_wallet == self.source_wallet,
            b.remainder_wallet == self.remainder_wallet,
    {
        let mut me = self;
        me.molecule.parent_hashes = hashes;
        me
    }

    /// Add a first value atom.
    pub fn add_value_atom(self, params: ValueAtomParams) -> (r: Result<TypeSafeMoleculeBuilder<WithAtoms>, KnishIOError>)
        ensures
            r matches Ok(b) && added(self, b, seq![direct_atom(Isotope::V, params.position@, params.wallet_address@, params.token@,
                match params.value { Some(v) => Some(v as int), None => None }, opt_view(params.batch_id), None, None,
                match params.meta { Some(m) => Some(metas_view(m@)), None => None })]),
    {
        let p = direct_params(Isotope::V, params.position, params.wallet_address, params.token, opt_i64(params.value),
            params.batch_id, None, None, params.meta);
        Ok(self.add_atom_internal(p))
    }

    /// Add a first metadata atom.
    pub fn add_meta_atom(self, params: MetaAtomParams) -> (r: Result<TypeSafeMoleculeBuilder<WithAtoms>, KnishIOError>)
        ensures
            r matches Ok(b) && added(self, b, seq![direct_atom(Isotope::M, params.position@, params.wallet_address@, params.token@,
                None, opt_view(params.batch_id), Some(params.meta_type@), Some(params.meta_id@), Some(metas_view(params.meta@)))]),
    {
        let p = direct_params(Isotope::M, params.position, params.wallet_address, params.token, None,
            params.batch_id, Some(params.meta_type), Some(params.meta_id), Some(params.meta));
        Ok(self.add_atom_internal(p))
    }

    /// Add a first identity atom.
    pub fn add_identity_atom(self, params: IdentityAtomParams) -> (r: Result<TypeSafeMoleculeBuilder<WithAtoms>, KnishIOError>)
        ensures
            r matches Ok(b) && added(self, b, seq![direct_atom(Isotope::I, params.position@, params.wallet_address@, params.token@,
                None, opt_view(params.batch_id), None, None, Some(metas_view(params.meta@)))]),
    {
        let p = direct_params(Isotope::I, params.position, params.wallet_address, params.token, None,
            params.batch_id, None, None, Some(params.meta));
        Ok(self.add_atom_internal(p))
    }

    /// Add a first token-request atom.
    pub fn add_token_request_atom(self, params: TokenRequestAtomParams) -> (r: Result<TypeSafeMoleculeBuilder<WithAtoms>, KnishIOError>)
        ensures
            r matches Ok(b) && added(self, b, seq![direct_atom(Isotope::T, params.position@, params.wallet_address@, params.token@,
                None, opt_view(params.batch_id), None, None, Some(metas_view(params.meta@)))]),
    {
        let p = direct_params(Isotope::T, params.position, params.wallet_address, params.token, None,
            params.batch_id, None, None, Some(params.meta));
        Ok(self.add_atom_internal(p))
    }

    /// Add a first buffer deposit atom.
    pub fn add_buffer_deposit_atom(self, params: BufferAtomParams) -> (r: Result<TypeSafeMoleculeBuilder<WithAtoms>, KnishIOError>)
        ensures
            r matches Ok(b) && added(self, b, seq![direct_atom(Isotope::B, params.position@, params.wallet_address@, params.token@,
                Some(params.value as int), opt_view(params.batch_id), opt_view(params.meta_type), opt_view(params.meta_id), None)]),
    {
        let p = direct_params(Isotope::B, params.position, params.wallet_address, params.token, Some(params.value as i128),
            params.batch_id, params.meta_type, params.meta_id, None);
        Ok(self.add_atom_internal(p))
    }

    /// Add a first buffer withdrawal atom.
    pub fn add_buffer_withdraw_atom(self, params: BufferAtomParams) -> (r: Result<TypeSafeMoleculeBuilder<WithAtoms>, KnishIOError>)
        ensures
            r matches Ok(b) && added(self, b, seq![direct_atom(Isotope::B, params.position@, params.wallet_address@, params.token@,
                Some(params.value as int), opt_view(params.batch_id), opt_view(params.meta_type), opt_view(params.meta_id), None)]),
    {
        let p = direct_params(Isotope::B, params.position, params.wallet_address, params.token, Some(params.value as i128),
            params.batch_id, params.meta_type, params.meta_id, None);
        Ok(self.add_atom_internal(p))
    }

    /// Add a first fusion atom.
    pub fn add_fusion_atom(self, params: FusionAtomParams) -> (r: Result<TypeSafeMoleculeBuilder<WithAtoms>, KnishIOError>)
        ensures
            r matches Ok(b) && added(self, b, seq![direct_atom(Isotope::F, params.position@, params.wallet_address@, params.token@,
                match params.value { Some(v) => Some(v as int), None => None }, opt_view(params.batch_id), opt_view(params.meta_type), opt_view(params.meta_id), None)]),
    {
        let p = direct_params(Isotope::F, params.position, params.wallet_address, params.token, opt_i64(params.value),
            params.batch_id, params.meta_type, params.meta_id, None);
        Ok(self.add_atom_internal(p))
    }
}

impl TypeSafeMoleculeBuilder<WithSourceWallet> {
    /// Add a stackable transfer of `amount`: the source wallet's whole
    /// balance debited, the amount credited to the recipient under its
    /// bundle, and the change (when positive) credited to the remainder
    /// wallet under its bundle; every atom carries the batch ID. Fails without
    /// a source wallet, when the source holds less than the amount, and when
    /// change is due but no remainder wallet is configured.
    pub fn add_stackable_transfer(self, params: StackableTransferParams) -> (r: Result<TypeSafeMoleculeBuilder<WithAtoms>, KnishIOError>)
        ensures
            match opt_wallet(self.source_wallet) {
                None => r matches Err(KnishIOError::Custom(m)) && m@ == "Source wallet is required"@,
                Some(s) => if s.balance < params.amount {
                    r matches Err(KnishIOError::BalanceInsufficient)
                } else if s.balance - params.amount > 0 && self.remainder_wallet is None {
                    r matches Err(KnishIOError::Custom(m)) && m@ == "Remainder wallet required when transfer < source balance"@
                } else {
                    r matches Ok(b) && added(self, b, stackable_atoms(s, opt_wallet(self.remainder_wallet), params))
                },
            },
    {
        let ghost pv = params;
        let source = match &self.source_wallet {
            Some(w) => w.clone(),
            None => {
                return Err(KnishIOError::custom("Source wallet is required"));
            },
        };
        let balance = source.balance as i128;
        let amount = params.amount as i128;
        if balance < amount {
            return Err(KnishIOError::BalanceInsufficient);
        }
        let remainder_info = match &self.remainder_wallet {
            Some(w) => Some(w.info()),
            None => None,
        };
        let remainder_bundle = match &self.remainder_wallet {
            Some(w) => copy_opt(&w.bundle),
            None => None,
        };
        if balance - amount > 0 && remainder_info.is_none() {
            return Err(KnishIOError::custom("Remainder wallet required when transfer < source balance"));
        }
        let info = source.info();
        let p1 = direct_params(Isotope::V, info.position, info.address, params.token.clone(), Some(-balance),
            copy_opt(&params.batch_id), None, None, None);
        let ghost a1 = created_atom(p1@);
        let b1: TypeSafeMoleculeBuilder<WithAtoms> = self.add_atom_internal(p1);
        let p2 = direct_params(Isotope::V, params.recipient_position.clone(), params.recipient_address.clone(), params.token.clone(),
            Some(amount), copy_opt(&params.batch_id), Some("walletBundle".to_owned()), copy_opt(&params.recipient_bundle), None);
        let ghost a2 = created_atom(p2@);
        let b2: TypeSafeMoleculeBuilder<WithAtoms> = b1.add_atom_internal(p2);
        proof {
            lemma_appended_trans(self.molecule, b1.molecule, b2.molecule, seq![a1], seq![a2]);
            assert(seq![a1] + seq![a2] =~= seq![a1, a2]);
        }
        if balance - amount > 0 {
            match remainder_info {
                Some(ri) => {
                    let p3 = direct_params(Isotope::V, ri.position, ri.address, params.token.clone(), Some(balance - amount),
                        copy_opt(&params.batch_id), Some("walletBundle".to_owned()), remainder_bundle, None);
                    let ghost a3 = created_atom(p3@);
                    let b3: TypeSafeMoleculeBuilder<WithAtoms> = b2.add_atom_internal(p3);
                    proof {
                        lemma_appended_trans(self.molecule, b2.molecule, b3.molecule, seq![a1, a2], seq![a3]);
                        assert(seq![a1, a2] + seq![a3] =~= stackable_atoms(source@, opt_wallet(self.remainder_wallet), pv));
                    }
                    Ok(b3)
                },
                None => Err(KnishIOError::custom("Remainder wallet required when transfer < source balance")),
            }
        } else {
            assert(seq![a1, a2] =~= stackable_atoms(source@, opt_wallet(self.remainder_wallet), pv));
            Ok(b2)
        }
    }
}

impl TypeSafeMoleculeBuilder<WithAtoms> {
    fn push_same(self, params: AtomCreateParams) -> (r: Result<Self, KnishIOError>)
        requires
            params.value matches Some(v) ==> v > i128::MIN,
        ensures
            r matches Ok(b) && added(self, b, seq![created_atom(params@)]),
    {
        Ok(self.add_atom_internal(params))
    }

    /// Add another value atom.
    pub fn add_value_atom(self, params: ValueAtomParams) -> (r: Result<Self, KnishIOError>)
        ensures
            r matches Ok(b) && added(self, b, seq![direct_atom(Isotope::V, params.position@, params.wallet_address@, params.token@,
                match params.value { Some(v) => Some(v as int), None => None }, opt_view(params.batch_id), None, None,
                match params.meta { Some(m) => Some(metas_view(m@)), None => None })]),
    {
        let p = direct_params(Isotope::V, params.position, params.wallet_address, params.token, opt_i64(params.value),
            params.batch_id, None, None, params.meta);
        self.push_same(p)
    }

    /// Add another metadata atom.
    pub fn add_meta_atom(self, params: MetaAtomParams) -> (r: Result<Self, KnishIOError>)
        ensures
            r matches Ok(b) && added(self, b, seq![direct_atom(Isotope::M, params.position@, params.wallet_address@, params.token@,
                None, opt_view(params.batch_id), Some(params.meta_type@), Some(params.meta_id@), Some(metas_view(params.meta@)))]),
    {
        let p = direct_params(Isotope::M, params.position, params.wallet_address, params.token, None,
            params.batch_id, Some(params.meta_type), Some(params.meta_id), Some(params.meta));
        self.push_same(p)
    }

    /// Add another identity atom.
    pub fn add_identity_atom(self, params: IdentityAtomParams) -> (r: Result<Self, KnishIOError>)
        ensures
            r matches Ok(b) && added(self, b, seq![direct_atom(Isotope::I, params.position@, params.wallet_address@, params.token@,
                None, opt_view(params.batch_id), None, None, Some(metas_view(params.meta@)))]),
    {
        let p = direct_params(Isotope::I, params.position, params.wallet_address, params.token, None,
            params.batch_id, None, None, Some(params.meta));
        self.push_same(p)
    }

    /// Add another token-request atom.
    pub fn add_token_request_atom(self, params: TokenRequestAtomParams) -> (r: Result<Self, KnishIOError>)
        ensures
            r matches Ok(b) && added(self, b, seq![direct_atom(Isotope::T, params.position@, params.wallet_address@, params.token@,
                None, opt_view(params.batch_id), None, None, Some(metas_view(params.meta@)))]),
    {
        let p = direct_params(Isotope::T, params.position, params.wallet_address, params.token, None,
            params.batch_id, None, None, Some(params.meta));
        self.push_same(p)
    }

    /// Add another buffer deposit atom.
    pub fn add_buffer_deposit_atom(self, params: BufferAtomParams) -> (r: Result<Self, KnishIOError>)
        ensures
            r matches Ok(b) && added(self, b, seq![direct_atom(Isotope::B, params.position@, params.wallet_address@, params.token@,
                Some(params.value as int), opt_view(params.batch_id), opt_view(params.meta_type), opt_view(params.meta_id), None)]),
    {
        let p = direct_params(Isotope::B, params.position, params.wallet_address, params.token, Some(params.value as i128),
            params.batch_id, params.meta_type, params.meta_id, None);
        self.push_same(p)
    }

    /// Add another buffer withdrawal atom.
    pub fn add_buffer_withdraw_atom(self, params: BufferAtomParams) -> (r: Result<Self, KnishIOError>)
        ensures
            r matches Ok(b) && added(self, b, seq![direct_atom(Isotope::B, params.position@, params.wallet_address@, params.token@,
                Some(params.value as int), opt_view(params.batch_id), opt_view(params.meta_type), opt_view(params.meta_id), None)]),
    {
        let p = direct_params(Isotope::B, params.position, params.wallet_address, params.token, Some(params.value as i128),
            params.batch_id, params.meta_type, params.meta_id, None);
        self.push_same(p)
    }

    /// Add another fusion atom.
    pub fn add_fusion_atom(self, params: FusionAtomParams) -> (r: Result<Self, KnishIOError>)
        ensures
            r matches Ok(b) && added(self, b, seq![direct_atom(Isotope::F, params.position@, params.wallet_address@, params.token@,
                match params.value { Some(v) => Some(v as int), None => None }, opt_view(params.batch_id), opt_view(params.meta_type), opt_view(params.meta_id), None)]),
    {
        let p = direct_params(Isotope::F, params.position, params.wallet_address, params.token, opt_i64(params.value),
            params.batch_id, params.meta_type, params.meta_id, None);
        self.push_same(p)
    }

    /// Add a zero-value atom on the remainder wallet, at position "W" followed
    /// by the number of atoms plus one. Fails when no remainder wallet is
    /// configured or when it has no address.
    pub fn add_remainder_atom(self) -> (r: Result<Self, KnishIOError>)
        ensures
            match opt_wallet(self.remainder_wallet) {
                None => r matches Err(KnishIOError::Custom(m)) && m@ == "Remainder wallet not configured"@,
                Some(w) => match w.address {
                    None => r matches Err(KnishIOError::Custom(m)) && m@ == "Remainder wallet has no address"@,
                    Some(a) => r matches Ok(b) && added(self, b, seq![direct_atom(Isotope::V,
                        seq!['W'] + nat_digits((self.molecule.atoms@.len() + 1) as nat), a, w.token, Some(0), None, None, None, None)]),
                },
            },
    {
        let (address, token) = match &self.remainder_wallet {
            None => {
                return Err(KnishIOError::custom("Remainder wallet not configured"));
            },
            Some(w) => match &w.address {
                None => {
                    return Err(KnishIOError::custom("Remainder wallet has no address"));
                },
                Some(a) => (a.clone(), w.token.clone()),
            },
        };
        let n = self.molecule.atoms.len() as u64;
        let digits = crate::numeric::u128_text((n as u128) + 1);
        let position = "W".to_owned().concat(digits.as_str());
        proof {
            reveal_strlit("W");
            assert(position@ =~= seq!['W'] + nat_digits((self.molecule.atoms@.len() + 1) as nat));
        }
        let p = direct_params(Isotope::V, position, address, token, Some(0), None, None, None, None);
        self.push_same(p)
    }

    /// Move on to signing. Fails when there is no atom or no source wallet.
    pub fn ready_to_sign(self) -> (r: Result<TypeSafeMoleculeBuilder<ReadyToSign>, KnishIOError>)
        ensures
            self.molecule.atoms@.len() == 0 ==> (r matches Err(KnishIOError::Custom(m)) && m@ == "Molecule must have at least one atom"@),
            self.molecule.atoms@.len() > 0 && self.source_wallet is None ==> (r matches Err(KnishIOError::Custom(m)) && m@ == "Source wallet is required"@),
            self.molecule.atoms@.len() > 0 && self.source_wallet is Some ==> (r matches Ok(b) && same_fields(self, b)),
    {
        if self.molecule.atoms.len() == 0 {
            return Err(KnishIOError::custom("Molecule must have at least one atom"));
        }
        if self.source_wallet.is_none() {
            return Err(KnishIOError::custom("Source wallet is required"));
        }
        Ok(self.into_state())
    }
}

/// Whether some atom carries an index other than its position in the list.
pub open spec fn misordered(atoms: Seq<Atom>) -> bool {
    exists|i: int| 0 <= i < atoms.len() && ((#[trigger] atoms[i]).index matches Some(x) && x != i)
}

/// Whether two atoms share a position.
pub open spec fn duplicate_positions(atoms: Seq<Atom>) -> bool {
    exists|i: int, j: int| 0 <= i < j < atoms.len() && (#[trigger] atoms[i]).position@ == (#[trigger] atoms[j]).position@
}

impl TypeSafeMoleculeBuilder<ReadyToSign> {
    /// Check the molecule's structure before signing: every index matches
    /// the atom's place, and no two atoms share a position.
    pub fn validate(&self) -> (r: Result<(), KnishIOError>)
        ensures
            misordered(self.molecule.atoms@) ==> (r matches Err(KnishIOError::Custom(m)) && m@ == "Atoms are not properly ordered"@),
            !misordered(self.molecule.atoms@) && duplicate_positions(self.molecule.atoms@)
                ==> (r matches Err(KnishIOError::Custom(m)) && m@ == "Duplicate atom positions detected"@),
            !misordered(self.molecule.atoms@) && !duplicate_positions(self.molecule.atoms@) ==> r is Ok,
    {
        let atoms = &self.molecule.atoms;
        let mut i: usize = 0;
        while i < atoms.len()
            invariant
                atoms@ == self.molecule.atoms@,
                i <= atoms@.len(),
                forall|k: int| 0 <= k < i ==> !((#[trigger] atoms@[k]).index matches Some(x) && x != k),
            decreases atoms@.len() - i,
        {
            match atoms[i].index {
                Some(x) => {
                    if (x as u64) != (i as u64) {
                        assert(atoms@[i as int].index == Some(x));
                        assert(misordered(atoms@));
                        return Err(KnishIOError::custom("Atoms are not properly ordered"));
                    }
                },
                None => {},
            }
            i = i + 1;
        }
        assert(!misordered(atoms@));
        let mut a: usize = 0;
        while a < atoms.len()
            invariant
                atoms@ == self.molecule.atoms@,
                a <= atoms@.len(),
                !misordered(atoms@),
                forall|p: int, q: int| 0 <= p < a && p < q < atoms@.len() ==> (#[trigger] atoms@[p]).position@ != (#[trigger] atoms@[q]).position@,
            decreases atoms@.len() - a,
        {
            let mut b: usize = a + 1;
            while b < atoms.len()
                invariant
                    atoms@ == self.molecule.atoms@,
                    a < atoms@.len(),
                    a + 1 <= b <= atoms@.len(),
                    !misordered(atoms@),
                    forall|q: int| a < q < b ==> atoms@[a as int].position@ != (#[trigger] atoms@[q]).position@,
                decreases atoms@.len() - b,
            {
                if str_eq(atoms[a].position.as_str(), atoms[b].position.as_str()) {
                    assert(duplicate_positions(atoms@)) by {
                        assert(atoms@[a as int].position@ == atoms@[b as int].position@);
                    }
                    return Err(KnishIOError::custom("Duplicate atom positions detected"));
                }
                b = b + 1;
            }
            a = a + 1;
        }
        assert(!duplicate_positions(atoms@));
        Ok(())
    }
}

impl TypeSafeMoleculeBuilder<Signed> {
    /// The built molecule.
    pub fn build(self) -> (m: Molecule)
        ensures
            m == self.molecule,
    {
        self.molecule
    }

    /// The built molecule, borrowed.
    pub fn as_molecule(&self) -> (m: &Molecule)
        ensures
            *m == self.molecule,
    {
        &self.molecule
    }

    /// The molecular hash of the signed molecule.
    pub fn molecular_hash(&self) -> (h: Option<&String>)
        ensures
            match self.molecule.molecular_hash {
                Some(x) => h matches Some(y) && *y == x,
                None => h is None,
            },
    {
        match &self.molecule.molecular_hash {
            Some(x) => Some(x),
            None => None,
        }
    }
}

} // verus!
