//! Atoms: the single operations a molecule is made of.

use vstd::prelude::*;
use crate::clock::current_time_millis;
use crate::numeric::{i64_text, i128_text, int_text};
use crate::text::opt_view;
use crate::types::{Isotope, MetaItem, clone_metas, metas_view};
use crate::wallet::{WalletInfo, WalletInfoView, copy_opt};

verus! {

/// One operation of a molecule on one wallet.
#[derive(Debug)]
pub struct Atom {
    /// Position (one-time key index) of the wallet
    pub position: String,
    /// Address of the wallet
    pub wallet_address: String,
    /// Kind of operation
    pub isotope: Isotope,
    /// Token slug
    pub token: String,
    /// Amount moved, as decimal text
    pub value: Option<String>,
    /// Batch ID of stackable tokens
    pub batch_id: Option<String>,
    /// Type of the metadata the atom refers to
    pub meta_type: Option<String>,
    /// ID of the metadata the atom refers to
    pub meta_id: Option<String>,
    /// Metadata items
    pub meta: Vec<MetaItem>,
    /// Index of the atom within its molecule
    pub index: Option<u32>,
    /// Fragment of the molecule's one-time signature
    pub ots_fragment: Option<String>,
    /// Creation time, in milliseconds since the epoch, as decimal text
    pub created_at: String,
    /// Version identifier
    pub version: Option<String>,
}

/// The mathematical form of an atom's content: everything but its creation time.
pub struct AtomView {
    pub position: Seq<char>,
    pub wallet_address: Seq<char>,
    pub isotope: Isotope,
    pub token: Seq<char>,
    pub value: Option<Seq<char>>,
    pub batch_id: Option<Seq<char>>,
    pub meta_type: Option<Seq<char>>,
    pub meta_id: Option<Seq<char>>,
    pub meta: Seq<(Seq<char>, Seq<char>)>,
    pub index: Option<u32>,
    pub ots_fragment: Option<Seq<char>>,
    pub version: Option<Seq<char>>,
}

impl View for Atom {
    type V = AtomView;

    open spec fn view(&self) -> AtomView {
        AtomView {
            position: self.position@,
            wallet_address: self.wallet_address@,
            isotope: self.isotope,
            token: self.token@,
            value: opt_view(self.value),
            batch_id: opt_view(self.batch_id),
            meta_type: opt_view(self.meta_type),
            meta_id: opt_view(self.meta_id),
            meta: metas_view(self.meta@),
            index: self.index,
            ots_fragment: opt_view(self.ots_fragment),
            version: opt_view(self.version),
        }
    }
}

/// The contents of a list of atoms.
pub open spec fn atoms_view(v: Seq<Atom>) -> Seq<AtomView> {
    v.map_values(|a: Atom| a@)
}

/// What creating an atom is given.
#[derive(Debug)]
pub struct AtomCreateParams {
    /// Kind of operation
    pub isotope: Isotope,
    /// The wallet the atom acts on, if any
    pub wallet_info: Option<WalletInfo>,
    /// Token slug, used when there is no wallet
    pub token: Option<String>,
    /// Amount moved
    pub value: Option<i128>,
    /// Batch ID; the wallet's when absent
    pub batch_id: Option<String>,
    /// Type of the metadata the atom refers to
    pub meta_type: Option<String>,
    /// ID of the metadata the atom refers to
    pub meta_id: Option<String>,
    /// Metadata items
    pub meta: Option<Vec<MetaItem>>,
}

/// The mathematical form of what creating an atom is given.
pub struct AtomCreateView {
    pub isotope: Isotope,
    pub wallet_info: Option<WalletInfoView>,
    pub token: Option<Seq<char>>,
    pub value: Option<int>,
    pub batch_id: Option<Seq<char>>,
    pub meta_type: Option<Seq<char>>,
    pub meta_id: Option<Seq<char>>,
    pub meta: Option<Seq<(Seq<char>, Seq<char>)>>,
}

impl View for AtomCreateParams {
    type V = AtomCreateView;

    open spec fn view(&self) -> AtomCreateView {
        AtomCreateView {
            isotope: self.isotope,
            wallet_info: match self.wallet_info {
                Some(w) => Some(w@),
                None => None,
            },
            token: opt_view(self.token),
            value: match self.value {
                Some(v) => Some(v as int),
                None => None,
            },
            batch_id: opt_view(self.batch_id),
            meta_type: opt_view(self.meta_type),
            meta_id: opt_view(self.meta_id),
            meta: match self.meta {
                Some(m) => Some(metas_view(m@)),
                None => None,
            },
        }
    }
}

/// The parameters of an atom on a wallet, with nothing else given.
pub open spec fn params_on(isotope: Isotope, info: WalletInfoView) -> AtomCreateView {
    AtomCreateView {
        isotope,
        wallet_info: Some(info),
        token: None,
        value: None,
        batch_id: None,
        meta_type: None,
        meta_id: None,
        meta: None,
    }
}

/// The atom that creation makes of its parameters: position, address and
/// token from the wallet (the token parameter, and empty position and address,
/// without one), the value as decimal text, the batch ID given or else the
/// wallet's, no index, signature fragment or version.
pub open spec fn created_atom(p: AtomCreateView) -> AtomView {
    AtomView {
        position: match p.wallet_info {
            Some(w) => w.position,
            None => Seq::empty(),
        },
        wallet_address: match p.wallet_info {
            Some(w) => w.address,
            None => Seq::empty(),
        },
        isotope: p.isotope,
        token: match p.wallet_info {
            Some(w) => w.token,
            None => match p.token {
                Some(t) => t,
                None => Seq::empty(),
            },
        },
        value: match p.value {
            Some(v) => Some(int_text(v)),
            None => None,
        },
        batch_id: match p.batch_id {
            Some(b) => Some(b),
            None => match p.wallet_info {
                Some(w) => w.batch_id,
                None => None,
            },
        },
        meta_type: p.meta_type,
        meta_id: p.meta_id,
        meta: match p.meta {
            Some(m) => m,
            None => Seq::empty(),
        },
        index: None,
        ots_fragment: None,
        version: None,
    }
}

/// The current time as decimal text of milliseconds; which time the clock
/// gives is not known, only that the text is that of an integer.
pub fn timestamp_text() -> (s: String)
    ensures
        exists|t: i64| s@ == #[trigger] int_text(t as int),
{
    let t = current_time_millis();
    let s = i64_text(t);
    assert(s@ == int_text(t as int));
    s
}

impl Atom {
    /// An atom of the given kind on a wallet position, created now, with no
    /// value or metadata.
    pub fn new(position: &str, wallet_address: &str, isotope: Isotope, token: &str) -> (a: Self)
        ensures
            a@ == (AtomView {
                position: position@,
                wallet_address: wallet_address@,
                isotope,
                token: token@,
                value: None,
                batch_id: None,
                meta_type: None,
                meta_id: None,
                meta: Seq::empty(),
                index: None,
                ots_fragment: None,
                version: None,
            }),
    {
        let a = Atom {
            position: position.to_owned(),
            wallet_address: wallet_address.to_owned(),
            isotope,
            token: token.to_owned(),
            value: None,
            batch_id: None,
            meta_type: None,
            meta_id: None,
            meta: Vec::new(),
            index: None,
            ots_fragment: None,
            created_at: timestamp_text(),
            version: None,
        };
        assert(metas_view(a.meta@) =~= Seq::empty());
        a
    }

    /// An atom made of the given parameters, created now.
    pub fn create(params: AtomCreateParams) -> (a: Self)
        requires
            params.value matches Some(v) ==> v > i128::MIN,
        ensures
            a@ == created_atom(params@),
    {
        let ghost pv = params@;
        let (position, wallet_address, token, wallet_batch) = match params.wallet_info {
            Some(w) => (w.position, w.address, w.token, w.batch_id),
            None => {
                let t = match params.token {
                    Some(t) => t,
                    None => String::new(),
                };
                (String::new(), String::new(), t, None)
            },
        };
        let value = match params.value {
            Some(v) => Some(i128_text(v)),
            None => None,
        };
        let batch_id = match params.batch_id {
            Some(b) => Some(b),
            None => wallet_batch,
        };
        let meta = match params.meta {
            Some(m) => m,
            None => Vec::new(),
        };
        let a = Atom {
            position,
            wallet_address,
            isotope: params.isotope,
            token,
            value,
            batch_id,
            meta_type: params.meta_type,
            meta_id: params.meta_id,
            meta,
            index: None,
            ots_fragment: None,
            created_at: timestamp_text(),
            version: None,
        };
        assert(pv.meta is None ==> metas_view(a.meta@) =~= Seq::empty());
        a
    }
}

impl Clone for Atom {
    fn clone(&self) -> (a: Self)
        ensures
            a@ == self@,
            a.created_at@ == self.created_at@,
    {
        Atom {
            position: self.position.clone(),
            wallet_address: self.wallet_address.clone(),
            isotope: self.isotope,
            token: self.token.clone(),
            value: copy_opt(&self.value),
            batch_id: copy_opt(&self.batch_id),
            meta_type: copy_opt(&self.meta_type),
            meta_id: copy_opt(&self.meta_id),
            meta: clone_metas(&self.meta),
            index: self.index,
            ots_fragment: copy_opt(&self.ots_fragment),
            created_at: self.created_at.clone(),
            version: copy_opt(&self.version),
        }
    }
}

} // verus!
