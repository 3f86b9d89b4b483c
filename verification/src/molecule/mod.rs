//! Molecules: signed bundles of atoms that the ledger accepts or rejects as a
//! whole. This module composes them.

pub mod builder;
pub mod json_form;
pub mod normalize;

use vstd::prelude::*;
use vstd::string::StrSliceExecFns;
use crate::atom::{Atom, AtomCreateParams, AtomCreateView, AtomView, atoms_view, created_atom, params_on, timestamp_text};
use crate::error::KnishIOError;
use crate::molecule::normalize::{all_in_range, normalize_values, normalized_from};
use crate::numeric::{int_text, string_push};
use crate::response::chars_of;
use crate::text::{opt_view, strings_view};
use crate::types::{Isotope, MetaItem, metas_view};
use crate::keyed::distinct_keys;
use crate::wallet::{Wallet, WalletInfoView, WalletView, copy_opt, info_of};

verus! {

/// A text cut into pieces of `n` characters, the last one possibly shorter;
/// no pieces at all when `n` is zero or the text is empty.
pub open spec fn chunks(s: Seq<char>, n: nat) -> Seq<Seq<char>>
    decreases s.len(),
{
    if n == 0 || s.len() == 0 {
        seq![]
    } else if s.len() <= n {
        seq![s]
    } else {
        seq![s.take(n as int)] + chunks(s.skip(n as int), n)
    }
}

/// The pieces of a text, joined in order, give the text back; every piece but
/// the last holds `n` characters, and the last holds between one and `n`.
pub proof fn law_chunks(s: Seq<char>, n: nat)
    requires
        n > 0,
    ensures
        chunks(s, n).flatten() == s,
        forall|i: int| 0 <= i < chunks(s, n).len() - 1 ==> (#[trigger] chunks(s, n)[i]).len() == n,
        chunks(s, n).len() > 0 ==> 0 < chunks(s, n).last().len() <= n,
        chunks(s, n).len() == 0 <==> s.len() == 0,
    decreases s.len(),
{
    let c = chunks(s, n);
    if s.len() == 0 {
    } else if s.len() <= n {
        assert(c == seq![s]);
        assert(c.drop_first() =~= Seq::<Seq<char>>::empty());
        assert(c.drop_first().flatten() == Seq::<char>::empty());
        assert(c.flatten() == c.first() + c.drop_first().flatten());
        assert(c.flatten() =~= s);
    } else {
        let rest = s.skip(n as int);
        law_chunks(rest, n);
        let cr = chunks(rest, n);
        assert(c == seq![s.take(n as int)] + cr);
        assert(c.first() == s.take(n as int));
        assert(c.drop_first() =~= cr);
        assert(s.take(n as int) + rest =~= s);
        assert forall|i: int| 0 <= i < c.len() - 1 implies (#[trigger] c[i]).len() == n by {
            if i > 0 {
                assert(c[i] == cr[i - 1]);
            }
        }
        assert(c.last() == cr.last());
    }
}

/// Cut a text into pieces of `chunk_size` characters, the last one possibly shorter.
pub fn chunk_string(s: &str, chunk_size: usize) -> (r: Vec<String>)
    ensures
        strings_view(r@) == chunks(s@, chunk_size as nat),
{
    let mut r: Vec<String> = Vec::new();
    if chunk_size == 0 {
        assert(strings_view(r@) =~= Seq::<Seq<char>>::empty());
        return r;
    }
    let cs = chars_of(s);
    let n: usize = cs.len();
    let mut i: usize = 0;
    assert(cs@.skip(0) =~= cs@);
    assert(strings_view(r@) =~= Seq::<Seq<char>>::empty());
    assert(strings_view(r@) + chunks(cs@.skip(0), chunk_size as nat) =~= chunks(cs@, chunk_size as nat));
    while i < n
        invariant
            chunk_size > 0,
            n == cs@.len(),
            cs@ == s@,
            i <= n,
            strings_view(r@) + chunks(cs@.skip(i as int), chunk_size as nat) == chunks(cs@, chunk_size as nat),
        decreases n - i,
    {
        let end: usize = if n - i <= chunk_size { n } else { i + chunk_size };
        let mut piece = String::new();
        let mut j: usize = i;
        while j < end
            invariant
                i <= j <= end <= n,
                n == cs@.len(),
                piece@ == cs@.subrange(i as int, j as int),
            decreases end - j,
        {
            string_push(&mut piece, cs[j]);
            assert(piece@ =~= cs@.subrange(i as int, j + 1));
            j = j + 1;
        }
        proof {
            let rest = cs@.skip(i as int);
            if n - i <= chunk_size {
                assert(rest =~= cs@.subrange(i as int, n as int));
                assert(cs@.skip(end as int) =~= Seq::<char>::empty());
                assert(chunks(rest, chunk_size as nat) == seq![rest]);
            } else {
                assert(rest.take(chunk_size as int) =~= cs@.subrange(i as int, end as int));
                assert(rest.skip(chunk_size as int) =~= cs@.skip(end as int));
            }
        }
        let ghost before = r@;
        r.push(piece);
        assert(strings_view(r@) =~= strings_view(before).push(cs@.subrange(i as int, end as int)));
        assert(strings_view(r@) + chunks(cs@.skip(end as int), chunk_size as nat)
            =~= strings_view(before) + chunks(cs@.skip(i as int), chunk_size as nat));
        i = end;
    }
    assert(cs@.skip(i as int) =~= Seq::<char>::empty());
    assert(strings_view(r@) + chunks(cs@.skip(i as int), chunk_size as nat) =~= strings_view(r@));
    r
}

/// A molecular transaction: atoms that act on wallets, with the context
/// needed to sign them.
#[derive(Debug)]
pub struct Molecule {
    /// Molecular hash computed from the atoms
    pub molecular_hash: Option<String>,
    /// Bundle hash of the signer
    pub bundle: Option<String>,
    /// Creation time, in milliseconds since the epoch, as decimal text
    pub created_at: String,
    /// Status reported by the ledger
    pub status: Option<String>,
    /// Cell slug for sharding
    pub cell_slug: Option<String>,
    /// Cell slug the molecule was created with
    pub cell_slug_origin: Option<String>,
    /// Version identifier
    pub version: Option<String>,
    /// Atoms of the molecule, in order
    pub atoms: Vec<Atom>,
    /// Secret to sign with
    pub secret: Option<String>,
    /// Wallet the tokens come from
    pub source_wallet: Option<Wallet>,
    /// Wallet that receives the change
    pub remainder_wallet: Option<Wallet>,
    /// Hashes of the parent molecules in the DAG
    pub parent_hashes: Vec<String>,
}

/// An atom's content once a molecule has taken it at position `i`: indexed,
/// and carrying the molecule's version when the molecule has one.
pub open spec fn indexed(a: AtomView, i: int, version: Option<Seq<char>>) -> AtomView {
    AtomView {
        index: Some(i as u32),
        version: match version {
            Some(v) => Some(v),
            None => a.version,
        },
        ..a
    }
}

/// Atoms taken in order from position `start` on.
pub open spec fn indexed_from(atoms: Seq<AtomView>, start: int, version: Option<Seq<char>>) -> Seq<AtomView> {
    Seq::new(atoms.len(), |i: int| indexed(atoms[i], start + i, version))
}

/// Every field but the atoms and the molecular hash is the same.
pub open spec fn others_unchanged(a: Molecule, b: Molecule) -> bool {
    &&& b.bundle == a.bundle
    &&& b.created_at == a.created_at
    &&& b.status == a.status
    &&& b.cell_slug == a.cell_slug
    &&& b.cell_slug_origin == a.cell_slug_origin
    &&& b.version == a.version
    &&& b.secret == a.secret
    &&& b.source_wallet == a.source_wallet
    &&& b.remainder_wallet == a.remainder_wallet
    &&& b.parent_hashes == a.parent_hashes
}

/// `b` is `a` with the given atoms appended in order; the atoms of `a` stay
/// as they were, and appending any atom clears the molecular hash.
pub open spec fn appended(a: Molecule, b: Molecule, added: Seq<AtomView>) -> bool {
    &&& others_unchanged(a, b)
    &&& a.atoms@.len() <= b.atoms@.len()
    &&& b.atoms@.subrange(0, a.atoms@.len() as int) == a.atoms@
    &&& atoms_view(b.atoms@) == atoms_view(a.atoms@) + indexed_from(added, a.atoms@.len() as int, opt_view(a.version))
    &&& if added.len() == 0 {
        b.molecular_hash == a.molecular_hash
    } else {
        b.molecular_hash is None
    }
}

/// Appending in two steps appends the concatenation.
pub proof fn lemma_appended_trans(a: Molecule, b: Molecule, c: Molecule, s1: Seq<AtomView>, s2: Seq<AtomView>)
    requires
        appended(a, b, s1),
        appended(b, c, s2),
    ensures
        appended(a, c, s1 + s2),
{
    assert(b.atoms@.len() == a.atoms@.len() + s1.len()) by {
        assert(atoms_view(b.atoms@).len() == b.atoms@.len());
        assert(atoms_view(a.atoms@).len() == a.atoms@.len());
    }
    let i1 = indexed_from(s1, a.atoms@.len() as int, opt_view(a.version));
    let i2 = indexed_from(s2, b.atoms@.len() as int, opt_view(b.version));
    assert(i1 + i2 =~= indexed_from(s1 + s2, a.atoms@.len() as int, opt_view(a.version)));
    assert(atoms_view(c.atoms@) =~= atoms_view(a.atoms@) + (i1 + i2));
    assert((s1 + s2).len() == 0 <==> (s1.len() == 0 && s2.len() == 0));
    assert(c.atoms@.subrange(0, a.atoms@.len() as int) =~= b.atoms@.subrange(0, a.atoms@.len() as int)) by {
        assert forall|i: int| 0 <= i < a.atoms@.len() implies c.atoms@[i] == b.atoms@[i] by {
            assert(c.atoms@.subrange(0, b.atoms@.len() as int)[i] == b.atoms@[i]);
        }
    }
}

/// Nothing appended.
pub proof fn lemma_appended_refl(a: Molecule)
    ensures
        appended(a, a, Seq::empty()),
{
    assert(atoms_view(a.atoms@) + indexed_from(Seq::empty(), a.atoms@.len() as int, opt_view(a.version)) =~= atoms_view(a.atoms@));
    assert(a.atoms@.subrange(0, a.atoms@.len() as int) =~= a.atoms@);
}

/// An atom's content with its creation time: all that it holds.
pub open spec fn atom_record(a: Atom) -> (AtomView, Seq<char>) {
    (a@, a.created_at@)
}

/// The records of a list of atoms.
pub open spec fn atom_records(s: Seq<Atom>) -> Seq<(AtomView, Seq<char>)> {
    s.map_values(|a: Atom| atom_record(a))
}

/// The records whose atom's isotope is one of `isotopes`, in order.
pub open spec fn filter_isotope_records(isotopes: Seq<Isotope>, records: Seq<(AtomView, Seq<char>)>) -> Seq<(AtomView, Seq<char>)> {
    records.filter(|p: (AtomView, Seq<char>)| isotopes.contains(p.0.isotope))
}

/// The atoms of `atoms` whose isotope is one of `isotopes`, in order.
pub open spec fn filter_isotopes(isotopes: Seq<Isotope>, atoms: Seq<AtomView>) -> Seq<AtomView> {
    atoms.filter(|a: AtomView| isotopes.contains(a.isotope))
}

/// Enumerated values lie in -8..=8, one at most per character.
pub proof fn lemma_enumerated_in_range(s: Seq<char>)
    ensures
        all_in_range(enumerated(s)),
        enumerated(s).len() <= s.len(),
    decreases s.len(),
{
    if s.len() > 0 {
        lemma_enumerated_in_range(s.drop_last());
    }
}

/// The value of a hash character in the base-17 notation of one-time
/// signatures ('0'..'9', 'a'..'g', either case, map to -8..8); none for any
/// other character.
pub open spec fn base17_value(c: char) -> Option<i8> {
    match c {
        '0' => Some(-8i8),
        '1' => Some(-7i8),
        '2' => Some(-6i8),
        '3' => Some(-5i8),
        '4' => Some(-4i8),
        '5' => Some(-3i8),
        '6' => Some(-2i8),
        '7' => Some(-1i8),
        '8' => Some(0i8),
        '9' => Some(1i8),
        'a' | 'A' => Some(2i8),
        'b' | 'B' => Some(3i8),
        'c' | 'C' => Some(4i8),
        'd' | 'D' => Some(5i8),
        'e' | 'E' => Some(6i8),
        'f' | 'F' => Some(7i8),
        'g' | 'G' => Some(8i8),
        _ => None,
    }
}

/// A digit of base 17: `0`..`9` and `a`..`g`, in either case.
pub open spec fn base17_digit(c: char) -> bool {
    ||| '0' <= c <= '9'
    ||| 'a' <= c <= 'g'
    ||| 'A' <= c <= 'G'
}

/// The value of a base-17 digit, shifted to -8..8: the digit's rank among
/// `0`..`9`, `a`..`g` less 8.
pub open spec fn digit_rank_value(c: char) -> int {
    if '0' <= c <= '9' {
        c as int - '0' as int - 8
    } else if 'a' <= c <= 'g' {
        c as int - 'a' as int + 2
    } else {
        c as int - 'A' as int + 2
    }
}

/// Every base-17 digit has a value, its rank less 8 (`0` is -8, `9` is 1,
/// `a` is 2, `g` is 8, in either case), and no other character has one.
pub proof fn law_base17_digits(c: char)
    ensures
        base17_digit(c) ==> base17_value(c) == Some(digit_rank_value(c) as i8),
        !base17_digit(c) ==> base17_value(c) is None,
{
}

/// A hash made of base-17 digits enumerates to one value per character, each
/// the digit's rank less 8.
pub proof fn law_enumerate_digits(s: Seq<char>)
    requires
        forall|i: int| 0 <= i < s.len() ==> base17_digit(#[trigger] s[i]),
    ensures
        enumerated(s).len() == s.len(),
        forall|i: int| 0 <= i < s.len() ==> enumerated(s)[i] == digit_rank_value(#[trigger] s[i]),
    decreases s.len(),
{
    if s.len() > 0 {
        let d = s.drop_last();
        assert forall|i: int| 0 <= i < d.len() implies base17_digit(#[trigger] d[i]) by {
            assert(d[i] == s[i]);
        }
        law_enumerate_digits(d);
        law_base17_digits(s.last());
        assert forall|i: int| 0 <= i < s.len() implies enumerated(s)[i] == digit_rank_value(#[trigger] s[i]) by {
            if i < s.len() - 1 {
                assert(d[i] == s[i]);
            }
        }
    }
}

/// The base-17 values of a hash's characters, skipping characters outside the
/// notation.
pub open spec fn enumerated(s: Seq<char>) -> Seq<i8>
    decreases s.len(),
{
    if s.len() == 0 {
        Seq::empty()
    } else {
        let rest = enumerated(s.drop_last());
        match base17_value(s.last()) {
            Some(v) => rest.push(v),
            None => rest,
        }
    }
}

/// The view of an optional wallet.
pub open spec fn opt_wallet(w: Option<Wallet>) -> Option<crate::wallet::WalletView> {
    match w {
        Some(w) => Some(w@),
        None => None,
    }
}

/// Parameters of an atom on a wallet that records a value and the bundle it
/// belongs to.
pub open spec fn bundle_value_on(isotope: Isotope, w: crate::wallet::WalletView, value: int, bundle: Option<Seq<char>>) -> AtomCreateView {
    AtomCreateView {
        value: Some(value),
        meta_type: Some("walletBundle"@),
        meta_id: bundle,
        ..params_on(isotope, info_of(w))
    }
}

/// Parameters of an atom on a wallet that records a value only.
pub open spec fn value_on(isotope: Isotope, w: crate::wallet::WalletView, value: int) -> AtomCreateView {
    AtomCreateView { value: Some(value), ..params_on(isotope, info_of(w)) }
}

/// The atoms created from a list of parameters, in order.
pub open spec fn created_atoms(ps: Seq<AtomCreateView>) -> Seq<AtomView> {
    ps.map_values(|p: AtomCreateView| created_atom(p))
}

/// The ContinuID atom on the remainder wallet, when there is one: an identity
/// atom that names the remainder's bundle.
pub open spec fn continuid_params(remainder: Option<crate::wallet::WalletView>) -> Seq<AtomCreateView> {
    match remainder {
        Some(r) => seq![AtomCreateView {
            meta_type: Some("walletBundle"@),
            meta_id: r.bundle,
            ..params_on(Isotope::I, info_of(r))
        }],
        None => seq![],
    }
}

/// The change atom on the remainder wallet, when there is one.
pub open spec fn remainder_params(isotope: Isotope, remainder: Option<crate::wallet::WalletView>, value: int, bundle_of_source: Option<Seq<char>>, use_source_bundle: bool) -> Seq<AtomCreateView> {
    match remainder {
        Some(r) => seq![bundle_value_on(isotope, r, value, if use_source_bundle { bundle_of_source } else { r.bundle })],
        None => seq![],
    }
}

/// The atoms of a value transfer of `amount` from `source` to `recipient`: the
/// source is debited `amount`, the recipient receives `amount`, and the
/// remainder wallet, if any, receives what the source holds beyond `amount`.
pub open spec fn value_transfer_params(
    source: crate::wallet::WalletView,
    remainder: Option<crate::wallet::WalletView>,
    recipient: crate::wallet::WalletView,
    amount: int,
) -> Seq<AtomCreateView> {
    seq![value_on(Isotope::V, source, -amount), bundle_value_on(Isotope::V, recipient, amount, recipient.bundle)]
        + remainder_params(Isotope::V, remainder, source.balance - amount, None, false)
}

/// The sum of the values of a list of atom parameters (absent values count 0).
pub open spec fn value_sum(ps: Seq<AtomCreateView>) -> int
    decreases ps.len(),
{
    if ps.len() == 0 {
        0
    } else {
        value_sum(ps.drop_last()) + match ps.last().value {
            Some(v) => v,
            None => 0,
        }
    }
}

/// In a value transfer the source's debit and the recipient's credit cancel:
/// without a remainder wallet, the values of the transfer's atoms sum to zero.
pub proof fn law_value_transfer_conserves(
    source: crate::wallet::WalletView,
    recipient: crate::wallet::WalletView,
    amount: int,
)
    ensures
        value_sum(value_transfer_params(source, None, recipient, amount)) == 0,
{
    let ps = value_transfer_params(source, None, recipient, amount);
    assert(ps =~= seq![value_on(Isotope::V, source, -amount), bundle_value_on(Isotope::V, recipient, amount, recipient.bundle)]);
    assert(ps.drop_last().drop_last() =~= Seq::<AtomCreateView>::empty());
    reveal_with_fuel(value_sum, 3);
}

/// With a remainder wallet, the remainder is credited what the source holds
/// beyond the amount, so the values of the transfer's atoms sum to that.
pub proof fn law_value_transfer_remainder(
    source: crate::wallet::WalletView,
    remainder: crate::wallet::WalletView,
    recipient: crate::wallet::WalletView,
    amount: int,
)
    ensures
        value_sum(value_transfer_params(source, Some(remainder), recipient, amount)) == source.balance - amount,
{
    let ps = value_transfer_params(source, Some(remainder), recipient, amount);
    assert(ps.len() == 3);
    assert(ps.drop_last().drop_last().drop_last() =~= Seq::<AtomCreateView>::empty());
    reveal_with_fuel(value_sum, 4);
}

/// The metadata atom of `init_meta`.
pub open spec fn meta_params(s: WalletView, meta_type: Seq<char>, meta_id: Seq<char>, meta: Seq<(Seq<char>, Seq<char>)>) -> AtomCreateView {
    AtomCreateView { meta_type: Some(meta_type), meta_id: Some(meta_id), meta: Some(meta), ..params_on(Isotope::M, info_of(s)) }
}

/// The authorization atom of `init_authorization`.
pub open spec fn authorization_params(s: WalletView, meta: Seq<(Seq<char>, Seq<char>)>) -> AtomCreateView {
    AtomCreateView { meta: Some(meta), ..params_on(Isotope::U, info_of(s)) }
}

/// The identifier atom of `init_identifier_creation`.
pub open spec fn identifier_params(s: WalletView, identifier_type: Seq<char>, contact: Seq<char>, code: Seq<char>) -> AtomCreateView {
    AtomCreateView {
        meta_type: Some("identifier"@),
        meta_id: Some(identifier_type),
        meta: Some(seq![("contact"@, contact), ("code"@, code)]),
        ..params_on(Isotope::C, info_of(s))
    }
}

/// The wallet-creation atom of `init_wallet_creation`.
pub open spec fn wallet_creation_params(w: WalletView, meta: Seq<(Seq<char>, Seq<char>)>) -> AtomCreateView {
    AtomCreateView { meta_type: Some("wallet"@), meta_id: w.bundle, meta: Some(meta), ..params_on(Isotope::C, info_of(w)) }
}

/// The rule atom of `create_rule`.
pub open spec fn rule_params(s: WalletView, meta_type: Seq<char>, meta_id: Seq<char>, rule: Seq<char>) -> AtomCreateView {
    AtomCreateView {
        meta_type: Some(meta_type),
        meta_id: Some(meta_id),
        meta: Some(seq![("rule"@, rule)]),
        ..params_on(Isotope::R, info_of(s))
    }
}

/// The policy atom of `add_policy_atom`, on the policy wallet.
pub open spec fn policy_params(w: WalletView, meta_type: Seq<char>, meta_id: Seq<char>, meta: Seq<(Seq<char>, Seq<char>)>) -> AtomCreateView {
    AtomCreateView { meta_type: Some(meta_type), meta_id: Some(meta_id), meta: Some(meta), ..params_on(Isotope::R, info_of(w)) }
}

/// The token-creation atom of `init_token_creation`.
pub open spec fn token_creation_params(s: WalletView, recipient: WalletView, amount: int, meta: Seq<(Seq<char>, Seq<char>)>) -> AtomCreateView {
    AtomCreateView {
        value: Some(amount),
        meta_type: Some("token"@),
        meta_id: Some(recipient.token),
        meta: Some(meta),
        batch_id: recipient.batch_id,
        ..params_on(Isotope::C, info_of(s))
    }
}

/// The token-request atom of `init_token_request`: on the source wallet's
/// position, for the requested token.
pub open spec fn token_request_params(
    s: WalletView,
    token: Seq<char>,
    amount: int,
    meta_type: Seq<char>,
    meta_id: Seq<char>,
    meta: Seq<(Seq<char>, Seq<char>)>,
    batch_id: Option<Seq<char>>,
) -> AtomCreateView {
    AtomCreateView {
        wallet_info: Some(WalletInfoView { token, ..info_of(s) }),
        value: Some(amount),
        meta_type: Some(meta_type),
        meta_id: Some(meta_id),
        meta: Some(meta),
        batch_id,
        ..params_on(Isotope::T, info_of(s))
    }
}

/// The atoms of a shadow-wallet claim: the claimed wallet's balance, and the
/// remainder wallet's balance when there is one.
pub open spec fn shadow_claim_params(w: WalletView, remainder: Option<WalletView>) -> Seq<AtomCreateView> {
    seq![value_on(Isotope::V, w, w.balance)] + match remainder {
        Some(r) => seq![bundle_value_on(Isotope::V, r, r.balance, r.bundle)],
        None => seq![],
    }
}

/// The atoms of burning `amount`: taken from the source, the rest of the
/// balance to the remainder wallet when there is one.
pub open spec fn burn_params(s: WalletView, remainder: Option<WalletView>, amount: int) -> Seq<AtomCreateView> {
    seq![value_on(Isotope::V, s, -amount)] + remainder_params(Isotope::V, remainder, s.balance - amount, None, false)
}

/// Burning takes `amount` from the source and credits the remainder wallet
/// (when there is one) with what the source holds beyond `amount`, so no
/// burnt token comes back as change: with a remainder wallet the two values
/// sum to the balance less twice the amount, without one to minus the amount.
pub proof fn law_burn_values(s: WalletView, remainder: Option<WalletView>, amount: int)
    ensures
        burn_params(s, remainder, amount).len() >= 1,
        burn_params(s, remainder, amount)[0].value == Some(-amount),
        burn_params(s, remainder, amount)[0].wallet_info == Some(info_of(s)),
        remainder is None ==> burn_params(s, remainder, amount).len() == 1
            && value_sum(burn_params(s, remainder, amount)) == -amount,
        remainder matches Some(r) ==> {
            &&& burn_params(s, remainder, amount).len() == 2
            &&& burn_params(s, remainder, amount)[1].value == Some(s.balance - amount)
            &&& burn_params(s, remainder, amount)[1].wallet_info == Some(info_of(r))
            &&& value_sum(burn_params(s, remainder, amount)) == s.balance - 2 * amount
        },
{
    let ps = burn_params(s, remainder, amount);
    reveal_with_fuel(value_sum, 3);
    match remainder {
        Some(r) => {
            assert(ps.drop_last() =~= seq![value_on(Isotope::V, s, -amount)]);
            assert(ps.drop_last().drop_last() =~= Seq::<AtomCreateView>::empty());
        },
        None => {
            assert(ps.drop_last() =~= Seq::<AtomCreateView>::empty());
        },
    }
}

/// The atoms of fusing `n` token units into one fused token for `recipient`.
pub open spec fn fuse_params(s: WalletView, remainder: Option<WalletView>, recipient: WalletView, n: int) -> Seq<AtomCreateView> {
    seq![value_on(Isotope::V, s, -n), bundle_value_on(Isotope::F, recipient, 1, recipient.bundle)]
        + remainder_params(Isotope::V, remainder, s.balance - n, None, false)
}

/// The atoms of depositing `amount` into a buffer wallet: taken from the
/// source, put in the buffer (which holds the source's token) under the
/// source's bundle, and the rest to the remainder wallet (also under the
/// source's bundle) when there is one.
pub open spec fn deposit_buffer_params(s: WalletView, remainder: Option<WalletView>, buffer: WalletView, amount: int) -> Seq<AtomCreateView> {
    seq![value_on(Isotope::V, s, -amount), bundle_value_on(Isotope::B, WalletView { token: s.token, ..buffer }, amount, s.bundle)]
        + remainder_params(Isotope::V, remainder, s.balance - amount, s.bundle, true)
}

/// The atom that credits one recipient of a buffer withdrawal: no wallet, the
/// source's token and batch, the recipient's bundle.
pub open spec fn withdraw_recipient_params(s: WalletView, recipient: (Seq<char>, int)) -> AtomCreateView {
    AtomCreateView {
        isotope: Isotope::V,
        wallet_info: None,
        token: Some(s.token),
        value: Some(recipient.1),
        batch_id: s.batch_id,
        meta_type: Some("walletBundle"@),
        meta_id: Some(recipient.0),
        meta: None,
    }
}

/// The total amount of a list of recipients.
pub open spec fn recipients_total(rs: Seq<(Seq<char>, int)>) -> int
    decreases rs.len(),
{
    if rs.len() == 0 {
        0
    } else {
        recipients_total(rs.drop_last()) + rs.last().1
    }
}

/// The atoms of withdrawing from a buffer wallet to several recipients.
pub open spec fn withdraw_buffer_params(s: WalletView, remainder: Option<WalletView>, rs: Seq<(Seq<char>, int)>) -> Seq<AtomCreateView> {
    seq![bundle_value_on(Isotope::B, s, -recipients_total(rs), s.bundle)]
        + rs.map_values(|r: (Seq<char>, int)| withdraw_recipient_params(s, r))
        + remainder_params(Isotope::B, remainder, s.balance - recipients_total(rs), None, false)
}

/// A value transfer takes `amount` from the source's own wallet, gives
/// `amount` to the recipient's wallet, and gives the remainder wallet (when
/// there is one) what the source holds beyond `amount`.
pub proof fn law_value_transfer_parties(s: WalletView, remainder: Option<WalletView>, recipient: WalletView, amount: int)
    ensures
        ({
            let ps = value_transfer_params(s, remainder, recipient, amount);
            &&& ps.len() == if remainder is Some { 3int } else { 2int }
            &&& ps[0].wallet_info == Some(info_of(s)) && ps[0].value == Some(-amount)
            &&& ps[1].wallet_info == Some(info_of(recipient)) && ps[1].value == Some(amount)
            &&& remainder matches Some(r) ==> ps[2].wallet_info == Some(info_of(r)) && ps[2].value == Some(
                s.balance - amount,
            )
        }),
{
}

/// Fusing takes `n` units from the source's own wallet, gives one fused
/// token to the recipient's wallet, and gives the remainder wallet (when
/// there is one) what the source holds beyond the `n` units.
pub proof fn law_fuse_parties(s: WalletView, remainder: Option<WalletView>, recipient: WalletView, n: int)
    ensures
        ({
            let ps = fuse_params(s, remainder, recipient, n);
            &&& ps.len() == if remainder is Some { 3int } else { 2int }
            &&& ps[0].wallet_info == Some(info_of(s)) && ps[0].value == Some(-n) && ps[0].isotope == Isotope::V
            &&& ps[1].wallet_info == Some(info_of(recipient)) && ps[1].value == Some(1int) && ps[1].isotope
                == Isotope::F
            &&& remainder matches Some(r) ==> ps[2].wallet_info == Some(info_of(r)) && ps[2].value == Some(s.balance - n)
        }),
{
}

/// Depositing into a buffer takes `amount` from the source's own wallet, puts
/// `amount` of the source's token on the buffer wallet's position and
/// address under the source's bundle, and gives the remainder wallet (when
/// there is one) what the source holds beyond `amount`.
pub proof fn law_deposit_buffer_parties(s: WalletView, remainder: Option<WalletView>, buffer: WalletView, amount: int)
    ensures
        ({
            let ps = deposit_buffer_params(s, remainder, buffer, amount);
            &&& ps.len() == if remainder is Some { 3int } else { 2int }
            &&& ps[0].wallet_info == Some(info_of(s)) && ps[0].value == Some(-amount)
            &&& ps[1].isotope == Isotope::B && ps[1].value == Some(amount) && ps[1].meta_id == s.bundle
            &&& ps[1].wallet_info matches Some(w) && w.position == info_of(buffer).position && w.address
                == info_of(buffer).address && w.token == s.token
            &&& remainder matches Some(r) ==> ps[2].wallet_info == Some(info_of(r)) && ps[2].value == Some(
                s.balance - amount,
            )
        }),
{
}

/// Withdrawing from a buffer takes the recipients' total from the source's
/// own wallet, gives each recipient its amount in the source's token under
/// its bundle, in order, and gives the remainder wallet (when there is one)
/// what the source holds beyond the total.
pub proof fn law_withdraw_buffer_parties(s: WalletView, remainder: Option<WalletView>, rs: Seq<(Seq<char>, int)>)
    ensures
        ({
            let ps = withdraw_buffer_params(s, remainder, rs);
            &&& ps.len() == 1 + rs.len() + if remainder is Some { 1int } else { 0int }
            &&& ps[0].wallet_info == Some(info_of(s)) && ps[0].value == Some(-recipients_total(rs))
            &&& forall|i: int|
                0 <= i < rs.len() ==> (#[trigger] ps[1 + i]).value == Some(rs[i].1) && ps[1 + i].meta_id == Some(
                    rs[i].0,
                ) && ps[1 + i].token == Some(s.token)
            &&& remainder matches Some(r) ==> ps[1 + rs.len() as int].wallet_info == Some(info_of(r)) && ps[1
                + rs.len() as int].value == Some(s.balance - recipients_total(rs))
        }),
{
    let ps = withdraw_buffer_params(s, remainder, rs);
    let head = seq![bundle_value_on(Isotope::B, s, -recipients_total(rs), s.bundle)];
    let mid = rs.map_values(|r: (Seq<char>, int)| withdraw_recipient_params(s, r));
    assert forall|i: int| 0 <= i < rs.len() implies (#[trigger] ps[1 + i]).value == Some(rs[i].1) && ps[1
        + i].meta_id == Some(rs[i].0) && ps[1 + i].token == Some(s.token) by {
        assert(ps[1 + i] == mid[i]);
    }
    if remainder is Some {
        assert(ps[1 + rs.len() as int] == remainder_params(Isotope::B, remainder, s.balance - recipients_total(rs), None, false)[0]);
    }
}

/// The recipients of a withdrawal, by bundle characters and amount.
pub open spec fn recipients_view(rs: Seq<(String, i64)>) -> Seq<(Seq<char>, int)> {
    rs.map_values(|r: (String, i64)| (r.0@, r.1 as int))
}

fn base17(c: char) -> (r: Option<i8>)
    ensures
        r == base17_value(c),
{
    match c {
        '0' => Some(-8),
        '1' => Some(-7),
        '2' => Some(-6),
        '3' => Some(-5),
        '4' => Some(-4),
        '5' => Some(-3),
        '6' => Some(-2),
        '7' => Some(-1),
        '8' => Some(0),
        '9' => Some(1),
        'a' | 'A' => Some(2),
        'b' | 'B' => Some(3),
        'c' | 'C' => Some(4),
        'd' | 'D' => Some(5),
        'e' | 'E' => Some(6),
        'f' | 'F' => Some(7),
        'g' | 'G' => Some(8),
        _ => None,
    }
}

fn on_wallet(isotope: Isotope, w: &Wallet) -> (p: AtomCreateParams)
    ensures
        p@ == params_on(isotope, info_of(w@)),
{
    AtomCreateParams {
        isotope,
        wallet_info: Some(w.info()),
        token: None,
        value: None,
        batch_id: None,
        meta_type: None,
        meta_id: None,
        meta: None,
    }
}

fn bundle_value(isotope: Isotope, w: &Wallet, value: i128, bundle: &Option<String>) -> (p: AtomCreateParams)
    ensures
        p@ == bundle_value_on(isotope, w@, value as int, opt_view(*bundle)),
{
    let mut p = on_wallet(isotope, w);
    p.value = Some(value);
    p.meta_type = Some("walletBundle".to_owned());
    p.meta_id = copy_opt(bundle);
    p
}

fn value_params(isotope: Isotope, w: &Wallet, value: i128) -> (p: AtomCreateParams)
    ensures
        p@ == value_on(isotope, w@, value as int),
{
    let mut p = on_wallet(isotope, w);
    p.value = Some(value);
    p
}

fn clone_opt_wallet(w: &Option<Wallet>) -> (r: Option<Wallet>)
    ensures
        opt_wallet(r) == opt_wallet(*w),
{
    match w {
        Some(w) => Some(w.clone()),
        None => None,
    }
}

impl Molecule {
    /// An empty molecule created now.
    pub fn new() -> (m: Self)
        ensures
            m.molecular_hash is None,
            m.bundle is None,
            m.status is None,
            m.cell_slug is None,
            m.cell_slug_origin is None,
            m.version is None,
            m.atoms@.len() == 0,
            m.secret is None,
            m.source_wallet is None,
            m.remainder_wallet is None,
            m.parent_hashes@.len() == 0,
            exists|t: i64| m.created_at@ == #[trigger] int_text(t as int),
    {
        Molecule {
            molecular_hash: None,
            bundle: None,
            created_at: timestamp_text(),
            status: None,
            cell_slug: None,
            cell_slug_origin: None,
            version: None,
            atoms: Vec::new(),
            secret: None,
            source_wallet: None,
            remainder_wallet: None,
            parent_hashes: Vec::new(),
        }
    }

    /// An empty molecule created now with the given signing context; the cell
    /// slug is also recorded as the original one.
    pub fn with_params(
        secret: Option<String>,
        bundle: Option<String>,
        source_wallet: Option<Wallet>,
        remainder_wallet: Option<Wallet>,
        cell_slug: Option<String>,
        version: Option<String>,
    ) -> (m: Self)
        ensures
            m.molecular_hash is None,
            m.bundle == bundle,
            m.status is None,
            m.cell_slug == cell_slug,
            opt_view(m.cell_slug_origin) == opt_view(cell_slug),
            m.version == version,
            m.atoms@.len() == 0,
            m.secret == secret,
            m.source_wallet == source_wallet,
            m.remainder_wallet == remainder_wallet,
            m.parent_hashes@.len() == 0,
    {
        let origin = copy_opt(&cell_slug);
        Molecule {
            molecular_hash: None,
            bundle,
            created_at: timestamp_text(),
            status: None,
            cell_slug,
            cell_slug_origin: origin,
            version,
            atoms: Vec::new(),
            secret,
            source_wallet,
            remainder_wallet,
            parent_hashes: Vec::new(),
        }
    }

    /// The index the next atom will take: the number of atoms.
    pub fn generate_next_atom_index(atoms: &[Atom]) -> (r: u32)
        ensures
            r == atoms@.len() as u32,
    {
        atoms.len() as u32
    }

    /// The index the next atom of this molecule will take.
    pub fn generate_index(&self) -> (r: u32)
        ensures
            r == self.atoms@.len() as u32,
    {
        Self::generate_next_atom_index(self.atoms.as_slice())
    }

    /// Append an atom: it takes the next index and the molecule's version (when
    /// there is one), and the molecular hash is cleared.
    pub fn add_atom(&mut self, atom: Atom)
        ensures
            appended(*old(self), *final(self), seq![atom@]),
    {
        let ghost prior = *self;
        let ghost orig = atom@;
        self.molecular_hash = None;
        let mut atom = atom;
        atom.index = Some(self.generate_index());
        match &self.version {
            Some(v) => {
                atom.version = Some(v.clone());
            },
            None => {},
        }
        let ghost av = atom@;
        self.atoms.push(atom);
        assert(atoms_view(self.atoms@) =~= atoms_view(prior.atoms@) + indexed_from(seq![orig], prior.atoms@.len() as int, opt_view(prior.version)));
        assert(self.atoms@.subrange(0, prior.atoms@.len() as int) =~= prior.atoms@);
    }

    fn push_created(&mut self, params: AtomCreateParams, Ghost(prior): Ghost<Molecule>, Ghost(ps): Ghost<Seq<AtomCreateView>>)
        requires
            appended(prior, *old(self), created_atoms(ps)),
            params.value matches Some(v) ==> v > i128::MIN,
        ensures
            appended(prior, *final(self), created_atoms(ps.push(params@))),
    {
        let ghost pv = params@;
        let ghost before = *self;
        let atom = Atom::create(params);
        self.add_atom(atom);
        proof {
            lemma_appended_trans(prior, before, *self, created_atoms(ps), seq![created_atom(pv)]);
            assert(created_atoms(ps) + seq![created_atom(pv)] =~= created_atoms(ps.push(pv)));
        }
    }

    fn push_continuid(&mut self, Ghost(prior): Ghost<Molecule>, Ghost(ps): Ghost<Seq<AtomCreateView>>)
        requires
            appended(prior, *old(self), created_atoms(ps)),
        ensures
            appended(prior, *final(self), created_atoms(ps + continuid_params(opt_wallet(old(self).remainder_wallet)))),
    {
        let ghost cps = continuid_params(opt_wallet(self.remainder_wallet));
        let info = match &self.remainder_wallet {
            Some(w) => Some((w.info(), copy_opt(&w.bundle))),
            None => None,
        };
        match info {
            Some((info, bundle)) => {
                let params = AtomCreateParams {
                    isotope: Isotope::I,
                    wallet_info: Some(info),
                    token: None,
                    value: None,
                    batch_id: None,
                    meta_type: Some("walletBundle".to_owned()),
                    meta_id: bundle,
                    meta: None,
                };
                self.push_created(params, Ghost(prior), Ghost(ps));
                assert(ps.push(cps[0]) =~= ps + cps);
            },
            None => {
                assert(ps + cps =~= ps);
            },
        }
    }

    /// Append the ContinuID atom: an identity atom on the remainder wallet that
    /// names its bundle. Nothing is appended without a remainder wallet.
    pub fn add_continuid_atom(&mut self) -> (r: Result<(), KnishIOError>)
        ensures
            r is Ok,
            appended(*old(self), *final(self), created_atoms(continuid_params(opt_wallet(old(self).remainder_wallet)))),
    {
        let ghost prior = *self;
        proof {
            lemma_appended_refl(prior);
            assert(created_atoms(Seq::empty()) =~= Seq::<AtomView>::empty());
        }
        self.push_continuid(Ghost(prior), Ghost(Seq::empty()));
        assert(Seq::<AtomCreateView>::empty() + continuid_params(opt_wallet(prior.remainder_wallet)) =~= continuid_params(opt_wallet(prior.remainder_wallet)));
        Ok(())
    }

    fn start(&self) -> (r: Ghost<Molecule>)
        ensures
            r@ == *self,
            appended(*self, *self, created_atoms(Seq::empty())),
    {
        proof {
            lemma_appended_refl(*self);
            assert(created_atoms(Seq::empty()) =~= Seq::<AtomView>::empty());
        }
        Ghost(*self)
    }

    /// Append a value transfer of `amount` to `recipient`: the source wallet
    /// is debited `amount`, the recipient receives `amount` under its bundle,
    /// the remainder wallet (if any) receives what the source holds beyond it. Fails when
    /// the source holds less than `amount`; does nothing without a source
    /// wallet.
    pub fn init_value(&mut self, recipient: &Wallet, amount: i64) -> (r: Result<(), KnishIOError>)
        ensures
            match opt_wallet(old(self).source_wallet) {
                None => r is Ok && appended(*old(self), *final(self), Seq::empty()),
                Some(s) => if s.balance - amount < 0 {
                    r matches Err(KnishIOError::BalanceInsufficient) && *final(self) == *old(self)
                } else {
                    r is Ok && appended(*old(self), *final(self), created_atoms(
                        value_transfer_params(s, opt_wallet(old(self).remainder_wallet), recipient@, amount as int)))
                },
            },
    {
        let Ghost(prior) = self.start();
        let source = clone_opt_wallet(&self.source_wallet);
        let remainder = clone_opt_wallet(&self.remainder_wallet);
        match source {
            None => {
                assert(created_atoms(Seq::empty()) =~= Seq::<AtomView>::empty());
                Ok(())
            },
            Some(s) => {
                if (s.balance as i128) - (amount as i128) < 0 {
                    return Err(KnishIOError::BalanceInsufficient);
                }
                let p1 = value_params(Isotope::V, &s, -(amount as i128));
                self.push_created(p1, Ghost(prior), Ghost(Seq::empty()));
                let ghost ps1 = seq![value_on(Isotope::V, s@, -amount)];
                assert(Seq::<AtomCreateView>::empty().push(value_on(Isotope::V, s@, -amount)) =~= ps1);
                let p2 = bundle_value(Isotope::V, recipient, amount as i128, &recipient.bundle);
                self.push_created(p2, Ghost(prior), Ghost(ps1));
                let ghost ps = seq![value_on(Isotope::V, s@, -amount), bundle_value_on(Isotope::V, recipient@, amount as int, recipient@.bundle)];
                assert(Seq::<AtomCreateView>::empty().push(value_on(Isotope::V, s@, -amount)) =~= seq![value_on(Isotope::V, s@, -amount)]);
                assert(seq![value_on(Isotope::V, s@, -amount)].push(bundle_value_on(Isotope::V, recipient@, amount as int, recipient@.bundle)) =~= ps);
                match remainder {
                    Some(rw) => {
                        let p3 = bundle_value(Isotope::V, &rw, (s.balance as i128) - (amount as i128), &rw.bundle);
                        self.push_created(p3, Ghost(prior), Ghost(ps));
                        assert(ps.push(p3@) =~= value_transfer_params(s@, opt_wallet(prior.remainder_wallet), recipient@, amount as int));
                    },
                    None => {
                        assert(ps =~= value_transfer_params(s@, opt_wallet(prior.remainder_wallet), recipient@, amount as int));
                    },
                }
                Ok(())
            },
        }
    }

    /// Append a metadata atom on the source wallet, then the ContinuID atom.
    /// Does nothing without a source wallet. The policy is not used.
    pub fn init_meta(&mut self, meta: Vec<MetaItem>, meta_type: &str, meta_id: &str, policy: Option<&str>) -> (r: Result<(), KnishIOError>)
        ensures
            r is Ok,
            match opt_wallet(old(self).source_wallet) {
                None => appended(*old(self), *final(self), Seq::empty()),
                Some(s) => appended(*old(self), *final(self), created_atoms(
                    seq![meta_params(s, meta_type@, meta_id@, metas_view(meta@))] + continuid_params(opt_wallet(old(self).remainder_wallet)))),
            },
    {
        let Ghost(prior) = self.start();
        let source = clone_opt_wallet(&self.source_wallet);
        match source {
            None => {
                assert(created_atoms(Seq::empty()) =~= Seq::<AtomView>::empty());
            },
            Some(s) => {
                let mut p = on_wallet(Isotope::M, &s);
                p.meta_type = Some(meta_type.to_owned());
                p.meta_id = Some(meta_id.to_owned());
                p.meta = Some(meta);
                let ghost pv = p@;
                self.push_created(p, Ghost(prior), Ghost(Seq::empty()));
                self.push_continuid(Ghost(prior), Ghost(Seq::empty().push(pv)));
                assert(Seq::<AtomCreateView>::empty().push(pv) =~= seq![pv]);
            },
        }
        Ok(())
    }

    /// Append an authorization atom on the source wallet, then the ContinuID
    /// atom. Does nothing without a source wallet.
    pub fn init_authorization(&mut self, meta: Vec<MetaItem>) -> (r: Result<(), KnishIOError>)
        ensures
            r is Ok,
            match opt_wallet(old(self).source_wallet) {
                None => appended(*old(self), *final(self), Seq::empty()),
                Some(s) => appended(*old(self), *final(self), created_atoms(
                    seq![authorization_params(s, metas_view(meta@))] + continuid_params(opt_wallet(old(self).remainder_wallet)))),
            },
    {
        let Ghost(prior) = self.start();
        let source = clone_opt_wallet(&self.source_wallet);
        match source {
            None => {
                assert(created_atoms(Seq::empty()) =~= Seq::<AtomView>::empty());
            },
            Some(s) => {
                let mut p = on_wallet(Isotope::U, &s);
                p.meta = Some(meta);
                let ghost pv = p@;
                self.push_created(p, Ghost(prior), Ghost(Seq::empty()));
                self.push_continuid(Ghost(prior), Ghost(Seq::empty().push(pv)));
                assert(Seq::<AtomCreateView>::empty().push(pv) =~= seq![pv]);
            },
        }
        Ok(())
    }

    /// Append an identifier-creation atom on the source wallet (its type as
    /// meta ID, the contact and the code as metadata), then the ContinuID
    /// atom. Does nothing without a source wallet.
    pub fn init_identifier_creation(&mut self, identifier_type: &str, contact: &str, code: &str) -> (r: Result<(), KnishIOError>)
        ensures
            r is Ok,
            match opt_wallet(old(self).source_wallet) {
                None => appended(*old(self), *final(self), Seq::empty()),
                Some(s) => appended(*old(self), *final(self), created_atoms(
                    seq![identifier_params(s, identifier_type@, contact@, code@)] + continuid_params(opt_wallet(old(self).remainder_wallet)))),
            },
    {
        let Ghost(prior) = self.start();
        let source = clone_opt_wallet(&self.source_wallet);
        match source {
            None => {
                assert(created_atoms(Seq::empty()) =~= Seq::<AtomView>::empty());
            },
            Some(s) => {
                let mut meta: Vec<MetaItem> = Vec::new();
                meta.push(MetaItem::new("contact", contact));
                meta.push(MetaItem::new("code", code));
                assert(metas_view(meta@) =~= seq![("contact"@, contact@), ("code"@, code@)]);
                let mut p = on_wallet(Isotope::C, &s);
                p.meta_type = Some("identifier".to_owned());
                p.meta_id = Some(identifier_type.to_owned());
                p.meta = Some(meta);
                let ghost pv = p@;
                self.push_created(p, Ghost(prior), Ghost(Seq::empty()));
                self.push_continuid(Ghost(prior), Ghost(Seq::empty().push(pv)));
                assert(Seq::<AtomCreateView>::empty().push(pv) =~= seq![pv]);
            },
        }
        Ok(())
    }

    /// Append a wallet-creation atom on `wallet` (its bundle as meta ID), then
    /// the ContinuID atom.
    pub fn init_wallet_creation(&mut self, wallet: &Wallet, atom_meta: Vec<MetaItem>) -> (r: Result<(), KnishIOError>)
        ensures
            r is Ok,
            appended(*old(self), *final(self), created_atoms(
                seq![wallet_creation_params(wallet@, metas_view(atom_meta@))] + continuid_params(opt_wallet(old(self).remainder_wallet)))),
    {
        let Ghost(prior) = self.start();
        let mut p = on_wallet(Isotope::C, wallet);
        p.meta_type = Some("wallet".to_owned());
        p.meta_id = copy_opt(&wallet.bundle);
        p.meta = Some(atom_meta);
        let ghost pv = p@;
        self.push_created(p, Ghost(prior), Ghost(Seq::empty()));
        self.push_continuid(Ghost(prior), Ghost(Seq::empty().push(pv)));
        assert(Seq::<AtomCreateView>::empty().push(pv) =~= seq![pv]);
        Ok(())
    }

    /// Append a rule atom on the source wallet (the rule text as metadata
    /// under "rule"), then the ContinuID atom. Does nothing without a source
    /// wallet. The policy is not used.
    pub fn create_rule(&mut self, meta_type: &str, meta_id: &str, rule: &str, policy: Option<&str>) -> (r: Result<(), KnishIOError>)
        ensures
            r is Ok,
            match opt_wallet(old(self).source_wallet) {
                None => appended(*old(self), *final(self), Seq::empty()),
                Some(s) => appended(*old(self), *final(self), created_atoms(
                    seq![rule_params(s, meta_type@, meta_id@, rule@)] + continuid_params(opt_wallet(old(self).remainder_wallet)))),
            },
    {
        let Ghost(prior) = self.start();
        let source = clone_opt_wallet(&self.source_wallet);
        match source {
            None => {
                assert(created_atoms(Seq::empty()) =~= Seq::<AtomView>::empty());
            },
            Some(s) => {
                let mut meta: Vec<MetaItem> = Vec::new();
                meta.push(MetaItem::new("rule", rule));
                assert(metas_view(meta@) =~= seq![("rule"@, rule@)]);
                let mut p = on_wallet(Isotope::R, &s);
                p.meta_type = Some(meta_type.to_owned());
                p.meta_id = Some(meta_id.to_owned());
                p.meta = Some(meta);
                let ghost pv = p@;
                self.push_created(p, Ghost(prior), Ghost(Seq::empty()));
                self.push_continuid(Ghost(prior), Ghost(Seq::empty().push(pv)));
                assert(Seq::<AtomCreateView>::empty().push(pv) =~= seq![pv]);
            },
        }
        Ok(())
    }

    /// Append a policy atom on the given policy wallet of the USER token.
    /// Does nothing unless the molecule has both a secret and a source wallet.
    pub fn add_policy_atom(&mut self, policy_wallet: &Wallet, meta_type: &str, meta_id: &str, meta: Vec<MetaItem>, policy: Option<&str>) -> (r: Result<(), KnishIOError>)
        ensures
            r is Ok,
            if old(self).secret is Some && old(self).source_wallet is Some {
                appended(*old(self), *final(self), created_atoms(seq![policy_params(policy_wallet@, meta_type@, meta_id@, metas_view(meta@))]))
            } else {
                appended(*old(self), *final(self), Seq::empty())
            },
    {
        let Ghost(prior) = self.start();
        if self.secret.is_some() && self.source_wallet.is_some() {
            let mut p = on_wallet(Isotope::R, policy_wallet);
            p.meta_type = Some(meta_type.to_owned());
            p.meta_id = Some(meta_id.to_owned());
            p.meta = Some(meta);
            let ghost pv = p@;
            self.push_created(p, Ghost(prior), Ghost(Seq::empty()));
            assert(Seq::<AtomCreateView>::empty().push(pv) =~= seq![pv]);
        } else {
            assert(created_atoms(Seq::empty()) =~= Seq::<AtomView>::empty());
        }
        Ok(())
    }

    /// Append a token-creation atom on the source wallet: `amount` of the
    /// recipient's token, in the recipient's batch. Does nothing without a
    /// source wallet.
    pub fn init_token_creation(&mut self, recipient_wallet: &Wallet, amount: i64, meta: Vec<MetaItem>) -> (r: Result<(), KnishIOError>)
        ensures
            r is Ok,
            match opt_wallet(old(self).source_wallet) {
                None => appended(*old(self), *final(self), Seq::empty()),
                Some(s) => appended(*old(self), *final(self), created_atoms(
                    seq![token_creation_params(s, recipient_wallet@, amount as int, metas_view(meta@))])),
            },
    {
        let Ghost(prior) = self.start();
        let source = clone_opt_wallet(&self.source_wallet);
        match source {
            None => {
                assert(created_atoms(Seq::empty()) =~= Seq::<AtomView>::empty());
            },
            Some(s) => {
                let mut p = on_wallet(Isotope::C, &s);
                p.value = Some(amount as i128);
                p.meta_type = Some("token".to_owned());
                p.meta_id = Some(recipient_wallet.token.clone());
                p.meta = Some(meta);
                p.batch_id = copy_opt(&recipient_wallet.batch_id);
                let ghost pv = p@;
                self.push_created(p, Ghost(prior), Ghost(Seq::empty()));
                assert(Seq::<AtomCreateView>::empty().push(pv) =~= seq![pv]);
            },
        }
        Ok(())
    }

    /// Append a token-request atom on the source wallet's position for
    /// `amount` of `token`. Does nothing without a source wallet.
    pub fn init_token_request(
        &mut self,
        token: &str,
        amount: i64,
        meta_type: &str,
        meta_id: &str,
        meta: Vec<MetaItem>,
        batch_id: Option<String>,
    ) -> (r: Result<(), KnishIOError>)
        ensures
            r is Ok,
            match opt_wallet(old(self).source_wallet) {
                None => appended(*old(self), *final(self), Seq::empty()),
                Some(s) => appended(*old(self), *final(self), created_atoms(
                    seq![token_request_params(s, token@, amount as int, meta_type@, meta_id@, metas_view(meta@), opt_view(batch_id))])),
            },
    {
        let Ghost(prior) = self.start();
        let source = clone_opt_wallet(&self.source_wallet);
        match source {
            None => {
                assert(created_atoms(Seq::empty()) =~= Seq::<AtomView>::empty());
            },
            Some(s) => {
                let mut info = s.info();
                info.token = token.to_owned();
                let p = AtomCreateParams {
                    isotope: Isotope::T,
                    wallet_info: Some(info),
                    token: None,
                    value: Some(amount as i128),
                    batch_id,
                    meta_type: Some(meta_type.to_owned()),
                    meta_id: Some(meta_id.to_owned()),
                    meta: Some(meta),
                };
                let ghost pv = p@;
                self.push_created(p, Ghost(prior), Ghost(Seq::empty()));
                assert(Seq::<AtomCreateView>::empty().push(pv) =~= seq![pv]);
            },
        }
        Ok(())
    }

    /// Append the atoms of claiming a shadow wallet: the claimed wallet's
    /// balance, and the remainder wallet's balance when there is one.
    pub fn init_shadow_wallet_claim(&mut self, wallet: &Wallet) -> (r: Result<(), KnishIOError>)
        ensures
            r is Ok,
            appended(*old(self), *final(self), created_atoms(shadow_claim_params(wallet@, opt_wallet(old(self).remainder_wallet)))),
    {
        let Ghost(prior) = self.start();
        let remainder = clone_opt_wallet(&self.remainder_wallet);
        let p = value_params(Isotope::V, wallet, wallet.balance as i128);
        let ghost pv = p@;
        self.push_created(p, Ghost(prior), Ghost(Seq::empty()));
        let ghost ps = seq![pv];
        assert(Seq::<AtomCreateView>::empty().push(pv) =~= ps);
        match remainder {
            Some(rw) => {
                let p2 = bundle_value(Isotope::V, &rw, rw.balance as i128, &rw.bundle);
                self.push_created(p2, Ghost(prior), Ghost(ps));
                assert(ps.push(p2@) =~= shadow_claim_params(wallet@, opt_wallet(prior.remainder_wallet)));
            },
            None => {
                assert(ps =~= shadow_claim_params(wallet@, opt_wallet(prior.remainder_wallet)));
            },
        }
        Ok(())
    }

    /// Append the atoms of burning `amount` tokens: taken from the source
    /// wallet, the rest of its balance to the remainder wallet (if any). Fails
    /// on a negative amount, and when the source holds less than `amount`;
    /// does nothing without a source wallet.
    pub fn burn_token(&mut self, amount: i64, wallet_bundle: Option<String>) -> (r: Result<(), KnishIOError>)
        ensures
            amount < 0 ==> (r matches Err(KnishIOError::NegativeAmount) && *final(self) == *old(self)),
            amount >= 0 ==> match opt_wallet(old(self).source_wallet) {
                None => r is Ok && appended(*old(self), *final(self), Seq::empty()),
                Some(s) => if s.balance - amount < 0 {
                    r matches Err(KnishIOError::BalanceInsufficient) && *final(self) == *old(self)
                } else {
                    r is Ok && appended(*old(self), *final(self), created_atoms(
                        burn_params(s, opt_wallet(old(self).remainder_wallet), amount as int)))
                },
            },
    {
        if amount < 0 {
            return Err(KnishIOError::NegativeAmount);
        }
        let Ghost(prior) = self.start();
        let source = clone_opt_wallet(&self.source_wallet);
        let remainder = clone_opt_wallet(&self.remainder_wallet);
        match source {
            None => {
                assert(created_atoms(Seq::empty()) =~= Seq::<AtomView>::empty());
                Ok(())
            },
            Some(s) => {
                if (s.balance as i128) - (amount as i128) < 0 {
                    return Err(KnishIOError::BalanceInsufficient);
                }
                let p1 = value_params(Isotope::V, &s, -(amount as i128));
                let ghost pv = p1@;
                self.push_created(p1, Ghost(prior), Ghost(Seq::empty()));
                let ghost ps = seq![pv];
                assert(Seq::<AtomCreateView>::empty().push(pv) =~= ps);
                match remainder {
                    Some(rw) => {
                        let p2 = bundle_value(Isotope::V, &rw, (s.balance as i128) - (amount as i128), &rw.bundle);
                        self.push_created(p2, Ghost(prior), Ghost(ps));
                        assert(ps.push(p2@) =~= burn_params(s@, opt_wallet(prior.remainder_wallet), amount as int));
                    },
                    None => {
                        assert(ps =~= burn_params(s@, opt_wallet(prior.remainder_wallet), amount as int));
                    },
                }
                Ok(())
            },
        }
    }

    /// Append the atoms of fusing token units into one fused token for
    /// `recipient_wallet`: as many tokens as units are taken from the source
    /// wallet, one is given to the recipient, the rest of the balance goes to
    /// the remainder wallet (if any). Fails when the source holds fewer tokens
    /// than units; does nothing without a source wallet.
    pub fn fuse_token(&mut self, token_units: Vec<String>, recipient_wallet: &Wallet) -> (r: Result<(), KnishIOError>)
        ensures
            match opt_wallet(old(self).source_wallet) {
                None => r is Ok && appended(*old(self), *final(self), Seq::empty()),
                Some(s) => if s.balance - token_units@.len() < 0 {
                    r matches Err(KnishIOError::BalanceInsufficient) && *final(self) == *old(self)
                } else {
                    r is Ok && appended(*old(self), *final(self), created_atoms(
                        fuse_params(s, opt_wallet(old(self).remainder_wallet), recipient_wallet@, token_units@.len() as int)))
                },
            },
    {
        let Ghost(prior) = self.start();
        let n = token_units.len() as i128;
        let source = clone_opt_wallet(&self.source_wallet);
        let remainder = clone_opt_wallet(&self.remainder_wallet);
        match source {
            None => {
                assert(created_atoms(Seq::empty()) =~= Seq::<AtomView>::empty());
                Ok(())
            },
            Some(s) => {
                if (s.balance as i128) - n < 0 {
                    return Err(KnishIOError::BalanceInsufficient);
                }
                let p1 = value_params(Isotope::V, &s, -n);
                let ghost pv1 = p1@;
                self.push_created(p1, Ghost(prior), Ghost(Seq::empty()));
                let ghost ps1 = seq![pv1];
                assert(Seq::<AtomCreateView>::empty().push(pv1) =~= ps1);
                let p2 = bundle_value(Isotope::F, recipient_wallet, 1, &recipient_wallet.bundle);
                let ghost pv2 = p2@;
                self.push_created(p2, Ghost(prior), Ghost(ps1));
                let ghost ps = seq![pv1, pv2];
                assert(ps1.push(pv2) =~= ps);
                match remainder {
                    Some(rw) => {
                        let p3 = bundle_value(Isotope::V, &rw, (s.balance as i128) - n, &rw.bundle);
                        self.push_created(p3, Ghost(prior), Ghost(ps));
                        assert(ps.push(p3@) =~= fuse_params(s@, opt_wallet(prior.remainder_wallet), recipient_wallet@, token_units@.len() as int));
                    },
                    None => {
                        assert(ps =~= fuse_params(s@, opt_wallet(prior.remainder_wallet), recipient_wallet@, token_units@.len() as int));
                    },
                }
                Ok(())
            },
        }
    }

    /// Append the atoms of depositing `amount` into the buffer wallet: taken
    /// from the source wallet, put in the buffer (in the source's token) under
    /// the source's bundle,
    /// the rest to the remainder wallet (if any) under the source's bundle.
    /// Fails when the source holds less than `amount`; appends nothing without
    /// a source wallet or without a secret.
    pub fn init_deposit_buffer(&mut self, amount: i64, buffer_wallet: &Wallet) -> (r: Result<(), KnishIOError>)
        ensures
            match opt_wallet(old(self).source_wallet) {
                None => r is Ok && appended(*old(self), *final(self), Seq::empty()),
                Some(s) => if s.balance - amount < 0 {
                    r matches Err(KnishIOError::BalanceInsufficient) && *final(self) == *old(self)
                } else if old(self).secret is None {
                    r is Ok && appended(*old(self), *final(self), Seq::empty())
                } else {
                    r is Ok && appended(*old(self), *final(self), created_atoms(
                        deposit_buffer_params(s, opt_wallet(old(self).remainder_wallet), buffer_wallet@, amount as int)))
                },
            },
    {
        let Ghost(prior) = self.start();
        let source = clone_opt_wallet(&self.source_wallet);
        let remainder = clone_opt_wallet(&self.remainder_wallet);
        match source {
            None => {
                assert(created_atoms(Seq::empty()) =~= Seq::<AtomView>::empty());
                Ok(())
            },
            Some(s) => {
                if (s.balance as i128) - (amount as i128) < 0 {
                    return Err(KnishIOError::BalanceInsufficient);
                }
                if self.secret.is_none() {
                    assert(created_atoms(Seq::empty()) =~= Seq::<AtomView>::empty());
                    return Ok(());
                }
                let p1 = value_params(Isotope::V, &s, -(amount as i128));
                let ghost pv1 = p1@;
                self.push_created(p1, Ghost(prior), Ghost(Seq::empty()));
                let ghost ps1 = seq![pv1];
                assert(Seq::<AtomCreateView>::empty().push(pv1) =~= ps1);
                let mut buffer = buffer_wallet.clone();
                buffer.token = s.token.clone();
                let p2 = bundle_value(Isotope::B, &buffer, amount as i128, &s.bundle);
                let ghost pv2 = p2@;
                self.push_created(p2, Ghost(prior), Ghost(ps1));
                let ghost ps = seq![pv1, pv2];
                assert(ps1.push(pv2) =~= ps);
                match remainder {
                    Some(rw) => {
                        let p3 = bundle_value(Isotope::V, &rw, (s.balance as i128) - (amount as i128), &s.bundle);
                        self.push_created(p3, Ghost(prior), Ghost(ps));
                        assert(ps.push(p3@) =~= deposit_buffer_params(s@, opt_wallet(prior.remainder_wallet), buffer_wallet@, amount as int));
                    },
                    None => {
                        assert(ps =~= deposit_buffer_params(s@, opt_wallet(prior.remainder_wallet), buffer_wallet@, amount as int));
                    },
                }
                Ok(())
            },
        }
    }

    /// Append the atoms of withdrawing from the source (buffer) wallet to
    /// several recipients: the total taken from the source under its bundle,
    /// one atom per recipient (no wallet, the source's token and batch, the
    /// recipient's bundle), and the rest of the balance to the remainder
    /// wallet (if any). Fails when the source holds less than the total; does
    /// nothing without a source wallet. The signing wallet is not used. Each
    /// recipient bundle occurs once.
    pub fn init_withdraw_buffer(&mut self, recipients: Vec<(String, i64)>, signing_wallet: Option<&Wallet>) -> (r: Result<(), KnishIOError>)
        requires
            recipients@.len() <= 0x100_0000_0000_0000,
            distinct_keys(recipients_view(recipients@)),
        ensures
            match opt_wallet(old(self).source_wallet) {
                None => r is Ok && appended(*old(self), *final(self), Seq::empty()),
                Some(s) => if s.balance - recipients_total(recipients_view(recipients@)) < 0 {
                    r matches Err(KnishIOError::BalanceInsufficient) && *final(self) == *old(self)
                } else {
                    r is Ok && appended(*old(self), *final(self), created_atoms(
                        withdraw_buffer_params(s, opt_wallet(old(self).remainder_wallet), recipients_view(recipients@))))
                },
            },
    {
        let ghost rv = recipients_view(recipients@);
        let mut total: i128 = 0;
        let mut i: usize = 0;
        while i < recipients.len()
            invariant
                i <= recipients@.len(),
                recipients@.len() <= 0x100_0000_0000_0000,
                rv == recipients_view(recipients@),
                total == recipients_total(rv.take(i as int)),
                -0x8000_0000_0000_0000 * i <= total <= 0x8000_0000_0000_0000 * i,
            decreases recipients@.len() - i,
        {
            assert(rv.take(i + 1).drop_last() =~= rv.take(i as int));
            total = total + recipients[i].1 as i128;
            i = i + 1;
        }
        assert(rv.take(rv.len() as int) =~= rv);
        let Ghost(prior) = self.start();
        let source = clone_opt_wallet(&self.source_wallet);
        let remainder = clone_opt_wallet(&self.remainder_wallet);
        match source {
            None => {
                assert(created_atoms(Seq::empty()) =~= Seq::<AtomView>::empty());
                Ok(())
            },
            Some(s) => {
                if (s.balance as i128) - total < 0 {
                    return Err(KnishIOError::BalanceInsufficient);
                }
                let p1 = bundle_value(Isotope::B, &s, -total, &s.bundle);
                let ghost pv1 = p1@;
                self.push_created(p1, Ghost(prior), Ghost(Seq::empty()));
                let ghost head = seq![pv1];
                assert(Seq::<AtomCreateView>::empty().push(pv1) =~= head);
                let mut j: usize = 0;
                while j < recipients.len()
                    invariant
                        j <= recipients@.len(),
                        rv == recipients_view(recipients@),
                        appended(prior, *self, created_atoms(head + rv.take(j as int).map_values(|r: (Seq<char>, int)| withdraw_recipient_params(s@, r)))),
                        self.remainder_wallet == prior.remainder_wallet,
                    decreases recipients@.len() - j,
                {
                    let ghost before = head + rv.take(j as int).map_values(|r: (Seq<char>, int)| withdraw_recipient_params(s@, r));
                    let p = AtomCreateParams {
                        isotope: Isotope::V,
                        wallet_info: None,
                        token: Some(s.token.clone()),
                        value: Some(recipients[j].1 as i128),
                        batch_id: copy_opt(&s.batch_id),
                        meta_type: Some("walletBundle".to_owned()),
                        meta_id: Some(recipients[j].0.clone()),
                        meta: None,
                    };
                    assert(p@ == withdraw_recipient_params(s@, rv[j as int]));
                    self.push_created(p, Ghost(prior), Ghost(before));
                    assert(before.push(withdraw_recipient_params(s@, rv[j as int]))
                        =~= head + rv.take(j + 1).map_values(|r: (Seq<char>, int)| withdraw_recipient_params(s@, r)));
                    j = j + 1;
                }
                let ghost ps = head + rv.take(recipients@.len() as int).map_values(|r: (Seq<char>, int)| withdraw_recipient_params(s@, r));
                match remainder {
                    Some(rw) => {
                        let p3 = bundle_value(Isotope::B, &rw, (s.balance as i128) - total, &rw.bundle);
                        self.push_created(p3, Ghost(prior), Ghost(ps));
                        assert(ps.push(p3@) =~= withdraw_buffer_params(s@, opt_wallet(prior.remainder_wallet), rv));
                    },
                    None => {
                        assert(ps =~= withdraw_buffer_params(s@, opt_wallet(prior.remainder_wallet), rv));
                    },
                }
                Ok(())
            },
        }
    }

    /// Append the atoms of replenishing a token supply by `amount`: the
    /// source wallet (its copy in the atom) is taken to hold `amount`; the
    /// remainder wallet, if any, is credited: with token units it is set to
    /// twice `amount`, without them to the source's balance plus `amount`.
    /// The atoms record the source's new balance and the remainder's new
    /// balance. Fails on a negative amount; does nothing without a source
    /// wallet.
    pub fn replenish_token(&mut self, amount: i64, units: Option<Vec<String>>) -> (r: Result<(), KnishIOError>)
        requires
            units is None ==> (old(self).source_wallet matches Some(s) ==> s.balance + amount <= i64::MAX),
            units is Some ==> amount <= i64::MAX / 2,
        ensures
            amount < 0 ==> (r matches Err(KnishIOError::NegativeAmount) && *final(self) == *old(self)),
            amount >= 0 ==> r is Ok,
            amount >= 0 ==> match opt_wallet(old(self).source_wallet) {
                None => *final(self) == *old(self),
                Some(s) => {
                    let new_remainder_balance = if units is Some { 2 * amount } else { s.balance + amount };
                    &&& opt_wallet(final(self).remainder_wallet) == match opt_wallet(old(self).remainder_wallet) {
                        Some(rw) => Some(crate::wallet::WalletView { balance: new_remainder_balance, ..rw }),
                        None => None,
                    }
                    &&& appended(Molecule { remainder_wallet: final(self).remainder_wallet, ..*old(self) }, *final(self), created_atoms(
                        seq![value_on(Isotope::V, s, amount as int)] + match opt_wallet(old(self).remainder_wallet) {
                            Some(rw) => seq![bundle_value_on(Isotope::V, rw, new_remainder_balance, rw.bundle)],
                            None => seq![],
                        }))
                },
            },
    {
        if amount < 0 {
            return Err(KnishIOError::NegativeAmount);
        }
        let source = clone_opt_wallet(&self.source_wallet);
        match source {
            None => Ok(()),
            Some(s) => {
                let new_remainder_balance: i64 = match units {
                    Some(_) => amount + amount,
                    None => s.balance + amount,
                };
                match &mut self.remainder_wallet {
                    Some(rw) => {
                        rw.balance = new_remainder_balance;
                    },
                    None => {},
                }
                let Ghost(prior) = self.start();
                assert(prior == Molecule { remainder_wallet: self.remainder_wallet, ..*old(self) });
                let remainder = clone_opt_wallet(&self.remainder_wallet);
                let p1 = value_params(Isotope::V, &s, amount as i128);
                let ghost pv1 = p1@;
                self.push_created(p1, Ghost(prior), Ghost(Seq::empty()));
                let ghost ps = seq![pv1];
                assert(Seq::<AtomCreateView>::empty().push(pv1) =~= ps);
                match remainder {
                    Some(rw) => {
                        let p2 = bundle_value(Isotope::V, &rw, rw.balance as i128, &rw.bundle);
                        self.push_created(p2, Ghost(prior), Ghost(ps));
                        let ghost orw = old(self).remainder_wallet.unwrap()@;
                        assert(info_of(rw@) == info_of(orw));
                        assert(p2@ == bundle_value_on(Isotope::V, orw, new_remainder_balance as int, orw.bundle));
                        assert(ps.push(p2@) =~= seq![pv1] + seq![bundle_value_on(Isotope::V, orw, new_remainder_balance as int, orw.bundle)]);
                    },
                    None => {
                        assert(ps =~= seq![pv1] + Seq::<AtomCreateView>::empty());
                    },
                }
                Ok(())
            },
        }
    }

    /// The base-17 values of a hash's characters ('0'..'9' and 'a'..'g', in
    /// either case, mapped to -8..8); other characters are skipped.
    pub fn enumerate(hash: &str) -> (r: Vec<i8>)
        ensures
            r@ == enumerated(hash@),
    {
        let n = hash.unicode_len();
        let mut r: Vec<i8> = Vec::new();
        let mut i: usize = 0;
        while i < n
            invariant
                n == hash@.len(),
                i <= n,
                r@ == enumerated(hash@.take(i as int)),
            decreases n - i,
        {
            let c = hash.get_char(i);
            assert(hash@.take(i + 1).drop_last() =~= hash@.take(i as int));
            match base17(c) {
                Some(v) => r.push(v),
                None => {},
            }
            i = i + 1;
        }
        assert(hash@.take(n as int) =~= hash@);
        r
    }

    /// Make the values of an enumerated hash sum to zero, so that a one-time
    /// signature leaks exactly half of the key: passing over the values again
    /// and again from the first, each value moves by one towards the side the
    /// sum lacks (never past 8 or -8) until the sum is zero.
    pub fn normalize(mapped_hash_array: Vec<i8>) -> (r: Vec<i8>)
        requires
            all_in_range(mapped_hash_array@),
            mapped_hash_array@.len() * 8 <= i32::MAX,
        ensures
            normalized_from(mapped_hash_array@, r@),
    {
        normalize_values(mapped_hash_array)
    }

    /// The molecular hash, enumerated and normalised. Fails when the
    /// molecule has no molecular hash.
    pub fn normalized_hash(&self) -> (r: Result<Vec<i8>, KnishIOError>)
        requires
            self.molecular_hash matches Some(h) ==> h@.len() * 8 <= i32::MAX,
        ensures
            match self.molecular_hash {
                None => r matches Err(KnishIOError::MolecularHashMissing),
                Some(h) => r matches Ok(v) && normalized_from(enumerated(h@), v@),
            },
    {
        match &self.molecular_hash {
            None => Err(KnishIOError::MolecularHashMissing),
            Some(h) => {
                let e = Self::enumerate(h.as_str());
                proof { lemma_enumerated_in_range(h@); }
                Ok(Self::normalize(e))
            },
        }
    }

    /// The atoms of this molecule whose isotope is one of `isotopes`, in order.
    pub fn get_isotopes(&self, isotopes: &[Isotope]) -> (r: Vec<Atom>)
        ensures
            atoms_view(r@) == filter_isotopes(isotopes@, atoms_view(self.atoms@)),
            atom_records(r@) == filter_isotope_records(isotopes@, atom_records(self.atoms@)),
    {
        Self::isotope_filter(isotopes, self.atoms.as_slice())
    }

    /// Whether some atom of this molecule has the given isotope.
    pub fn has_isotope(&self, isotope: Isotope) -> (r: bool)
        ensures
            r == exists|i: int| 0 <= i < self.atoms@.len() && (#[trigger] self.atoms@[i]).isotope == isotope,
    {
        let mut i: usize = 0;
        while i < self.atoms.len()
            invariant
                i <= self.atoms@.len(),
                forall|j: int| 0 <= j < i ==> (#[trigger] self.atoms@[j]).isotope != isotope,
            decreases self.atoms@.len() - i,
        {
            if self.atoms[i].isotope == isotope {
                return true;
            }
            i = i + 1;
        }
        false
    }

    /// The atoms whose isotope is one of `isotopes`, in order.
    pub fn isotope_filter(isotopes: &[Isotope], atoms: &[Atom]) -> (r: Vec<Atom>)
        ensures
            atoms_view(r@) == filter_isotopes(isotopes@, atoms_view(atoms@)),
            atom_records(r@) == filter_isotope_records(isotopes@, atom_records(atoms@)),
    {
        let mut r: Vec<Atom> = Vec::new();
        let mut i: usize = 0;
        while i < atoms.len()
            invariant
                i <= atoms@.len(),
                atoms_view(r@) == filter_isotopes(isotopes@, atoms_view(atoms@.take(i as int))),
                atom_records(r@) == filter_isotope_records(isotopes@, atom_records(atoms@.take(i as int))),
            decreases atoms@.len() - i,
        {
            let ghost before = atoms_view(r@);
            let ghost before_records = atom_records(r@);
            let ghost prefix = atoms_view(atoms@.take(i as int));
            let ghost prefix_records = atom_records(atoms@.take(i as int));
            assert(atoms_view(atoms@.take(i + 1)) =~= prefix.push(atoms@[i as int]@));
            assert(atom_records(atoms@.take(i + 1)) =~= prefix_records.push(atom_record(atoms@[i as int])));
            let keep = contains_isotope(isotopes, atoms[i].isotope);
            if keep {
                let a = atoms[i].clone();
                r.push(a);
                assert(atoms_view(r@) =~= before.push(atoms@[i as int]@));
                assert(atom_records(r@) =~= before_records.push(atom_record(atoms@[i as int])));
            }
            proof {
                reveal_with_fuel(Seq::filter, 1);
                assert(prefix.push(atoms@[i as int]@).drop_last() =~= prefix);
                assert(prefix_records.push(atom_record(atoms@[i as int])).drop_last() =~= prefix_records);
            }
            i = i + 1;
        }
        assert(atoms@.take(atoms@.len() as int) =~= atoms@);
        r
    }
}

/// Whether an isotope is in a list.
pub fn contains_isotope(isotopes: &[Isotope], isotope: Isotope) -> (r: bool)
    ensures
        r == isotopes@.contains(isotope),
{
    let mut i: usize = 0;
    while i < isotopes.len()
        invariant
            i <= isotopes@.len(),
            forall|j: int| 0 <= j < i ==> isotopes@[j] != isotope,
        decreases isotopes@.len() - i,
    {
        if isotopes[i] == isotope {
            return true;
        }
        i = i + 1;
    }
    false
}

impl Default for Molecule {
    fn default() -> (m: Self)
        ensures
            m.molecular_hash is None,
            m.bundle is None,
            m.status is None,
            m.cell_slug is None,
            m.cell_slug_origin is None,
            m.version is None,
            m.atoms@.len() == 0,
            m.secret is None,
            m.source_wallet is None,
            m.remainder_wallet is None,
            m.parent_hashes@.len() == 0,
    {
        Molecule::with_params(None, None, None, None, None, None)
    }
}

} // verus!
