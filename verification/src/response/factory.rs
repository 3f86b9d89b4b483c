//! Responses chosen by the operation that produced them.

use vstd::prelude::*;
use crate::error::KnishIOError;
use crate::json::{Json, JsonValue, opt_json};
use crate::molecule::Molecule;
use crate::response::base::{BaseResponse, Response, data_view, rejection};
use crate::response::node::{
    ResponseActiveSession,
    ResponseAtom,
    ResponseAuthorizationGuest,
    ResponseBalance,
    ResponseClaimShadowWallet,
    ResponseContinuId,
    ResponseCreateIdentifier,
    ResponseCreateMeta,
    ResponseCreateRule,
    ResponseCreateToken,
    ResponseCreateWallet,
    ResponseLinkIdentifier,
    ResponseMetaBatch,
    ResponseMetaType,
    ResponseMetaTypeViaAtom,
    ResponsePolicy,
    ResponseProposeMolecule,
    ResponseQueryUserActivity,
    ResponseRequestAuthorization,
    ResponseRequestAuthorizationGuest,
    ResponseRequestTokens,
    ResponseTransferTokens,
    ResponseWalletBundle,
    ResponseWalletList,
};
use crate::text::str_eq;

verus! {

/// A response of any kind.
#[derive(Debug)]
pub enum AnyResponse {
    ActiveSession(ResponseActiveSession),
    Atom(ResponseAtom),
    AuthorizationGuest(ResponseAuthorizationGuest),
    Balance(ResponseBalance),
    ClaimShadowWallet(ResponseClaimShadowWallet),
    ContinuId(ResponseContinuId),
    CreateIdentifier(ResponseCreateIdentifier),
    CreateMeta(ResponseCreateMeta),
    CreateRule(ResponseCreateRule),
    CreateToken(ResponseCreateToken),
    CreateWallet(ResponseCreateWallet),
    LinkIdentifier(ResponseLinkIdentifier),
    MetaBatch(ResponseMetaBatch),
    MetaType(ResponseMetaType),
    MetaTypeViaAtom(ResponseMetaTypeViaAtom),
    Policy(ResponsePolicy),
    ProposeMolecule(ResponseProposeMolecule),
    QueryUserActivity(ResponseQueryUserActivity),
    RequestAuthorization(ResponseRequestAuthorization),
    RequestAuthorizationGuest(ResponseRequestAuthorizationGuest),
    RequestTokens(ResponseRequestTokens),
    TransferTokens(ResponseTransferTokens),
    WalletBundle(ResponseWalletBundle),
    WalletList(ResponseWalletList),
    Base(BaseResponse),
}

/// The kind of response that answers a query operation.
pub open spec fn query_kind(op: Seq<char>, r: AnyResponse) -> bool {
    if op == "ActiveSession"@ {
        r is ActiveSession
    } else     if op == "Atom"@ {
        r is Atom
    } else     if op == "AuthorizeGuest"@ {
        r is AuthorizationGuest
    } else     if op == "Balance"@ {
        r is Balance
    } else     if op == "ContinuId"@ {
        r is ContinuId
    } else     if op == "ProposeMolecule"@ {
        r is ProposeMolecule
    } else     if op == "AccessToken"@ {
        r is RequestAuthorizationGuest
    } else     if op == "Wallet"@ {
        r is WalletList
    } else     if op == "WalletBundle"@ {
        r is WalletBundle
    } else     if op == "LinkIdentifier"@ {
        r is LinkIdentifier
    } else     if op == "Batch"@ {
        r is MetaBatch
    } else     if op == "MetaType"@ {
        r is MetaType
    } else     if op == "AtomsByMoleculeLookup"@ {
        r is MetaTypeViaAtom
    } else     if op == "Rule"@ {
        r is Policy
    } else     if op == "UserActivity"@ {
        r is QueryUserActivity
    } else {
        r is Base
    }
}

/// The data key of the response that answers a query operation.
pub open spec fn query_data_key(op: Seq<char>) -> Option<Seq<char>> {
    if op == "ActiveSession"@ {
        Some("data.ActiveSession"@)
    } else     if op == "Atom"@ {
        Some("data.Atom"@)
    } else     if op == "AuthorizeGuest"@ {
        Some("data.AuthorizeGuest"@)
    } else     if op == "Balance"@ {
        Some("data.Balance"@)
    } else     if op == "ContinuId"@ {
        Some("data.ContinuId"@)
    } else     if op == "ProposeMolecule"@ {
        Some("data.ProposeMolecule"@)
    } else     if op == "AccessToken"@ {
        Some("data.AccessToken"@)
    } else     if op == "Wallet"@ {
        Some("data.Wallet"@)
    } else     if op == "WalletBundle"@ {
        Some("data.WalletBundle"@)
    } else     if op == "LinkIdentifier"@ {
        Some("data.LinkIdentifier"@)
    } else     if op == "Batch"@ {
        Some("data.Batch"@)
    } else     if op == "MetaType"@ {
        Some("data.MetaType"@)
    } else     if op == "AtomsByMoleculeLookup"@ {
        Some("data.AtomsByMoleculeLookup"@)
    } else     if op == "Rule"@ {
        Some("data.Rule"@)
    } else     if op == "UserActivity"@ {
        Some("data.UserActivity"@)
    } else {
        None
    }
}

/// The kind of response that answers a mutation.
pub open spec fn mutation_kind(name: Seq<char>, r: AnyResponse) -> bool {
    if name == "ProposeMolecule"@ {
        r is ProposeMolecule
    } else     if name == "CreateToken"@ {
        r is CreateToken
    } else     if name == "CreateWallet"@ {
        r is CreateWallet
    } else     if name == "TransferTokens"@ {
        r is TransferTokens
    } else     if name == "RequestTokens"@ {
        r is RequestTokens
    } else     if name == "CreateIdentifier"@ {
        r is CreateIdentifier
    } else     if name == "CreateMeta"@ {
        r is CreateMeta
    } else     if name == "CreateRule"@ {
        r is CreateRule
    } else     if name == "ClaimShadowWallet"@ {
        r is ClaimShadowWallet
    } else     if name == "RequestAuthorization"@ {
        r is RequestAuthorization
    } else     if name == "RequestAuthorizationGuest"@ {
        r is RequestAuthorizationGuest
    } else {
        r is ProposeMolecule
    }
}

/// The data key of a response to a mutation: that of an access token for a
/// guest authorization, that of a proposed molecule for any other.
pub open spec fn mutation_data_key(r: AnyResponse) -> Seq<char> {
    if r is RequestAuthorizationGuest {
        "data.AccessToken"@
    } else {
        "data.ProposeMolecule"@
    }
}

/// A mutation whose response is built without a check of the answer.
pub open spec fn unchecked_mutation(name: Seq<char>) -> bool {
    name == "CreateToken"@
        || name == "CreateWallet"@
        || name == "TransferTokens"@
        || name == "RequestTokens"@
        || name == "CreateMeta"@
        || name == "CreateRule"@
        || name == "RequestAuthorization"@
}

impl Response for AnyResponse {
    open spec fn view_data(&self) -> Json {
        match self {
            AnyResponse::ActiveSession(x) => x.view_data(),
            AnyResponse::Atom(x) => x.view_data(),
            AnyResponse::AuthorizationGuest(x) => x.view_data(),
            AnyResponse::Balance(x) => x.view_data(),
            AnyResponse::ClaimShadowWallet(x) => x.view_data(),
            AnyResponse::ContinuId(x) => x.view_data(),
            AnyResponse::CreateIdentifier(x) => x.view_data(),
            AnyResponse::CreateMeta(x) => x.view_data(),
            AnyResponse::CreateRule(x) => x.view_data(),
            AnyResponse::CreateToken(x) => x.view_data(),
            AnyResponse::CreateWallet(x) => x.view_data(),
            AnyResponse::LinkIdentifier(x) => x.view_data(),
            AnyResponse::MetaBatch(x) => x.view_data(),
            AnyResponse::MetaType(x) => x.view_data(),
            AnyResponse::MetaTypeViaAtom(x) => x.view_data(),
            AnyResponse::Policy(x) => x.view_data(),
            AnyResponse::ProposeMolecule(x) => x.view_data(),
            AnyResponse::QueryUserActivity(x) => x.view_data(),
            AnyResponse::RequestAuthorization(x) => x.view_data(),
            AnyResponse::RequestAuthorizationGuest(x) => x.view_data(),
            AnyResponse::RequestTokens(x) => x.view_data(),
            AnyResponse::TransferTokens(x) => x.view_data(),
            AnyResponse::WalletBundle(x) => x.view_data(),
            AnyResponse::WalletList(x) => x.view_data(),
            AnyResponse::Base(x) => x.view_data(),
        }
    }

    open spec fn raw_answer(&self) -> Json {
        match self {
            AnyResponse::ActiveSession(x) => x.raw_answer(),
            AnyResponse::Atom(x) => x.raw_answer(),
            AnyResponse::AuthorizationGuest(x) => x.raw_answer(),
            AnyResponse::Balance(x) => x.raw_answer(),
            AnyResponse::ClaimShadowWallet(x) => x.raw_answer(),
            AnyResponse::ContinuId(x) => x.raw_answer(),
            AnyResponse::CreateIdentifier(x) => x.raw_answer(),
            AnyResponse::CreateMeta(x) => x.raw_answer(),
            AnyResponse::CreateRule(x) => x.raw_answer(),
            AnyResponse::CreateToken(x) => x.raw_answer(),
            AnyResponse::CreateWallet(x) => x.raw_answer(),
            AnyResponse::LinkIdentifier(x) => x.raw_answer(),
            AnyResponse::MetaBatch(x) => x.raw_answer(),
            AnyResponse::MetaType(x) => x.raw_answer(),
            AnyResponse::MetaTypeViaAtom(x) => x.raw_answer(),
            AnyResponse::Policy(x) => x.raw_answer(),
            AnyResponse::ProposeMolecule(x) => x.raw_answer(),
            AnyResponse::QueryUserActivity(x) => x.raw_answer(),
            AnyResponse::RequestAuthorization(x) => x.raw_answer(),
            AnyResponse::RequestAuthorizationGuest(x) => x.raw_answer(),
            AnyResponse::RequestTokens(x) => x.raw_answer(),
            AnyResponse::TransferTokens(x) => x.raw_answer(),
            AnyResponse::WalletBundle(x) => x.raw_answer(),
            AnyResponse::WalletList(x) => x.raw_answer(),
            AnyResponse::Base(x) => x.raw_answer(),
        }
    }

    open spec fn query_view(&self) -> Option<Json> {
        match self {
            AnyResponse::ActiveSession(x) => x.query_view(),
            AnyResponse::Atom(x) => x.query_view(),
            AnyResponse::AuthorizationGuest(x) => x.query_view(),
            AnyResponse::Balance(x) => x.query_view(),
            AnyResponse::ClaimShadowWallet(x) => x.query_view(),
            AnyResponse::ContinuId(x) => x.query_view(),
            AnyResponse::CreateIdentifier(x) => x.query_view(),
            AnyResponse::CreateMeta(x) => x.query_view(),
            AnyResponse::CreateRule(x) => x.query_view(),
            AnyResponse::CreateToken(x) => x.query_view(),
            AnyResponse::CreateWallet(x) => x.query_view(),
            AnyResponse::LinkIdentifier(x) => x.query_view(),
            AnyResponse::MetaBatch(x) => x.query_view(),
            AnyResponse::MetaType(x) => x.query_view(),
            AnyResponse::MetaTypeViaAtom(x) => x.query_view(),
            AnyResponse::Policy(x) => x.query_view(),
            AnyResponse::ProposeMolecule(x) => x.query_view(),
            AnyResponse::QueryUserActivity(x) => x.query_view(),
            AnyResponse::RequestAuthorization(x) => x.query_view(),
            AnyResponse::RequestAuthorizationGuest(x) => x.query_view(),
            AnyResponse::RequestTokens(x) => x.query_view(),
            AnyResponse::TransferTokens(x) => x.query_view(),
            AnyResponse::WalletBundle(x) => x.query_view(),
            AnyResponse::WalletList(x) => x.query_view(),
            AnyResponse::Base(x) => x.query_view(),
        }
    }

    open spec fn succeeded(&self) -> bool {
        match self {
            AnyResponse::ActiveSession(x) => x.succeeded(),
            AnyResponse::Atom(x) => x.succeeded(),
            AnyResponse::AuthorizationGuest(x) => x.succeeded(),
            AnyResponse::Balance(x) => x.succeeded(),
            AnyResponse::ClaimShadowWallet(x) => x.succeeded(),
            AnyResponse::ContinuId(x) => x.succeeded(),
            AnyResponse::CreateIdentifier(x) => x.succeeded(),
            AnyResponse::CreateMeta(x) => x.succeeded(),
            AnyResponse::CreateRule(x) => x.succeeded(),
            AnyResponse::CreateToken(x) => x.succeeded(),
            AnyResponse::CreateWallet(x) => x.succeeded(),
            AnyResponse::LinkIdentifier(x) => x.succeeded(),
            AnyResponse::MetaBatch(x) => x.succeeded(),
            AnyResponse::MetaType(x) => x.succeeded(),
            AnyResponse::MetaTypeViaAtom(x) => x.succeeded(),
            AnyResponse::Policy(x) => x.succeeded(),
            AnyResponse::ProposeMolecule(x) => x.succeeded(),
            AnyResponse::QueryUserActivity(x) => x.succeeded(),
            AnyResponse::RequestAuthorization(x) => x.succeeded(),
            AnyResponse::RequestAuthorizationGuest(x) => x.succeeded(),
            AnyResponse::RequestTokens(x) => x.succeeded(),
            AnyResponse::TransferTokens(x) => x.succeeded(),
            AnyResponse::WalletBundle(x) => x.succeeded(),
            AnyResponse::WalletList(x) => x.succeeded(),
            AnyResponse::Base(x) => x.succeeded(),
        }
    }

    open spec fn payload_view(&self) -> Option<Json> {
        match self {
            AnyResponse::ActiveSession(x) => x.payload_view(),
            AnyResponse::Atom(x) => x.payload_view(),
            AnyResponse::AuthorizationGuest(x) => x.payload_view(),
            AnyResponse::Balance(x) => x.payload_view(),
            AnyResponse::ClaimShadowWallet(x) => x.payload_view(),
            AnyResponse::ContinuId(x) => x.payload_view(),
            AnyResponse::CreateIdentifier(x) => x.payload_view(),
            AnyResponse::CreateMeta(x) => x.payload_view(),
            AnyResponse::CreateRule(x) => x.payload_view(),
            AnyResponse::CreateToken(x) => x.payload_view(),
            AnyResponse::CreateWallet(x) => x.payload_view(),
            AnyResponse::LinkIdentifier(x) => x.payload_view(),
            AnyResponse::MetaBatch(x) => x.payload_view(),
            AnyResponse::MetaType(x) => x.payload_view(),
            AnyResponse::MetaTypeViaAtom(x) => x.payload_view(),
            AnyResponse::Policy(x) => x.payload_view(),
            AnyResponse::ProposeMolecule(x) => x.payload_view(),
            AnyResponse::QueryUserActivity(x) => x.payload_view(),
            AnyResponse::RequestAuthorization(x) => x.payload_view(),
            AnyResponse::RequestAuthorizationGuest(x) => x.payload_view(),
            AnyResponse::RequestTokens(x) => x.payload_view(),
            AnyResponse::TransferTokens(x) => x.payload_view(),
            AnyResponse::WalletBundle(x) => x.payload_view(),
            AnyResponse::WalletList(x) => x.payload_view(),
            AnyResponse::Base(x) => x.payload_view(),
        }
    }

    open spec fn reason_view(&self) -> Option<Seq<char>> {
        match self {
            AnyResponse::ActiveSession(x) => x.reason_view(),
            AnyResponse::Atom(x) => x.reason_view(),
            AnyResponse::AuthorizationGuest(x) => x.reason_view(),
            AnyResponse::Balance(x) => x.reason_view(),
            AnyResponse::ClaimShadowWallet(x) => x.reason_view(),
            AnyResponse::ContinuId(x) => x.reason_view(),
            AnyResponse::CreateIdentifier(x) => x.reason_view(),
            AnyResponse::CreateMeta(x) => x.reason_view(),
            AnyResponse::CreateRule(x) => x.reason_view(),
            AnyResponse::CreateToken(x) => x.reason_view(),
            AnyResponse::CreateWallet(x) => x.reason_view(),
            AnyResponse::LinkIdentifier(x) => x.reason_view(),
            AnyResponse::MetaBatch(x) => x.reason_view(),
            AnyResponse::MetaType(x) => x.reason_view(),
            AnyResponse::MetaTypeViaAtom(x) => x.reason_view(),
            AnyResponse::Policy(x) => x.reason_view(),
            AnyResponse::ProposeMolecule(x) => x.reason_view(),
            AnyResponse::QueryUserActivity(x) => x.reason_view(),
            AnyResponse::RequestAuthorization(x) => x.reason_view(),
            AnyResponse::RequestAuthorizationGuest(x) => x.reason_view(),
            AnyResponse::RequestTokens(x) => x.reason_view(),
            AnyResponse::TransferTokens(x) => x.reason_view(),
            AnyResponse::WalletBundle(x) => x.reason_view(),
            AnyResponse::WalletList(x) => x.reason_view(),
            AnyResponse::Base(x) => x.reason_view(),
        }
    }

    open spec fn status_view(&self) -> Option<Seq<char>> {
        match self {
            AnyResponse::ActiveSession(x) => x.status_view(),
            AnyResponse::Atom(x) => x.status_view(),
            AnyResponse::AuthorizationGuest(x) => x.status_view(),
            AnyResponse::Balance(x) => x.status_view(),
            AnyResponse::ClaimShadowWallet(x) => x.status_view(),
            AnyResponse::ContinuId(x) => x.status_view(),
            AnyResponse::CreateIdentifier(x) => x.status_view(),
            AnyResponse::CreateMeta(x) => x.status_view(),
            AnyResponse::CreateRule(x) => x.status_view(),
            AnyResponse::CreateToken(x) => x.status_view(),
            AnyResponse::CreateWallet(x) => x.status_view(),
            AnyResponse::LinkIdentifier(x) => x.status_view(),
            AnyResponse::MetaBatch(x) => x.status_view(),
            AnyResponse::MetaType(x) => x.status_view(),
            AnyResponse::MetaTypeViaAtom(x) => x.status_view(),
            AnyResponse::Policy(x) => x.status_view(),
            AnyResponse::ProposeMolecule(x) => x.status_view(),
            AnyResponse::QueryUserActivity(x) => x.status_view(),
            AnyResponse::RequestAuthorization(x) => x.status_view(),
            AnyResponse::RequestAuthorizationGuest(x) => x.status_view(),
            AnyResponse::RequestTokens(x) => x.status_view(),
            AnyResponse::TransferTokens(x) => x.status_view(),
            AnyResponse::WalletBundle(x) => x.status_view(),
            AnyResponse::WalletList(x) => x.status_view(),
            AnyResponse::Base(x) => x.status_view(),
        }
    }

    fn data(&self) -> (r: &JsonValue) {
        match self {
            AnyResponse::ActiveSession(x) => x.data(),
            AnyResponse::Atom(x) => x.data(),
            AnyResponse::AuthorizationGuest(x) => x.data(),
            AnyResponse::Balance(x) => x.data(),
            AnyResponse::ClaimShadowWallet(x) => x.data(),
            AnyResponse::ContinuId(x) => x.data(),
            AnyResponse::CreateIdentifier(x) => x.data(),
            AnyResponse::CreateMeta(x) => x.data(),
            AnyResponse::CreateRule(x) => x.data(),
            AnyResponse::CreateToken(x) => x.data(),
            AnyResponse::CreateWallet(x) => x.data(),
            AnyResponse::LinkIdentifier(x) => x.data(),
            AnyResponse::MetaBatch(x) => x.data(),
            AnyResponse::MetaType(x) => x.data(),
            AnyResponse::MetaTypeViaAtom(x) => x.data(),
            AnyResponse::Policy(x) => x.data(),
            AnyResponse::ProposeMolecule(x) => x.data(),
            AnyResponse::QueryUserActivity(x) => x.data(),
            AnyResponse::RequestAuthorization(x) => x.data(),
            AnyResponse::RequestAuthorizationGuest(x) => x.data(),
            AnyResponse::RequestTokens(x) => x.data(),
            AnyResponse::TransferTokens(x) => x.data(),
            AnyResponse::WalletBundle(x) => x.data(),
            AnyResponse::WalletList(x) => x.data(),
            AnyResponse::Base(x) => x.data(),
        }
    }

    fn success(&self) -> (r: bool) {
        match self {
            AnyResponse::ActiveSession(x) => x.success(),
            AnyResponse::Atom(x) => x.success(),
            AnyResponse::AuthorizationGuest(x) => x.success(),
            AnyResponse::Balance(x) => x.success(),
            AnyResponse::ClaimShadowWallet(x) => x.success(),
            AnyResponse::ContinuId(x) => x.success(),
            AnyResponse::CreateIdentifier(x) => x.success(),
            AnyResponse::CreateMeta(x) => x.success(),
            AnyResponse::CreateRule(x) => x.success(),
            AnyResponse::CreateToken(x) => x.success(),
            AnyResponse::CreateWallet(x) => x.success(),
            AnyResponse::LinkIdentifier(x) => x.success(),
            AnyResponse::MetaBatch(x) => x.success(),
            AnyResponse::MetaType(x) => x.success(),
            AnyResponse::MetaTypeViaAtom(x) => x.success(),
            AnyResponse::Policy(x) => x.success(),
            AnyResponse::ProposeMolecule(x) => x.success(),
            AnyResponse::QueryUserActivity(x) => x.success(),
            AnyResponse::RequestAuthorization(x) => x.success(),
            AnyResponse::RequestAuthorizationGuest(x) => x.success(),
            AnyResponse::RequestTokens(x) => x.success(),
            AnyResponse::TransferTokens(x) => x.success(),
            AnyResponse::WalletBundle(x) => x.success(),
            AnyResponse::WalletList(x) => x.success(),
            AnyResponse::Base(x) => x.success(),
        }
    }

    fn error(&self) -> (r: Option<String>) {
        match self {
            AnyResponse::ActiveSession(x) => x.error(),
            AnyResponse::Atom(x) => x.error(),
            AnyResponse::AuthorizationGuest(x) => x.error(),
            AnyResponse::Balance(x) => x.error(),
            AnyResponse::ClaimShadowWallet(x) => x.error(),
            AnyResponse::ContinuId(x) => x.error(),
            AnyResponse::CreateIdentifier(x) => x.error(),
            AnyResponse::CreateMeta(x) => x.error(),
            AnyResponse::CreateRule(x) => x.error(),
            AnyResponse::CreateToken(x) => x.error(),
            AnyResponse::CreateWallet(x) => x.error(),
            AnyResponse::LinkIdentifier(x) => x.error(),
            AnyResponse::MetaBatch(x) => x.error(),
            AnyResponse::MetaType(x) => x.error(),
            AnyResponse::MetaTypeViaAtom(x) => x.error(),
            AnyResponse::Policy(x) => x.error(),
            AnyResponse::ProposeMolecule(x) => x.error(),
            AnyResponse::QueryUserActivity(x) => x.error(),
            AnyResponse::RequestAuthorization(x) => x.error(),
            AnyResponse::RequestAuthorizationGuest(x) => x.error(),
            AnyResponse::RequestTokens(x) => x.error(),
            AnyResponse::TransferTokens(x) => x.error(),
            AnyResponse::WalletBundle(x) => x.error(),
            AnyResponse::WalletList(x) => x.error(),
            AnyResponse::Base(x) => x.error(),
        }
    }

    fn get(&self, key: &str) -> (r: Option<&JsonValue>) {
        match self {
            AnyResponse::ActiveSession(x) => x.get(key),
            AnyResponse::Atom(x) => x.get(key),
            AnyResponse::AuthorizationGuest(x) => x.get(key),
            AnyResponse::Balance(x) => x.get(key),
            AnyResponse::ClaimShadowWallet(x) => x.get(key),
            AnyResponse::ContinuId(x) => x.get(key),
            AnyResponse::CreateIdentifier(x) => x.get(key),
            AnyResponse::CreateMeta(x) => x.get(key),
            AnyResponse::CreateRule(x) => x.get(key),
            AnyResponse::CreateToken(x) => x.get(key),
            AnyResponse::CreateWallet(x) => x.get(key),
            AnyResponse::LinkIdentifier(x) => x.get(key),
            AnyResponse::MetaBatch(x) => x.get(key),
            AnyResponse::MetaType(x) => x.get(key),
            AnyResponse::MetaTypeViaAtom(x) => x.get(key),
            AnyResponse::Policy(x) => x.get(key),
            AnyResponse::ProposeMolecule(x) => x.get(key),
            AnyResponse::QueryUserActivity(x) => x.get(key),
            AnyResponse::RequestAuthorization(x) => x.get(key),
            AnyResponse::RequestAuthorizationGuest(x) => x.get(key),
            AnyResponse::RequestTokens(x) => x.get(key),
            AnyResponse::TransferTokens(x) => x.get(key),
            AnyResponse::WalletBundle(x) => x.get(key),
            AnyResponse::WalletList(x) => x.get(key),
            AnyResponse::Base(x) => x.get(key),
        }
    }

    fn payload(&self) -> (r: Option<&JsonValue>) {
        match self {
            AnyResponse::ActiveSession(x) => x.payload(),
            AnyResponse::Atom(x) => x.payload(),
            AnyResponse::AuthorizationGuest(x) => x.payload(),
            AnyResponse::Balance(x) => x.payload(),
            AnyResponse::ClaimShadowWallet(x) => x.payload(),
            AnyResponse::ContinuId(x) => x.payload(),
            AnyResponse::CreateIdentifier(x) => x.payload(),
            AnyResponse::CreateMeta(x) => x.payload(),
            AnyResponse::CreateRule(x) => x.payload(),
            AnyResponse::CreateToken(x) => x.payload(),
            AnyResponse::CreateWallet(x) => x.payload(),
            AnyResponse::LinkIdentifier(x) => x.payload(),
            AnyResponse::MetaBatch(x) => x.payload(),
            AnyResponse::MetaType(x) => x.payload(),
            AnyResponse::MetaTypeViaAtom(x) => x.payload(),
            AnyResponse::Policy(x) => x.payload(),
            AnyResponse::ProposeMolecule(x) => x.payload(),
            AnyResponse::QueryUserActivity(x) => x.payload(),
            AnyResponse::RequestAuthorization(x) => x.payload(),
            AnyResponse::RequestAuthorizationGuest(x) => x.payload(),
            AnyResponse::RequestTokens(x) => x.payload(),
            AnyResponse::TransferTokens(x) => x.payload(),
            AnyResponse::WalletBundle(x) => x.payload(),
            AnyResponse::WalletList(x) => x.payload(),
            AnyResponse::Base(x) => x.payload(),
        }
    }

    fn reason(&self) -> (r: Option<String>) {
        match self {
            AnyResponse::ActiveSession(x) => Response::reason(x),
            AnyResponse::Atom(x) => Response::reason(x),
            AnyResponse::AuthorizationGuest(x) => Response::reason(x),
            AnyResponse::Balance(x) => Response::reason(x),
            AnyResponse::ClaimShadowWallet(x) => Response::reason(x),
            AnyResponse::ContinuId(x) => Response::reason(x),
            AnyResponse::CreateIdentifier(x) => Response::reason(x),
            AnyResponse::CreateMeta(x) => Response::reason(x),
            AnyResponse::CreateRule(x) => Response::reason(x),
            AnyResponse::CreateToken(x) => Response::reason(x),
            AnyResponse::CreateWallet(x) => Response::reason(x),
            AnyResponse::LinkIdentifier(x) => Response::reason(x),
            AnyResponse::MetaBatch(x) => Response::reason(x),
            AnyResponse::MetaType(x) => Response::reason(x),
            AnyResponse::MetaTypeViaAtom(x) => Response::reason(x),
            AnyResponse::Policy(x) => Response::reason(x),
            AnyResponse::ProposeMolecule(x) => Response::reason(x),
            AnyResponse::QueryUserActivity(x) => Response::reason(x),
            AnyResponse::RequestAuthorization(x) => Response::reason(x),
            AnyResponse::RequestAuthorizationGuest(x) => Response::reason(x),
            AnyResponse::RequestTokens(x) => Response::reason(x),
            AnyResponse::TransferTokens(x) => Response::reason(x),
            AnyResponse::WalletBundle(x) => Response::reason(x),
            AnyResponse::WalletList(x) => Response::reason(x),
            AnyResponse::Base(x) => Response::reason(x),
        }
    }

    fn status(&self) -> (r: Option<String>) {
        match self {
            AnyResponse::ActiveSession(x) => Response::status(x),
            AnyResponse::Atom(x) => Response::status(x),
            AnyResponse::AuthorizationGuest(x) => Response::status(x),
            AnyResponse::Balance(x) => Response::status(x),
            AnyResponse::ClaimShadowWallet(x) => Response::status(x),
            AnyResponse::ContinuId(x) => Response::status(x),
            AnyResponse::CreateIdentifier(x) => Response::status(x),
            AnyResponse::CreateMeta(x) => Response::status(x),
            AnyResponse::CreateRule(x) => Response::status(x),
            AnyResponse::CreateToken(x) => Response::status(x),
            AnyResponse::CreateWallet(x) => Response::status(x),
            AnyResponse::LinkIdentifier(x) => Response::status(x),
            AnyResponse::MetaBatch(x) => Response::status(x),
            AnyResponse::MetaType(x) => Response::status(x),
            AnyResponse::MetaTypeViaAtom(x) => Response::status(x),
            AnyResponse::Policy(x) => Response::status(x),
            AnyResponse::ProposeMolecule(x) => Response::status(x),
            AnyResponse::QueryUserActivity(x) => Response::status(x),
            AnyResponse::RequestAuthorization(x) => Response::status(x),
            AnyResponse::RequestAuthorizationGuest(x) => Response::status(x),
            AnyResponse::RequestTokens(x) => Response::status(x),
            AnyResponse::TransferTokens(x) => Response::status(x),
            AnyResponse::WalletBundle(x) => Response::status(x),
            AnyResponse::WalletList(x) => Response::status(x),
            AnyResponse::Base(x) => Response::status(x),
        }
    }

    fn to_json(&self) -> (r: JsonValue) {
        match self {
            AnyResponse::ActiveSession(x) => x.to_json(),
            AnyResponse::Atom(x) => x.to_json(),
            AnyResponse::AuthorizationGuest(x) => x.to_json(),
            AnyResponse::Balance(x) => x.to_json(),
            AnyResponse::ClaimShadowWallet(x) => x.to_json(),
            AnyResponse::ContinuId(x) => x.to_json(),
            AnyResponse::CreateIdentifier(x) => x.to_json(),
            AnyResponse::CreateMeta(x) => x.to_json(),
            AnyResponse::CreateRule(x) => x.to_json(),
            AnyResponse::CreateToken(x) => x.to_json(),
            AnyResponse::CreateWallet(x) => x.to_json(),
            AnyResponse::LinkIdentifier(x) => x.to_json(),
            AnyResponse::MetaBatch(x) => x.to_json(),
            AnyResponse::MetaType(x) => x.to_json(),
            AnyResponse::MetaTypeViaAtom(x) => x.to_json(),
            AnyResponse::Policy(x) => x.to_json(),
            AnyResponse::ProposeMolecule(x) => x.to_json(),
            AnyResponse::QueryUserActivity(x) => x.to_json(),
            AnyResponse::RequestAuthorization(x) => x.to_json(),
            AnyResponse::RequestAuthorizationGuest(x) => x.to_json(),
            AnyResponse::RequestTokens(x) => x.to_json(),
            AnyResponse::TransferTokens(x) => x.to_json(),
            AnyResponse::WalletBundle(x) => x.to_json(),
            AnyResponse::WalletList(x) => x.to_json(),
            AnyResponse::Base(x) => x.to_json(),
        }
    }

    fn query(&self) -> (r: Option<&JsonValue>) {
        match self {
            AnyResponse::ActiveSession(x) => x.query(),
            AnyResponse::Atom(x) => x.query(),
            AnyResponse::AuthorizationGuest(x) => x.query(),
            AnyResponse::Balance(x) => x.query(),
            AnyResponse::ClaimShadowWallet(x) => x.query(),
            AnyResponse::ContinuId(x) => x.query(),
            AnyResponse::CreateIdentifier(x) => x.query(),
            AnyResponse::CreateMeta(x) => x.query(),
            AnyResponse::CreateRule(x) => x.query(),
            AnyResponse::CreateToken(x) => x.query(),
            AnyResponse::CreateWallet(x) => x.query(),
            AnyResponse::LinkIdentifier(x) => x.query(),
            AnyResponse::MetaBatch(x) => x.query(),
            AnyResponse::MetaType(x) => x.query(),
            AnyResponse::MetaTypeViaAtom(x) => x.query(),
            AnyResponse::Policy(x) => x.query(),
            AnyResponse::ProposeMolecule(x) => x.query(),
            AnyResponse::QueryUserActivity(x) => x.query(),
            AnyResponse::RequestAuthorization(x) => x.query(),
            AnyResponse::RequestAuthorizationGuest(x) => x.query(),
            AnyResponse::RequestTokens(x) => x.query(),
            AnyResponse::TransferTokens(x) => x.query(),
            AnyResponse::WalletBundle(x) => x.query(),
            AnyResponse::WalletList(x) => x.query(),
            AnyResponse::Base(x) => x.query(),
        }
    }
}

/// Builds the response that fits an operation.
pub struct ResponseFactory;

impl ResponseFactory {
    /// The response to a query operation: the kind that `query_kind` names, with
    /// its data at `query_data_key`; refused as `rejection` says.
    pub fn create_response(operation: &str, json: JsonValue, query: Option<JsonValue>) -> (r: Result<
        AnyResponse,
        KnishIOError,
    >)
        requires
            operation@ == "UserActivity"@ ==> rejection(json@) is None,
        ensures
            match r {
                Ok(a) => rejection(json@) is None && query_kind(operation@, a) && a.raw_answer() == json@
                    && a.view_data() == data_view(json@, query_data_key(operation@))
                    && (operation@ != "UserActivity"@ ==> a.query_view() == opt_json(query)),
                Err(e) => rejection(json@) == Some(e),
            },
    {
        if str_eq(operation, "ActiveSession") {
            Ok(AnyResponse::ActiveSession(ResponseActiveSession::new(json, query)?))
        } else if str_eq(operation, "Atom") {
            Ok(AnyResponse::Atom(ResponseAtom::new(json, query)?))
        } else if str_eq(operation, "AuthorizeGuest") {
            Ok(AnyResponse::AuthorizationGuest(ResponseAuthorizationGuest::new(json, query)?))
        } else if str_eq(operation, "Balance") {
            Ok(AnyResponse::Balance(ResponseBalance::new(json, query)?))
        } else if str_eq(operation, "ContinuId") {
            Ok(AnyResponse::ContinuId(ResponseContinuId::new(json, query)?))
        } else if str_eq(operation, "ProposeMolecule") {
            Ok(AnyResponse::ProposeMolecule(ResponseProposeMolecule::new(json, query)?))
        } else if str_eq(operation, "AccessToken") {
            Ok(AnyResponse::RequestAuthorizationGuest(ResponseRequestAuthorizationGuest::new(json, query)?))
        } else if str_eq(operation, "Wallet") {
            Ok(AnyResponse::WalletList(ResponseWalletList::new(json, query)?))
        } else if str_eq(operation, "WalletBundle") {
            Ok(AnyResponse::WalletBundle(ResponseWalletBundle::new(json, query)?))
        } else if str_eq(operation, "LinkIdentifier") {
            Ok(AnyResponse::LinkIdentifier(ResponseLinkIdentifier::new(json, query)?))
        } else if str_eq(operation, "Batch") {
            Ok(AnyResponse::MetaBatch(ResponseMetaBatch::new(json, query)?))
        } else if str_eq(operation, "MetaType") {
            Ok(AnyResponse::MetaType(ResponseMetaType::new(json, query)?))
        } else if str_eq(operation, "AtomsByMoleculeLookup") {
            Ok(AnyResponse::MetaTypeViaAtom(ResponseMetaTypeViaAtom::new(json, query)?))
        } else if str_eq(operation, "Rule") {
            Ok(AnyResponse::Policy(ResponsePolicy::new(json, query)?))
        } else if str_eq(operation, "UserActivity") {
            Ok(AnyResponse::QueryUserActivity(ResponseQueryUserActivity::new(json)))
        } else {
            Ok(AnyResponse::Base(BaseResponse::with_query(json, query)?))
        }
    }

    /// The response to a mutation: the kind that `mutation_kind` names, with its
    /// data at `mutation_data_key`; refused as `rejection` says.
    pub fn create_mutation_response(
        mutation_name: &str,
        json: JsonValue,
        query: Option<JsonValue>,
        molecule: Option<Molecule>,
    ) -> (r: Result<AnyResponse, KnishIOError>)
        requires
            unchecked_mutation(mutation_name@) ==> rejection(json@) is None,
        ensures
            match r {
                Ok(a) => rejection(json@) is None && mutation_kind(mutation_name@, a) && a.raw_answer() == json@
                    && a.view_data() == data_view(json@, Some(mutation_data_key(a)))
                    && (!unchecked_mutation(mutation_name@) ==> a.query_view() == opt_json(query)),
                Err(e) => rejection(json@) == Some(e),
            },
    {
        if str_eq(mutation_name, "ProposeMolecule") {
            Ok(AnyResponse::ProposeMolecule(ResponseProposeMolecule::with_molecule(json, query, molecule)?))
        } else if str_eq(mutation_name, "CreateToken") {
            Ok(AnyResponse::CreateToken(ResponseCreateToken::new(json)))
        } else if str_eq(mutation_name, "CreateWallet") {
            Ok(AnyResponse::CreateWallet(ResponseCreateWallet::new(json)))
        } else if str_eq(mutation_name, "TransferTokens") {
            Ok(AnyResponse::TransferTokens(ResponseTransferTokens::new(json)))
        } else if str_eq(mutation_name, "RequestTokens") {
            Ok(AnyResponse::RequestTokens(ResponseRequestTokens::new(json)))
        } else if str_eq(mutation_name, "CreateIdentifier") {
            Ok(AnyResponse::CreateIdentifier(ResponseCreateIdentifier::new(json, query)?))
        } else if str_eq(mutation_name, "CreateMeta") {
            Ok(AnyResponse::CreateMeta(ResponseCreateMeta::new(json)))
        } else if str_eq(mutation_name, "CreateRule") {
            Ok(AnyResponse::CreateRule(ResponseCreateRule::new(json)))
        } else if str_eq(mutation_name, "ClaimShadowWallet") {
            Ok(AnyResponse::ClaimShadowWallet(ResponseClaimShadowWallet::new(json, query)?))
        } else if str_eq(mutation_name, "RequestAuthorization") {
            Ok(AnyResponse::RequestAuthorization(ResponseRequestAuthorization::new(json)))
        } else if str_eq(mutation_name, "RequestAuthorizationGuest") {
            Ok(AnyResponse::RequestAuthorizationGuest(ResponseRequestAuthorizationGuest::new(json, query)?))
        } else {
            Ok(AnyResponse::ProposeMolecule(ResponseProposeMolecule::new(json, query)?))
        }
    }
}

} // verus!
