//! The trusted boundary around the `ldap3_proto` codec: declarations of its
//! message and request types, names for the messages its constructors return,
//! and thin wrappers over the calls the server logic makes. Nothing here is
//! verified; each item's doc comment names the outside function it relies on.

use vstd::prelude::*;

use crate::server::Op;
use ldap3_proto::proto::LdapFilter;
use ldap3_proto::proto::LdapMsg;
use ldap3_proto::proto::LdapSearchScope;
use ldap3_proto::simple::CompareRequest;
use ldap3_proto::simple::DisconnectionNotice;
use ldap3_proto::simple::LdapResultCode;
use ldap3_proto::simple::SearchRequest;
use ldap3_proto::simple::ServerOps;
use ldap3_proto::simple::SimpleBindRequest;
use ldap3_proto::simple::WhoamiRequest;

verus! {

#[verifier::external_type_specification]
#[verifier::external_body]
pub struct ExLdapMsg(LdapMsg);

#[verifier::external_type_specification]
#[verifier::external_body]
pub struct ExLdapSearchScope(LdapSearchScope);

#[verifier::external_type_specification]
#[verifier::external_body]
pub struct ExLdapFilter(LdapFilter);

// The three request types below are declared with their fields visible, so
// that contracts can read the message id a response is addressed to.

#[verifier::external_type_specification]
pub struct ExSimpleBindRequest(SimpleBindRequest);

#[verifier::external_type_specification]
pub struct ExSearchRequest(SearchRequest);

#[verifier::external_type_specification]
pub struct ExWhoamiRequest(WhoamiRequest);

#[verifier::external_type_specification]
#[verifier::external_body]
pub struct ExCompareRequest(CompareRequest);

/// What `ServerOps::try_from` makes of a message: the request it classifies
/// it as, under this library's operation type, or nothing where the message
/// is no recognisable request.
pub uninterp spec fn decoded_of(m: LdapMsg) -> Option<Op>;

/// The bind response that `SimpleBindRequest::gen_success` returns: the
/// success result code, addressed to the given message id. The source reads
/// nothing of the request but its message id.
pub uninterp spec fn bind_success_of(msgid: int) -> LdapMsg;

/// The search-done response that `SearchRequest::gen_success` returns: the
/// success result code and no entries, addressed to the given message id.
/// The source reads nothing of the request but its message id.
pub uninterp spec fn search_success_of(msgid: int) -> LdapMsg;

/// The extended response that `WhoamiRequest::gen_success` returns: the
/// success result code with the authorisation identity as its value,
/// addressed to the given message id.
pub uninterp spec fn whoami_success_of(msgid: int, authzid: Seq<char>) -> LdapMsg;

/// The unsolicited response that `DisconnectionNotice::gen_response` returns
/// for the generic "other" result code and the given diagnostic text.
pub uninterp spec fn disconnection_notice_of(msg: Seq<char>) -> LdapMsg;

/// Relies on `ServerOps::try_from`: it classifies a decoded message into one
/// of the request kinds, or fails on any message that is not a request the
/// codec recognises. The result depends on the message alone; the match
/// below only renames the variants, one arm each, deciding nothing.
#[verifier::external_body]
pub(crate) fn decode_op(msg: LdapMsg) -> (op: Option<Op>)
    ensures
        op == decoded_of(msg),
{
    match ServerOps::try_from(msg) {
        Ok(ServerOps::SimpleBind(r)) => Some(Op::SimpleBind(r)),
        Ok(ServerOps::Search(r)) => Some(Op::Search(r)),
        Ok(ServerOps::Unbind(_)) => Some(Op::Unbind),
        Ok(ServerOps::Whoami(r)) => Some(Op::Whoami(r)),
        Ok(ServerOps::Compare(r)) => Some(Op::Compare(r)),
        Err(()) => None,
    }
}

/// Relies on `SimpleBindRequest::gen_success`: its result is built from the
/// request's message id alone — the distinguished name and password play no
/// part in it.
#[verifier::external_body]
pub(crate) fn bind_success(r: &SimpleBindRequest) -> (m: LdapMsg)
    ensures
        m == bind_success_of(r.msgid as int),
{
    r.gen_success()
}

/// Relies on `SearchRequest::gen_success`: its result is built from the
/// request's message id alone — the base, scope, filter and attribute list
/// play no part in it.
#[verifier::external_body]
pub(crate) fn search_success(r: &SearchRequest) -> (m: LdapMsg)
    ensures
        m == search_success_of(r.msgid as int),
{
    r.gen_success()
}

/// Relies on `WhoamiRequest::gen_success`: its result is built from the
/// request's message id and the given authorisation identity alone.
#[verifier::external_body]
pub(crate) fn whoami_success(r: &WhoamiRequest, authzid: &str) -> (m: LdapMsg)
    ensures
        m == whoami_success_of(r.msgid as int, authzid@),
{
    r.gen_success(authzid)
}

/// Relies on `DisconnectionNotice::gen_response` with the generic "other"
/// result code: the unsolicited extended response that announces the
/// connection is about to close, carrying `msg` as its diagnostic text. Its
/// result is built from the code and the text alone.
#[verifier::external_body]
pub(crate) fn disconnection_notice(msg: &str) -> (m: LdapMsg)
    ensures
        m == disconnection_notice_of(msg@),
{
    DisconnectionNotice::gen_response(LdapResultCode::Other, msg)
}

}
