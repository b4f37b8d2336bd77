//! The verified per-connection logic: which reaction each decoded operation
//! receives, and how a connection's lifecycle follows from those reactions.

use vstd::prelude::*;

use crate::codec;
use ldap3_proto::proto::LdapMsg;
use ldap3_proto::simple::CompareRequest;
use ldap3_proto::simple::SearchRequest;
use ldap3_proto::simple::SimpleBindRequest;
use ldap3_proto::simple::WhoamiRequest;

verus! {

/// A decoded client operation, one variant per request kind the codec can
/// produce. The contracts read only the kind and the message id; the payload
/// is handed back to the codec to build the response.
pub enum Op {
    SimpleBind(SimpleBindRequest),
    Search(SearchRequest),
    Unbind,
    Whoami(WhoamiRequest),
    Compare(CompareRequest),
}

/// What the server does with one frame: reply and keep the connection open,
/// send a final notice and close, or close with nothing sent.
pub enum Reaction {
    /// Send every message, flush, and await the next request.
    Reply(Vec<LdapMsg>),
    /// Send this one message, flush, and close the connection.
    Notice(LdapMsg),
    /// Close the connection without sending anything.
    Close,
}

/// The one closing notice this server ever sends: the disconnection notice
/// with the generic result code and its fixed diagnostic text.
pub open spec fn is_error_notice(r: Reaction) -> bool {
    r matches Reaction::Notice(n) && n == codec::disconnection_notice_of(
        "Internal Server Error"@,
    )
}

/// The reaction owed to each operation: the three handled request kinds get
/// exactly the one success response addressed to their message id — for a
/// bind whatever its credentials, for a search with no entries, for whoami
/// with the fixed anonymous identity — unbind closes silently, and a compare
/// request, decodable but not served here, gets the closing notice.
pub open spec fn reaction_for(op: Op, r: Reaction) -> bool {
    match op {
        Op::SimpleBind(sbr) => (r matches Reaction::Reply(v) && v@.len() == 1
            && v@[0] == codec::bind_success_of(sbr.msgid as int)),
        Op::Search(sr) => (r matches Reaction::Reply(v) && v@.len() == 1
            && v@[0] == codec::search_success_of(sr.msgid as int)),
        Op::Unbind => r matches Reaction::Close,
        Op::Whoami(wr) => (r matches Reaction::Reply(v) && v@.len() == 1
            && v@[0] == codec::whoami_success_of(wr.msgid as int, "dn: Anonymous"@)),
        Op::Compare(_) => is_error_notice(r),
    }
}

/// The reaction owed to one frame as read off the wire: whatever the codec
/// could not decode or classify gets the closing notice, and a classified
/// operation gets the reaction [`reaction_for`] owes it.
pub open spec fn frame_reaction(frame: Option<LdapMsg>, r: Reaction) -> bool {
    match frame {
        None => is_error_notice(r),
        Some(m) => match codec::decoded_of(m) {
            None => is_error_notice(r),
            Some(op) => reaction_for(op, r),
        },
    }
}

/// Every reply batch holds exactly one message: no request is answered twice,
/// and none of the handled kinds is answered with silence.
pub open spec fn single_reply(r: Reaction) -> bool {
    r matches Reaction::Reply(v) ==> v@.len() == 1
}

/// Decide the reaction to one decoded operation. Success is unconditional:
/// a bind is acknowledged whatever credentials it carried, a search ends at
/// once with an empty success, and whoami reports the anonymous identity.
pub fn dispatch(op: Op) -> (r: Reaction)
    ensures
        reaction_for(op, r),
        single_reply(r),
{
    match op {
        Op::SimpleBind(sbr) => Reaction::Reply(vec![codec::bind_success(&sbr)]),
        Op::Search(sr) => Reaction::Reply(vec![codec::search_success(&sr)]),
        Op::Unbind => Reaction::Close,
        Op::Whoami(wr) => Reaction::Reply(vec![codec::whoami_success(&wr, "dn: Anonymous")]),
        Op::Compare(_) => Reaction::Notice(codec::disconnection_notice("Internal Server Error")),
    }
}

/// Decide the reaction to the outcome of decoding one frame: a frame that
/// produced no recognisable operation gets the closing notice, a decoded
/// operation gets the reaction [`dispatch`] owes it.
pub fn react(decoded: Option<Op>) -> (r: Reaction)
    ensures
        decoded is None ==> is_error_notice(r),
        decoded matches Some(op) ==> reaction_for(op, r),
        single_reply(r),
{
    match decoded {
        None => Reaction::Notice(codec::disconnection_notice("Internal Server Error")),
        Some(op) => dispatch(op),
    }
}

/// Handle one frame as read off the wire: `None` where the codec could not
/// decode a frame at all, `Some` where it produced a message. A message that
/// is no recognisable request is answered like a broken frame, with the
/// closing notice.
pub fn handle_frame(frame: Option<LdapMsg>) -> (r: Reaction)
    ensures
        frame_reaction(frame, r),
        single_reply(r),
{
    match frame {
        None => react(None),
        Some(msg) => react(codec::decode_op(msg)),
    }
}

/// One client connection's lifecycle, as the loop around [`handle_frame`]
/// drives it: it opens with the socket, stays open exactly as long as frames
/// keep being answered with replies, and closes on unbind, on anything
/// undecodable, on a send or flush failure, and when the client hangs up.
pub struct Connection {
    open: bool,
}

impl Connection {
    /// Whether the connection is still being served.
    pub closed spec fn is_open(self) -> bool {
        self.open
    }

    /// A freshly accepted connection is open.
    pub fn new() -> (c: Connection)
        ensures
            c.is_open(),
    {
        Connection { open: true }
    }

    /// Exposes [`Connection::is_open`] to callers outside the proof.
    pub fn is_active(&self) -> (b: bool)
        ensures
            b == self.is_open(),
    {
        self.open
    }

    /// Take one frame (or a decode failure, `None`) and decide the reaction.
    /// The connection stays open exactly where the reaction is an ordinary
    /// reply; a notice or a silent close ends it.
    pub fn on_frame(&mut self, frame: Option<LdapMsg>) -> (r: Reaction)
        requires
            old(self).is_open(),
        ensures
            final(self).is_open() == (r matches Reaction::Reply(_)),
            frame_reaction(frame, r),
            single_reply(r),
    {
        let r = handle_frame(frame);
        self.open = match r {
            Reaction::Reply(_) => true,
            Reaction::Notice(_) => false,
            Reaction::Close => false,
        };
        r
    }

    /// A failed send or flush ends the connection silently.
    pub fn on_send_failure(&mut self)
        ensures
            !final(self).is_open(),
    {
        self.open = false;
    }

    /// The client closed its end: the stream of frames is over.
    pub fn on_stream_end(&mut self)
        ensures
            !final(self).is_open(),
    {
        self.open = false;
    }
}

}

