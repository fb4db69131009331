use vstd::prelude::*;
use crate::error::TransportError;
use crate::ident::Tempmail;
use crate::message::Message;
use crate::message::MessageWire;
use crate::message::RawMessage;
use crate::message::RawMessageWire;
use crate::message::message_matches_wire;
use crate::message::raw_matches_wire;
use crate::message::normalize_message;
use crate::message::normalize_raw_messages;
use crate::query::list_query_spec;
use crate::query::read_query_spec;
use crate::timestamp::wire_format_ok;

verus! {

/// Where a fetch stands: waiting for the listing, reading messages one by
/// one, or over.
#[derive(Debug, Clone, Copy, PartialEq, Eq, Structural)]
pub enum FetchPhase {
    /// The listing request is outstanding.
    Listing,
    /// Reads are issued one at a time, in listing order.
    Reading,
    /// The fetch ended, successfully or not.
    Finished,
}

/// What the caller must do next to advance a fetch: issue a request with
/// the given query string and feed the decoded response back, or stop.
pub enum FetchAction {
    /// Issue the listing request and feed the response to `on_list`.
    RequestList {
        /// The query string of the listing call.
        query: String,
    },
    /// Issue a read request and feed the response to `on_read`.
    RequestRead {
        /// The query string of the read call.
        query: String,
    },
    /// The fetch is over; this is its outcome.
    Done {
        /// All messages in listing order, or the first failure.
        result: Result<Vec<Message>, TransportError>,
    },
}

/// Whether every listing entry carries a well-formed timestamp text.
pub open spec fn all_dates_ok(ws: Seq<RawMessageWire>) -> bool {
    forall|i: int| 0 <= i < ws.len() ==> wire_format_ok(#[trigger] ws[i].date@)
}

/// The two-stage fetch of a whole mailbox, with the network left to the
/// caller: the session hands out one query string at a time and consumes
/// the decoded responses.
///
/// Reads are issued sequentially, in listing order: the read of entry
/// `n + 1` is not handed out until the response for entry `n` has been fed
/// back, and the first failure of any kind ends the whole fetch with no
/// partial result.
pub struct FetchSession {
    /// The mailbox being fetched.
    pub mailbox: Tempmail,
    /// The normalized listing, once it arrived.
    pub raws: Vec<RawMessage>,
    /// The messages read so far, in listing order.
    pub collected: Vec<Message>,
    /// The index of the listing entry whose read is outstanding.
    pub next: usize,
    /// Where the fetch stands.
    pub phase: FetchPhase,
    /// The read responses accepted so far, in order.
    pub responses: Ghost<Seq<MessageWire>>,
}

impl FetchSession {
    /// The session's invariant between calls.
    pub open spec fn wf(self) -> bool {
        match self.phase {
            FetchPhase::Listing => {
                &&& self.raws@.len() == 0
                &&& self.collected@.len() == 0
                &&& self.next == 0
                &&& self.responses@.len() == 0
            },
            FetchPhase::Reading => {
                &&& self.next == self.collected@.len()
                &&& self.next < self.raws@.len()
                &&& self.responses@.len() == self.next
                &&& forall|i: int|
                    0 <= i < self.next ==> message_matches_wire(
                        #[trigger] self.responses@[i],
                        #[trigger] self.collected@[i],
                    ) && self.collected@[i].normalized()
            },
            FetchPhase::Finished => true,
        }
    }

    /// Opens a fetch for a mailbox and hands out the listing query; the
    /// decoded listing response goes to `on_list`.
    pub fn start(mailbox: Tempmail) -> (r: (FetchSession, String))
        ensures
            r.0.wf(),
            r.0.phase is Listing,
            r.0.mailbox == mailbox,
            r.1@ == list_query_spec(mailbox),
    {
        let query = mailbox.list_query();
        let session = FetchSession {
            mailbox,
            raws: Vec::new(),
            collected: Vec::new(),
            next: 0,
            phase: FetchPhase::Listing,
            responses: Ghost(Seq::empty()),
        };
        (session, query)
    }

    /// Feeds the listing response. A failed or undecodable listing ends the
    /// fetch with that failure; an empty listing ends it with no messages;
    /// otherwise the read of the first entry is handed out.
    pub fn on_list(&mut self, resp: Result<Vec<RawMessageWire>, TransportError>) -> (a:
        FetchAction)
        requires
            old(self).wf(),
            old(self).phase is Listing,
        ensures
            final(self).wf(),
            final(self).mailbox == old(self).mailbox,
            match resp {
                Err(e) => final(self).phase is Finished && (a matches FetchAction::Done { result }
                    && result == Err::<Vec<Message>, TransportError>(e)),
                Ok(ws) => if !all_dates_ok(ws@) {
                    final(self).phase is Finished && (a matches FetchAction::Done { result }
                        && result == Err::<Vec<Message>, TransportError>(TransportError::Decode))
                } else if ws@.len() == 0 {
                    final(self).phase is Finished && (a matches FetchAction::Done { result }
                        && result matches Ok(msgs) && msgs@.len() == 0)
                } else {
                    &&& final(self).phase is Reading
                    &&& final(self).next == 0
                    &&& final(self).collected@.len() == 0
                    &&& final(self).raws@.len() == ws@.len()
                    &&& forall|i: int|
                        0 <= i < ws@.len() ==> raw_matches_wire(
                            #[trigger] ws@[i],
                            #[trigger] final(self).raws@[i],
                        )
                    &&& (a matches FetchAction::RequestRead { query } && query@ == read_query_spec(
                        old(self).mailbox,
                        final(self).raws@[0].id as nat,
                    ))
                },
            },
    {
        match resp {
            Err(e) => {
                self.phase = FetchPhase::Finished;
                FetchAction::Done { result: Err(e) }
            },
            Ok(ws) => match normalize_raw_messages(&ws) {
                Err(e) => {
                    self.phase = FetchPhase::Finished;
                    FetchAction::Done { result: Err(e) }
                },
                Ok(rs) => {
                    proof {
                        assert forall|i: int| 0 <= i < ws@.len() implies wire_format_ok(
                            #[trigger] ws@[i].date@,
                        ) by {
                            assert(raw_matches_wire(ws@[i], rs@[i]));
                        }
                    }
                    if rs.len() == 0 {
                        self.phase = FetchPhase::Finished;
                        FetchAction::Done { result: Ok(Vec::new()) }
                    } else {
                        let query = self.mailbox.read_query(rs[0].id);
                        self.raws = rs;
                        self.phase = FetchPhase::Reading;
                        FetchAction::RequestRead { query }
                    }
                },
            },
        }
    }

    /// Feeds one read response. A failure or an undecodable timestamp ends
    /// the whole fetch at once — the remaining entries are never requested.
    /// Otherwise the normalized message is kept, and either the read of the
    /// next entry is handed out or the fetch ends with all messages in
    /// listing order.
    pub fn on_read(&mut self, resp: Result<MessageWire, TransportError>) -> (a: FetchAction)
        requires
            old(self).wf(),
            old(self).phase is Reading,
        ensures
            final(self).wf(),
            final(self).mailbox == old(self).mailbox,
            match resp {
                Err(e) => final(self).phase is Finished && (a matches FetchAction::Done { result }
                    && result == Err::<Vec<Message>, TransportError>(e)),
                Ok(w) => if !wire_format_ok(w.date@) {
                    final(self).phase is Finished && (a matches FetchAction::Done { result }
                        && result == Err::<Vec<Message>, TransportError>(TransportError::Decode))
                } else if old(self).next + 1 < old(self).raws@.len() {
                    &&& final(self).phase is Reading
                    &&& final(self).next == old(self).next + 1
                    &&& final(self).raws@ == old(self).raws@
                    &&& final(self).collected@.len() == old(self).collected@.len() + 1
                    &&& forall|i: int|
                        0 <= i < old(self).next ==> final(self).collected@[i] == old(
                            self,
                        ).collected@[i]
                    &&& message_matches_wire(w, final(self).collected@[old(self).next as int])
                    &&& final(self).collected@[old(self).next as int].normalized()
                    &&& final(self).responses@ == old(self).responses@.push(w)
                    &&& (a matches FetchAction::RequestRead { query } && query@ == read_query_spec(
                        old(self).mailbox,
                        old(self).raws@[old(self).next + 1].id as nat,
                    ))
                } else {
                    &&& final(self).phase is Finished
                    &&& (a matches FetchAction::Done { result } && result matches Ok(msgs) && {
                        &&& msgs@.len() == old(self).raws@.len()
                        &&& msgs@.len() == old(self).next + 1
                        &&& forall|i: int|
                            0 <= i < old(self).next ==> msgs@[i] == old(self).collected@[i]
                        &&& message_matches_wire(w, msgs@[old(self).next as int])
                        &&& msgs@[old(self).next as int].normalized()
                    })
                },
            },
    {
        match resp {
            Err(e) => {
                self.phase = FetchPhase::Finished;
                FetchAction::Done { result: Err(e) }
            },
            Ok(w) => {
                let ghost wire = w;
                match normalize_message(w) {
                    Err(e) => {
                        self.phase = FetchPhase::Finished;
                        FetchAction::Done { result: Err(e) }
                    },
                    Ok(m) => {
                        self.collected.push(m);
                        proof {
                            self.responses@ = self.responses@.push(wire);
                        }
                        let n = self.raws.len();
                        if self.next + 1 < n {
                            self.next = self.next + 1;
                            let id = self.raws[self.next].id;
                            let query = self.mailbox.read_query(id);
                            FetchAction::RequestRead { query }
                        } else {
                            self.phase = FetchPhase::Finished;
                            let mut msgs: Vec<Message> = Vec::new();
                            core::mem::swap(&mut msgs, &mut self.collected);
                            FetchAction::Done { result: Ok(msgs) }
                        }
                    },
                }
            },
        }
    }
}

} // verus!
