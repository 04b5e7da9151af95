//! One query and its answer, end to end.

use vstd::prelude::*;
use crate::codec::{request_frame, response_frame, response_round_trip};
use crate::record::StatusRecord;
use crate::requester::{elapsed, query_step, PendingQuery, QueryStepView, ReplyEventView};
use crate::responder::{action_for, ActionView, EventView, ResponderState};

verus! {

/// A listening responder answers the request frame with the frame of the
/// current record, and a query that receives that frame within its timeout
/// ends with exactly that record and the time that passed.
pub proof fn query_returns_current_record(current: StatusRecord, query: PendingQuery, now: nat)
    requires
        elapsed(query.sent_at(), now) <= query.timeout(),
    ensures
        action_for(ResponderState::Listening, current@, EventView::Datagram(request_frame()))
            == ActionView::Reply(response_frame(current@)),
        query_step(
            query.sent_at(),
            query.timeout(),
            ReplyEventView::FromServer(response_frame(current@)),
            now,
        ) == QueryStepView::Answered(current@, elapsed(query.sent_at(), now)),
{
    response_round_trip(current);
}

} // verus!
