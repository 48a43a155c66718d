//! The execution result: what the simulator reports for each message of a
//! batch, folded into one answer for the caller.

use vstd::prelude::*;

verus! {

/// An event that the simulator emitted.
#[derive(Debug, Clone, PartialEq, Eq)]
pub struct Event {
    pub ty: String,
    pub attributes: Vec<(String, String)>,
}

/// What the simulator reports for one message of a batch.
#[derive(Debug, Clone, PartialEq, Eq)]
pub struct SubResult {
    pub events: Vec<Event>,
    pub data: Option<Vec<u8>>,
}

/// The aggregate result of a batch.
#[derive(Debug, Clone, PartialEq, Eq)]
pub struct ExecutionResult {
    /// The response payload of the last message that gave one; empty where
    /// none did.
    pub raw_data: Vec<u8>,
    /// The events of all messages, in submission order.
    pub events: Vec<Event>,
    pub gas_wanted: u64,
    pub gas_used: u64,
}

/// Why a batch was not executed.
#[derive(Debug, Clone, PartialEq, Eq)]
pub enum ExecutionError {
    /// The simulator refused the batch; nothing of it took effect.
    Rejected { reason: String },
}

/// The events of all sub-results: those of the first, then those of the
/// second, and so on, each list in its own order.
pub open spec fn all_events(subs: Seq<SubResult>) -> Seq<Event>
    decreases subs.len(),
{
    if subs.len() == 0 {
        Seq::empty()
    } else {
        all_events(subs.drop_last()) + subs.last().events@
    }
}

/// Whether a sub-result carries a response: a payload that is present and
/// not empty.
pub open spec fn carries_payload(sub: SubResult) -> bool {
    sub.data matches Some(d) && d@.len() > 0
}

/// The response payload of the last sub-result that carries one.
pub open spec fn last_data(subs: Seq<SubResult>) -> Option<Vec<u8>>
    decreases subs.len(),
{
    if subs.len() == 0 {
        None
    } else if carries_payload(subs.last()) {
        subs.last().data
    } else {
        last_data(subs.drop_last())
    }
}

/// The bytes that a batch answers with: those of [`last_data`], or none.
pub open spec fn response_bytes(subs: Seq<SubResult>) -> Seq<u8> {
    match last_data(subs) {
        Some(d) => d@,
        None => Seq::empty(),
    }
}

/// The last non-empty payload wins: where the sub-result at `i` carries a
/// payload and none after it does, the batch answers with that payload.
pub proof fn lemma_last_payload_wins(subs: Seq<SubResult>, i: int)
    requires
        0 <= i < subs.len(),
        carries_payload(subs[i]),
        forall|j: int| i < j < subs.len() ==> !carries_payload(#[trigger] subs[j]),
    ensures
        last_data(subs) == subs[i].data,
        response_bytes(subs) == subs[i].data.unwrap()@,
    decreases subs.len(),
{
    if i < subs.len() - 1 {
        lemma_last_payload_wins(subs.drop_last(), i);
    }
}

/// A batch in which no sub-result carries a payload answers with no bytes.
pub proof fn lemma_no_payload(subs: Seq<SubResult>)
    requires
        forall|j: int| 0 <= j < subs.len() ==> !carries_payload(#[trigger] subs[j]),
    ensures
        last_data(subs) is None,
        response_bytes(subs) == Seq::<u8>::empty(),
    decreases subs.len(),
{
    if subs.len() > 0 {
        lemma_no_payload(subs.drop_last());
    }
}

/// The events of a batch are those of its front followed by those of its
/// back, so the order across and within sub-results is kept.
pub proof fn lemma_events_concat(a: Seq<SubResult>, b: Seq<SubResult>)
    ensures
        all_events(a + b) == all_events(a) + all_events(b),
    decreases b.len(),
{
    if b.len() == 0 {
        assert(a + b =~= a);
        assert(all_events(a) + all_events(b) =~= all_events(a));
    } else {
        assert((a + b).drop_last() =~= a + b.drop_last());
        assert((a + b).last() == b.last());
        lemma_events_concat(a, b.drop_last());
        assert(all_events(a + b) =~= all_events(a) + all_events(b));
    }
}

/// Folds the sub-results of a batch into one result. Gas is not metered:
/// both gas figures are zero.
pub fn aggregate(subs: Vec<SubResult>) -> (r: ExecutionResult)
    ensures
        r.events@ == all_events(subs@),
        r.raw_data@ == response_bytes(subs@),
        r.gas_wanted == 0,
        r.gas_used == 0,
{
    let mut rest = subs;
    let mut events: Vec<Event> = Vec::new();
    let mut data: Option<Vec<u8>> = None;
    assert(all_events(rest@) + events@ =~= all_events(rest@));
    while rest.len() > 0
        invariant
            all_events(subs@) == all_events(rest@) + events@,
            last_data(subs@) == (if data is Some {
                data
            } else {
                last_data(rest@)
            }),
        decreases rest.len(),
    {
        let ghost before = rest@;
        let ghost tail = events@;
        let sub = rest.pop().unwrap();
        assert(rest@ =~= before.drop_last());
        let SubResult { events: mut front, data: payload } = sub;
        front.append(&mut events);
        events = front;
        if data.is_none() {
            match payload {
                Some(bytes) => {
                    if bytes.len() > 0 {
                        data = Some(bytes);
                    }
                },
                None => {},
            }
        }
        assert(all_events(rest@) + events@ =~= all_events(before) + tail);
    }
    let raw_data = match data {
        Some(d) => d,
        None => Vec::new(),
    };
    assert(all_events(rest@) + events@ =~= events@);
    ExecutionResult { raw_data, events, gas_wanted: 0, gas_used: 0 }
}

} // verus!
