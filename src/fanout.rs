use vstd::prelude::*;

use crate::client::BarkPostBody;

verus! {

/// The response status when every destination accepted the notification.
pub const STATUS_OK: u16 = 200;

/// The response status when any delivery failed.
pub const STATUS_INTERNAL_SERVER_ERROR: u16 = 500;

/// One delivery to be made: a destination and its own copy of the payload.
#[derive(Debug)]
pub struct Delivery {
    pub url: String,
    pub body: BarkPostBody,
}

/// What became of one delivery.
#[derive(Debug)]
pub enum DeliveryOutcome {
    /// The request was sent.
    Delivered,
    /// Sending the request failed; the text describes why.
    SendFailed(String),
    /// The delivery task could not run to completion.
    TaskFailed(String),
}

/// Every delivery of the fan-out succeeded (vacuously so when there were none).
pub open spec fn all_delivered(outcomes: Seq<DeliveryOutcome>) -> bool {
    forall|i: int| 0 <= i < outcomes.len() ==> (#[trigger] outcomes[i]) is Delivered
}

/// The status that answers a webhook whose fan-out ended in `outcomes`.
pub open spec fn status_for(outcomes: Seq<DeliveryOutcome>) -> u16 {
    if all_delivered(outcomes) {
        STATUS_OK
    } else {
        STATUS_INTERNAL_SERVER_ERROR
    }
}

/// One delivery per destination, in the order of `urls`, each carrying its
/// own copy of `body`. No destinations means no deliveries.
pub fn plan_deliveries(body: &BarkPostBody, urls: &Vec<String>) -> (r: Vec<Delivery>)
    ensures
        r@.len() == urls@.len(),
        forall|i: int| 0 <= i < urls@.len() ==> (#[trigger] r@[i]).url@ == urls@[i]@ && r@[i].body == *body,
{
    let mut r: Vec<Delivery> = Vec::new();
    let mut i: usize = 0;
    while i < urls.len()
        invariant
            i <= urls@.len(),
            r@.len() == i,
            forall|j: int| 0 <= j < i ==> (#[trigger] r@[j]).url@ == urls@[j]@ && r@[j].body == *body,
        decreases urls@.len() - i,
    {
        r.push(Delivery { url: urls[i].clone(), body: body.duplicate() });
        i = i + 1;
    }
    r
}

/// The index of the first failed delivery, or `None` when all succeeded.
pub fn first_failure(outcomes: &Vec<DeliveryOutcome>) -> (r: Option<usize>)
    ensures
        match r {
            Some(i) => i < outcomes@.len() && !(outcomes@[i as int] is Delivered) && all_delivered(
                outcomes@.subrange(0, i as int),
            ),
            None => all_delivered(outcomes@),
        },
{
    let mut i: usize = 0;
    while i < outcomes.len()
        invariant
            i <= outcomes@.len(),
            forall|j: int| 0 <= j < i ==> (#[trigger] outcomes@[j]) is Delivered,
        decreases outcomes@.len() - i,
    {
        match &outcomes[i] {
            DeliveryOutcome::Delivered => {},
            _ => {
                assert(all_delivered(outcomes@.subrange(0, i as int)));
                return Some(i);
            },
        }
        i = i + 1;
    }
    None
}

/// The response status for a fan-out: success only when every delivery
/// succeeded, a server error as soon as any one failed.
pub fn response_status(outcomes: &Vec<DeliveryOutcome>) -> (r: u16)
    ensures
        r == status_for(outcomes@),
{
    match first_failure(outcomes) {
        Some(_) => STATUS_INTERNAL_SERVER_ERROR,
        None => STATUS_OK,
    }
}

/// A fan-out to no destinations succeeds.
pub proof fn lemma_empty_fanout_succeeds(outcomes: Seq<DeliveryOutcome>)
    requires
        outcomes.len() == 0,
    ensures
        status_for(outcomes) == STATUS_OK,
{
}

/// When every delivery succeeds, the fan-out succeeds.
pub proof fn lemma_all_delivered_succeeds(outcomes: Seq<DeliveryOutcome>)
    requires
        forall|i: int| 0 <= i < outcomes.len() ==> (#[trigger] outcomes[i]) is Delivered,
    ensures
        status_for(outcomes) == STATUS_OK,
{
}

/// One failed delivery fails the whole fan-out, whichever it is and however
/// many others succeeded.
pub proof fn lemma_failure_dominates(outcomes: Seq<DeliveryOutcome>, i: int)
    requires
        0 <= i < outcomes.len(),
        !(outcomes[i] is Delivered),
    ensures
        status_for(outcomes) == STATUS_INTERNAL_SERVER_ERROR,
{
}

} // verus!
