use crate::raffle::RaffleView;
use crate::store::StoreView;
use crate::store::store_with_raffle;
use crate::store::store_with_ticket;
use crate::store::store_without_raffle;
use crate::store::store_without_ticket;
use crate::ticket::TicketView;
use vstd::prelude::*;

verus! {

/// A raffle created then immediately read back yields identical field
/// values: after a record is written under a fresh identity, exactly that
/// record exists there, and the ticket records are untouched.
pub proof fn lemma_raffle_round_trip(s: StoreView, id: Seq<u8>, r: RaffleView)
    ensures
        store_with_raffle(s, id, r).raffles.contains_key(id),
        store_with_raffle(s, id, r).raffles[id] == r,
        store_with_raffle(s, id, r).tickets == s.tickets,
{
}

/// Writing a raffle record under a fresh identity disturbs no record under
/// any other identity.
pub proof fn lemma_create_raffle_frames_others(
    s: StoreView,
    id: Seq<u8>,
    r: RaffleView,
    other: Seq<u8>,
)
    requires
        other != id,
    ensures
        store_with_raffle(s, id, r).raffles.contains_key(other) == s.raffles.contains_key(other),
        s.raffles.contains_key(other) ==> store_with_raffle(s, id, r).raffles[other]
            == s.raffles[other],
{
}

/// After a raffle is closed, no record remains under its identity — so any
/// further operation addressing that identity finds nothing and fails — and
/// every record under another identity is untouched.
pub proof fn lemma_end_raffle_erases(s: StoreView, id: Seq<u8>, other: Seq<u8>)
    ensures
        !store_without_raffle(s, id).raffles.contains_key(id),
        store_without_raffle(s, id).tickets == s.tickets,
        other != id ==> store_without_raffle(s, id).raffles.contains_key(other)
            == s.raffles.contains_key(other),
        other != id && s.raffles.contains_key(other) ==> store_without_raffle(s, id).raffles[other]
            == s.raffles[other],
{
}

/// A ticket purchased then immediately read back yields identical field
/// values, and the raffle records are untouched.
pub proof fn lemma_ticket_round_trip(s: StoreView, id: Seq<u8>, t: TicketView)
    ensures
        store_with_ticket(s, id, t).tickets.contains_key(id),
        store_with_ticket(s, id, t).tickets[id] == t,
        store_with_ticket(s, id, t).raffles == s.raffles,
{
}

/// After a ticket is closed, no record remains under its identity, and the
/// raffle records are untouched: a ticket's closure is independent of its
/// raffle's state, and destroys nothing but the ticket itself.
pub proof fn lemma_close_ticket_erases(s: StoreView, id: Seq<u8>, other: Seq<u8>)
    ensures
        !store_without_ticket(s, id).tickets.contains_key(id),
        store_without_ticket(s, id).raffles == s.raffles,
        other != id ==> store_without_ticket(s, id).tickets.contains_key(other)
            == s.tickets.contains_key(other),
        other != id && s.tickets.contains_key(other) ==> store_without_ticket(s, id).tickets[other]
            == s.tickets[other],
{
}

} // verus!
