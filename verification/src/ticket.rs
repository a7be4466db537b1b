use crate::keys::Pubkey;
use crate::raffle::AuthorizationPolicy;
use crate::raffle::RaffleView;
use vstd::prelude::*;

verus! {

/// Fixed byte budget of a ticket record's typed fields: two 32-byte keys.
pub const TICKET_RECORD_BYTES: usize = 32 + 32;

/// Full allocation of a ticket record: the discriminant header followed by
/// the typed fields' fixed budget.
pub const TICKET_ALLOCATION_BYTES: usize = crate::raffle::RECORD_HEADER_BYTES
    + TICKET_RECORD_BYTES;

/// One successful purchase: durable evidence that `participant` bought into
/// `raffle`. Immutable after creation; only the stored `participant` may
/// destroy the record.
pub struct Ticket {
    /// Identity of the raffle record this ticket was purchased against.
    pub raffle: Pubkey,
    /// Identity of the purchaser; ownership key for closing the ticket.
    pub participant: Pubkey,
}

/// The mathematical content of a [`Ticket`] record.
pub ghost struct TicketView {
    pub raffle: Seq<u8>,
    pub participant: Seq<u8>,
}

impl View for Ticket {
    type V = TicketView;

    open spec fn view(&self) -> TicketView {
        TicketView { raffle: self.raffle@, participant: self.participant@ }
    }
}

/// Whether a co-signing identity satisfies the raffle's authorization policy:
/// under the unconditional policy the authority must always co-sign; under
/// the conditional policy only when the raffle's flag is 1.
pub open spec fn purchase_authorized(raffle: RaffleView, cosigner: Seq<u8>) -> bool {
    match raffle.policy {
        AuthorizationPolicy::Unconditional => cosigner == raffle.authority,
        AuthorizationPolicy::ConditionalOnFlag => raffle.requires_author == 1 ==> cosigner
            == raffle.authority,
    }
}

/// A raffle is open at `now` exactly when `now` is strictly before its end.
pub open spec fn raffle_open(raffle: RaffleView, now: i64) -> bool {
    now < raffle.ends
}

/// The verified identities accompanying a ticket purchase: the co-signing
/// authority identity, the purchasing participant that signs and funds the
/// new record, and the identity of the raffle purchased against.
#[derive(Clone, Copy, Debug)]
pub struct CreateTicket {
    pub authority: Pubkey,
    pub participant: Pubkey,
    pub raffle: Pubkey,
}

/// The verified identities accompanying a ticket closure: the signing caller
/// and the identity of the ticket record to destroy.
#[derive(Clone, Copy, Debug)]
pub struct CloseTicketAccount {
    pub participant: Pubkey,
    pub ticket: Pubkey,
}

} // verus!
