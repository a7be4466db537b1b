use crate::errors::RaffleError;
use crate::errors::StoreError;
use crate::keys::Pubkey;
use crate::raffle::AuthorizationPolicy;
use crate::raffle::CreateRaffle;
use crate::raffle::EndRaffle;
use crate::raffle::MAX_DESCRIPTION_CHARS;
use crate::raffle::MAX_TITLE_CHARS;
use crate::raffle::Raffle;
use crate::raffle::RaffleView;
use crate::raffle::valid_raffle_inputs;
use crate::table::RecordTable;
use crate::ticket::CloseTicketAccount;
use crate::ticket::CreateTicket;
use crate::ticket::Ticket;
use crate::ticket::TicketView;
use crate::ticket::purchase_authorized;
use crate::ticket::raffle_open;
use vstd::prelude::*;
use vstd::string::StrSliceExecFns;

verus! {

/// The mathematical content of the store: which raffle and which ticket
/// records exist, by 32-byte identity.
pub ghost struct StoreView {
    pub raffles: Map<Seq<u8>, RaffleView>,
    pub tickets: Map<Seq<u8>, TicketView>,
}

/// The durable record store: every live raffle and ticket record, addressed
/// by the identity it was allocated under. Each operation against it either
/// completes in full or leaves the store exactly as it was.
pub struct RecordStore {
    raffles: RecordTable<Raffle>,
    tickets: RecordTable<Ticket>,
}

impl View for RecordStore {
    type V = StoreView;

    closed spec fn view(&self) -> StoreView {
        StoreView { raffles: self.raffles@, tickets: self.tickets@ }
    }
}

/// The raffle record a successful creation writes: the caller's verified
/// identity as authority, every other field verbatim.
pub open spec fn created_raffle(
    ctx: CreateRaffle,
    price: u64,
    ends: i64,
    title: Seq<char>,
    description: Seq<char>,
    image: Seq<char>,
    winners: u8,
    requires_author: u8,
    policy: AuthorizationPolicy,
) -> RaffleView {
    RaffleView {
        authority: ctx.authority@,
        ends: ends,
        price: price,
        title: title,
        description: description,
        image: image,
        winners: winners,
        requires_author: requires_author,
        policy: policy,
    }
}

/// The ticket record a successful purchase writes: the back-reference to the
/// raffle purchased against, and the purchaser as participant.
pub open spec fn purchased_ticket(ctx: CreateTicket) -> TicketView {
    TicketView { raffle: ctx.raffle@, participant: ctx.participant@ }
}

/// The store after a raffle record is written under a fresh identity.
pub open spec fn store_with_raffle(s: StoreView, id: Seq<u8>, r: RaffleView) -> StoreView {
    StoreView { raffles: s.raffles.insert(id, r), tickets: s.tickets }
}

/// The store after the raffle record under `id` is destroyed.
pub open spec fn store_without_raffle(s: StoreView, id: Seq<u8>) -> StoreView {
    StoreView { raffles: s.raffles.remove(id), tickets: s.tickets }
}

/// The store after a ticket record is written under a fresh identity.
pub open spec fn store_with_ticket(s: StoreView, id: Seq<u8>, t: TicketView) -> StoreView {
    StoreView { raffles: s.raffles, tickets: s.tickets.insert(id, t) }
}

/// The store after the ticket record under `id` is destroyed.
pub open spec fn store_without_ticket(s: StoreView, id: Seq<u8>) -> StoreView {
    StoreView { raffles: s.raffles, tickets: s.tickets.remove(id) }
}

impl RecordStore {
    /// The store is well formed when each record kind's slots carry distinct
    /// identities.
    pub closed spec fn wf(&self) -> bool {
        self.raffles.wf() && self.tickets.wf()
    }

    /// An empty store: no record of either kind.
    pub fn new() -> (s: RecordStore)
        ensures
            s.wf(),
            s@.raffles == Map::<Seq<u8>, RaffleView>::empty(),
            s@.tickets == Map::<Seq<u8>, TicketView>::empty(),
    {
        RecordStore { raffles: RecordTable::new(), tickets: RecordTable::new() }
    }

    /// Read the raffle record stored under `id`, if any.
    pub fn get_raffle(&self, id: &Pubkey) -> (r: Option<&Raffle>)
        requires
            self.wf(),
        ensures
            match r {
                Some(v) => self@.raffles.contains_key(id@) && v@ == self@.raffles[id@],
                None => !self@.raffles.contains_key(id@),
            },
    {
        self.raffles.get(id)
    }

    /// Read the ticket record stored under `id`, if any.
    pub fn get_ticket(&self, id: &Pubkey) -> (r: Option<&Ticket>)
        requires
            self.wf(),
        ensures
            match r {
                Some(v) => self@.tickets.contains_key(id@) && v@ == self@.tickets[id@],
                None => !self@.tickets.contains_key(id@),
            },
    {
        self.tickets.get(id)
    }
}

/// Validate caller-supplied metadata and, if every bound holds, write a new
/// raffle record under the freshly generated identity `raffle_id`, owned by
/// the signing caller; otherwise report `InputError` and write nothing.
pub fn create_raffle(
    store: &mut RecordStore,
    raffle_id: Pubkey,
    ctx: CreateRaffle,
    price: u64,
    ends: i64,
    title: String,
    description: String,
    image: String,
    winners: u8,
    requires_author: u8,
    policy: AuthorizationPolicy,
) -> (r: Result<(), StoreError>)
    requires
        old(store).wf(),
        !old(store)@.raffles.contains_key(raffle_id@),
    ensures
        final(store).wf(),
        valid_raffle_inputs(title@, description@, requires_author) ==> r == Ok::<(), StoreError>(())
            && final(store)@ == store_with_raffle(
            old(store)@,
            raffle_id@,
            created_raffle(
                ctx,
                price,
                ends,
                title@,
                description@,
                image@,
                winners,
                requires_author,
                policy,
            ),
        ),
        !valid_raffle_inputs(title@, description@, requires_author) ==> r == Err::<
            (),
            StoreError,
        >(StoreError::Rejected(RaffleError::InputError)) && final(store)@ == old(store)@,
{
    if !(requires_author == 0 || requires_author == 1) {
        return Err(StoreError::Rejected(RaffleError::InputError));
    }
    if title.as_str().unicode_len() > MAX_TITLE_CHARS {
        return Err(StoreError::Rejected(RaffleError::InputError));
    }
    if description.as_str().unicode_len() > MAX_DESCRIPTION_CHARS {
        return Err(StoreError::Rejected(RaffleError::InputError));
    }
    let record = Raffle {
        authority: ctx.authority,
        ends: ends,
        price: price,
        title: title,
        description: description,
        image: image,
        winners: winners,
        requires_author: requires_author,
        policy: policy,
    };
    store.raffles.insert(raffle_id, record);
    Ok(())
}

/// Admit a ticket purchase against the raffle stored under `ctx.raffle`: the
/// co-signer must satisfy the raffle's authorization policy and the clock
/// reading `now` (taken once, at call start) must lie strictly before the
/// raffle's end; then a ticket record is written under the freshly generated
/// identity `ticket_id`. On any failure nothing is written.
pub fn purchase_ticket(
    store: &mut RecordStore,
    ticket_id: Pubkey,
    ctx: CreateTicket,
    now: i64,
) -> (r: Result<(), StoreError>)
    requires
        old(store).wf(),
        !old(store)@.tickets.contains_key(ticket_id@),
    ensures
        final(store).wf(),
        !old(store)@.raffles.contains_key(ctx.raffle@) ==> r == Err::<(), StoreError>(
            StoreError::MissingRecord,
        ) && final(store)@ == old(store)@,
        old(store)@.raffles.contains_key(ctx.raffle@) ==> ({
            let raffle = old(store)@.raffles[ctx.raffle@];
            &&& !purchase_authorized(raffle, ctx.authority@) ==> r == Err::<(), StoreError>(
                StoreError::Rejected(RaffleError::Unauthorized),
            ) && final(store)@ == old(store)@
            &&& purchase_authorized(raffle, ctx.authority@) && !raffle_open(raffle, now) ==> r
                == Err::<(), StoreError>(StoreError::Rejected(RaffleError::RaffleEnded)) && final(store)@ == old(store)@
            &&& purchase_authorized(raffle, ctx.authority@) && raffle_open(raffle, now) ==> r
                == Ok::<(), StoreError>(()) && final(store)@ == store_with_ticket(
                old(store)@,
                ticket_id@,
                purchased_ticket(ctx),
            )
        }),
{
    let authorized: bool;
    let open_now: bool;
    match store.raffles.get(&ctx.raffle) {
        None => {
            return Err(StoreError::MissingRecord);
        },
        Some(raffle) => {
            authorized = match raffle.policy {
                AuthorizationPolicy::Unconditional => ctx.authority == raffle.authority,
                AuthorizationPolicy::ConditionalOnFlag => raffle.requires_author != 1
                    || ctx.authority == raffle.authority,
            };
            open_now = now < raffle.ends;
        },
    }
    if !authorized {
        return Err(StoreError::Rejected(RaffleError::Unauthorized));
    }
    if !open_now {
        return Err(StoreError::Rejected(RaffleError::RaffleEnded));
    }
    let record = Ticket { raffle: ctx.raffle, participant: ctx.participant };
    store.tickets.insert(ticket_id, record);
    Ok(())
}

/// Destroy the raffle record under `ctx.raffle`, provided the signing caller
/// is its stored authority; the raffle's end time is never consulted. On any
/// failure the store is left unchanged.
pub fn end_raffle(store: &mut RecordStore, ctx: EndRaffle) -> (r: Result<(), StoreError>)
    requires
        old(store).wf(),
    ensures
        final(store).wf(),
        !old(store)@.raffles.contains_key(ctx.raffle@) ==> r == Err::<(), StoreError>(
            StoreError::MissingRecord,
        ) && final(store)@ == old(store)@,
        old(store)@.raffles.contains_key(ctx.raffle@) ==> ({
            let raffle = old(store)@.raffles[ctx.raffle@];
            &&& ctx.authority@ != raffle.authority ==> r == Err::<(), StoreError>(
                StoreError::Rejected(RaffleError::Unauthorized),
            ) && final(store)@ == old(store)@
            &&& ctx.authority@ == raffle.authority ==> r == Ok::<(), StoreError>(()) && final(store)@ == store_without_raffle(old(store)@, ctx.raffle@)
        }),
{
    let authorized = match store.raffles.get(&ctx.raffle) {
        None => {
            return Err(StoreError::MissingRecord);
        },
        Some(raffle) => ctx.authority == raffle.authority,
    };
    if !authorized {
        return Err(StoreError::Rejected(RaffleError::Unauthorized));
    }
    store.raffles.remove(&ctx.raffle);
    Ok(())
}

/// Destroy the ticket record under `ctx.ticket`, provided the signing caller
/// is its stored participant; the referenced raffle's state is never
/// consulted. On any failure the store is left unchanged.
pub fn close_ticket_account(
    store: &mut RecordStore,
    ctx: CloseTicketAccount,
) -> (r: Result<(), StoreError>)
    requires
        old(store).wf(),
    ensures
        final(store).wf(),
        !old(store)@.tickets.contains_key(ctx.ticket@) ==> r == Err::<(), StoreError>(
            StoreError::MissingRecord,
        ) && final(store)@ == old(store)@,
        old(store)@.tickets.contains_key(ctx.ticket@) ==> ({
            let ticket = old(store)@.tickets[ctx.ticket@];
            &&& ctx.participant@ != ticket.participant ==> r == Err::<(), StoreError>(
                StoreError::Rejected(RaffleError::Unauthorized),
            ) && final(store)@ == old(store)@
            &&& ctx.participant@ == ticket.participant ==> r == Ok::<(), StoreError>(()) && final(store)@ == store_without_ticket(old(store)@, ctx.ticket@)
        }),
{
    let authorized = match store.tickets.get(&ctx.ticket) {
        None => {
            return Err(StoreError::MissingRecord);
        },
        Some(ticket) => ctx.participant == ticket.participant,
    };
    if !authorized {
        return Err(StoreError::Rejected(RaffleError::Unauthorized));
    }
    store.tickets.remove(&ctx.ticket);
    Ok(())
}

} // verus!
