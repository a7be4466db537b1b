use solana_raffles::errors::RaffleError;
use solana_raffles::errors::StoreError;
use solana_raffles::keys::Pubkey;
use solana_raffles::raffle::AuthorizationPolicy;
use solana_raffles::raffle::CreateRaffle;
use solana_raffles::raffle::EndRaffle;
use solana_raffles::store::end_raffle;
use solana_raffles::store::close_ticket_account;
use solana_raffles::store::create_raffle;
use solana_raffles::store::purchase_ticket;
use solana_raffles::store::RecordStore;
use solana_raffles::ticket::CloseTicketAccount;
use solana_raffles::ticket::CreateTicket;

const ENDS: i64 = 1_000;

fn key(tag: u8) -> Pubkey {
    let mut bytes = [0u8; 32];
    bytes[0] = tag;
    Pubkey::new(bytes)
}

fn store_with_raffle(
    authority: Pubkey,
    raffle_id: Pubkey,
    requires_author: u8,
    policy: AuthorizationPolicy,
) -> RecordStore {
    let mut store = RecordStore::new();
    create_raffle(
        &mut store,
        raffle_id,
        CreateRaffle { authority },
        100,
        ENDS,
        String::from("t"),
        String::from("d"),
        String::from("i"),
        1,
        requires_author,
        policy,
    )
    .unwrap();
    store
}

#[test]
fn open_raffle_without_flag_admits_any_caller() {
    let authority = key(1);
    let raffle_id = key(2);
    let participant = key(3);
    let ticket_id = key(4);
    let mut store =
        store_with_raffle(authority, raffle_id, 0, AuthorizationPolicy::ConditionalOnFlag);
    // The co-signing identity is some stranger, not the authority.
    let res = purchase_ticket(
        &mut store,
        ticket_id,
        CreateTicket { authority: key(9), participant, raffle: raffle_id },
        ENDS - 1,
    );
    assert_eq!(res, Ok(()));
    let ticket = store.get_ticket(&ticket_id).expect("ticket must exist");
    assert_eq!(ticket.raffle, raffle_id);
    assert_eq!(ticket.participant, participant);
}

#[test]
fn purchase_at_or_after_the_end_fails_with_raffle_ended() {
    let authority = key(1);
    let raffle_id = key(2);
    let ticket_id = key(4);
    let mut store =
        store_with_raffle(authority, raffle_id, 0, AuthorizationPolicy::ConditionalOnFlag);
    for now in [ENDS, ENDS + 1, i64::MAX] {
        let res = purchase_ticket(
            &mut store,
            ticket_id,
            CreateTicket { authority, participant: key(3), raffle: raffle_id },
            now,
        );
        assert_eq!(res, Err(StoreError::Rejected(RaffleError::RaffleEnded)));
        assert!(store.get_ticket(&ticket_id).is_none());
    }
}

#[test]
fn purchase_just_before_the_end_succeeds() {
    let authority = key(1);
    let raffle_id = key(2);
    let ticket_id = key(4);
    let mut store =
        store_with_raffle(authority, raffle_id, 0, AuthorizationPolicy::ConditionalOnFlag);
    let res = purchase_ticket(
        &mut store,
        ticket_id,
        CreateTicket { authority, participant: key(3), raffle: raffle_id },
        ENDS - 1,
    );
    assert_eq!(res, Ok(()));
}

#[test]
fn flagged_raffle_requires_the_authority_co_signature() {
    let authority = key(1);
    let raffle_id = key(2);
    let ticket_id = key(4);
    let mut store =
        store_with_raffle(authority, raffle_id, 1, AuthorizationPolicy::ConditionalOnFlag);
    let res = purchase_ticket(
        &mut store,
        ticket_id,
        CreateTicket { authority: key(9), participant: key(3), raffle: raffle_id },
        ENDS - 1,
    );
    assert_eq!(res, Err(StoreError::Rejected(RaffleError::Unauthorized)));
    assert!(store.get_ticket(&ticket_id).is_none());
    let res = purchase_ticket(
        &mut store,
        ticket_id,
        CreateTicket { authority, participant: key(3), raffle: raffle_id },
        ENDS - 1,
    );
    assert_eq!(res, Ok(()));
}

#[test]
fn unconditional_policy_requires_the_co_signature_despite_a_zero_flag() {
    let authority = key(1);
    let raffle_id = key(2);
    let ticket_id = key(4);
    let mut store = store_with_raffle(authority, raffle_id, 0, AuthorizationPolicy::Unconditional);
    let res = purchase_ticket(
        &mut store,
        ticket_id,
        CreateTicket { authority: key(9), participant: key(3), raffle: raffle_id },
        ENDS - 1,
    );
    assert_eq!(res, Err(StoreError::Rejected(RaffleError::Unauthorized)));
    let res = purchase_ticket(
        &mut store,
        ticket_id,
        CreateTicket { authority, participant: key(3), raffle: raffle_id },
        ENDS - 1,
    );
    assert_eq!(res, Ok(()));
}

#[test]
fn purchase_against_a_missing_raffle_reports_missing() {
    let mut store = RecordStore::new();
    let res = purchase_ticket(
        &mut store,
        key(4),
        CreateTicket { authority: key(1), participant: key(3), raffle: key(2) },
        0,
    );
    assert_eq!(res, Err(StoreError::MissingRecord));
}

#[test]
fn close_ticket_by_non_participant_fails_and_changes_nothing() {
    let authority = key(1);
    let raffle_id = key(2);
    let participant = key(3);
    let ticket_id = key(4);
    let mut store =
        store_with_raffle(authority, raffle_id, 0, AuthorizationPolicy::ConditionalOnFlag);
    purchase_ticket(
        &mut store,
        ticket_id,
        CreateTicket { authority, participant, raffle: raffle_id },
        ENDS - 1,
    )
    .unwrap();
    let res =
        close_ticket_account(&mut store, CloseTicketAccount { participant: key(9), ticket: ticket_id });
    assert_eq!(res, Err(StoreError::Rejected(RaffleError::Unauthorized)));
    let ticket = store.get_ticket(&ticket_id).expect("ticket must survive");
    assert_eq!(ticket.participant, participant);
    assert_eq!(ticket.raffle, raffle_id);
}

#[test]
fn close_ticket_by_participant_succeeds_after_its_raffle_is_gone() {
    let authority = key(1);
    let raffle_id = key(2);
    let participant = key(3);
    let ticket_id = key(4);
    let mut store =
        store_with_raffle(authority, raffle_id, 0, AuthorizationPolicy::ConditionalOnFlag);
    purchase_ticket(
        &mut store,
        ticket_id,
        CreateTicket { authority, participant, raffle: raffle_id },
        ENDS - 1,
    )
    .unwrap();
    end_raffle(&mut store, EndRaffle { authority, raffle: raffle_id }).unwrap();
    assert!(store.get_raffle(&raffle_id).is_none());
    let res =
        close_ticket_account(&mut store, CloseTicketAccount { participant, ticket: ticket_id });
    assert_eq!(res, Ok(()));
    assert!(store.get_ticket(&ticket_id).is_none());
}

#[test]
fn close_ticket_on_missing_record_reports_missing() {
    let mut store = RecordStore::new();
    let res =
        close_ticket_account(&mut store, CloseTicketAccount { participant: key(3), ticket: key(4) });
    assert_eq!(res, Err(StoreError::MissingRecord));
}
