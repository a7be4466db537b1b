use crate::keys::Pubkey;
use vstd::prelude::*;

verus! {

/// Largest number of characters (Unicode scalar values, not encoded bytes)
/// a raffle title may hold.
pub const MAX_TITLE_CHARS: usize = 50;

/// Largest number of characters a raffle description may hold.
pub const MAX_DESCRIPTION_CHARS: usize = 100;

/// Worst-case bytes a single character occupies in the stored text encoding;
/// each text field's allocation is its character bound times this multiplier.
pub const TEXT_BYTES_PER_CHAR: usize = 4;

/// Characters budgeted for the image field at allocation time; the field
/// itself deliberately carries no validated bound.
pub const IMAGE_BUDGET_CHARS: usize = 100;

/// Bytes of the discriminant header that precedes a record's typed fields.
pub const RECORD_HEADER_BYTES: usize = 8;

/// Fixed byte budget of a raffle record's typed fields, set once at creation
/// and never resized: the authority key, the two 8-byte scalars, worst-case
/// text for title, description and image, the winner count, and the policy
/// flag's slack.
pub const RAFFLE_RECORD_BYTES: usize = 32 + 16 + 8 + MAX_TITLE_CHARS * TEXT_BYTES_PER_CHAR
    + MAX_DESCRIPTION_CHARS * TEXT_BYTES_PER_CHAR + IMAGE_BUDGET_CHARS * TEXT_BYTES_PER_CHAR + 1
    + 8;

/// Full allocation of a raffle record: the discriminant header followed by
/// the typed fields' fixed budget.
pub const RAFFLE_ALLOCATION_BYTES: usize = RECORD_HEADER_BYTES + RAFFLE_RECORD_BYTES;

/// How ticket purchases against a raffle are authorized; chosen when the
/// raffle is created.
#[derive(Clone, Copy, Debug, PartialEq, Eq, Structural)]
pub enum AuthorizationPolicy {
    /// Every purchase must be co-signed by the raffle's authority, regardless
    /// of the `requires_author` flag.
    Unconditional,
    /// A purchase must be co-signed by the authority only when the raffle's
    /// `requires_author` flag is 1; otherwise any caller may purchase.
    ConditionalOnFlag,
}

/// One raffle event: a time-bounded ticket sale. All fields are fixed at
/// creation; only the stored `authority` may destroy the record.
pub struct Raffle {
    /// Identity of the creator; ownership key for closing the raffle.
    pub authority: Pubkey,
    /// The last instant (seconds since epoch) a ticket may be purchased.
    pub ends: i64,
    /// Nominal ticket price; informational only, no transfer is enforced.
    pub price: u64,
    /// Display title, at most [`MAX_TITLE_CHARS`] characters.
    pub title: String,
    /// Display description, at most [`MAX_DESCRIPTION_CHARS`] characters.
    pub description: String,
    /// Display image reference; stored verbatim, no validated bound.
    pub image: String,
    /// Intended number of winners; stored but never validated or acted upon.
    pub winners: u8,
    /// Tri-state-as-binary flag (0 or 1) consulted by the conditional policy.
    pub requires_author: u8,
    /// The authorization policy governing purchases against this raffle.
    pub policy: AuthorizationPolicy,
}

/// The mathematical content of a [`Raffle`] record.
pub ghost struct RaffleView {
    pub authority: Seq<u8>,
    pub ends: i64,
    pub price: u64,
    pub title: Seq<char>,
    pub description: Seq<char>,
    pub image: Seq<char>,
    pub winners: u8,
    pub requires_author: u8,
    pub policy: AuthorizationPolicy,
}

impl View for Raffle {
    type V = RaffleView;

    open spec fn view(&self) -> RaffleView {
        RaffleView {
            authority: self.authority@,
            ends: self.ends,
            price: self.price,
            title: self.title@,
            description: self.description@,
            image: self.image@,
            winners: self.winners,
            requires_author: self.requires_author,
            policy: self.policy,
        }
    }
}

/// The `requires_author` flag must be exactly 0 or 1.
pub open spec fn valid_requires_author(requires_author: u8) -> bool {
    requires_author == 0 || requires_author == 1
}

/// A title is acceptable when its character count is within the bound.
pub open spec fn valid_title(title: Seq<char>) -> bool {
    title.len() <= MAX_TITLE_CHARS
}

/// A description is acceptable when its character count is within the bound.
pub open spec fn valid_description(description: Seq<char>) -> bool {
    description.len() <= MAX_DESCRIPTION_CHARS
}

/// The full precondition on caller-supplied raffle metadata; the image field
/// deliberately carries no validated bound.
pub open spec fn valid_raffle_inputs(
    title: Seq<char>,
    description: Seq<char>,
    requires_author: u8,
) -> bool {
    &&& valid_requires_author(requires_author)
    &&& valid_title(title)
    &&& valid_description(description)
}

/// The verified identities accompanying a raffle creation: the caller that
/// signs, owns and funds the new record.
#[derive(Clone, Copy, Debug)]
pub struct CreateRaffle {
    pub authority: Pubkey,
}

/// The verified identities accompanying a raffle closure: the signing caller
/// and the identity of the raffle record to destroy.
#[derive(Clone, Copy, Debug)]
pub struct EndRaffle {
    pub authority: Pubkey,
    pub raffle: Pubkey,
}

} // verus!
