use vstd::prelude::*;

verus! {

/// A 32-byte account identity, held as four little-endian 64-bit words.
///
/// The ledger never looks inside an identity; it only compares identities
/// for equality and stores them in sequences.
#[derive(Clone, Copy, Debug, PartialEq, Eq, Structural)]
pub struct AccountId {
    pub w0: u64,
    pub w1: u64,
    pub w2: u64,
    pub w3: u64,
}

/// The typed failures an operation can return. Every failure is reported
/// before any state is mutated.
#[derive(Clone, Copy, Debug, PartialEq, Eq, Structural)]
pub enum LotteryError {
    /// The buyer's balance does not cover the charge.
    InsufficientFunds,
    /// Reserved for a defensive zero-ticket draw path; no current
    /// operation returns it.
    NoTickets,
    /// The caller of an admin-only operation is not the admin.
    Unauthorized,
    /// A draw was attempted before the round's deadline.
    LotteryNotExpired,
    /// Fewer than three tickets are sold, so three winners cannot be drawn.
    NotEnoughParticipants,
}

/// Notification emitted once, when the lottery is created.
#[derive(Clone, Copy, Debug, PartialEq, Eq, Structural)]
pub struct LotteryInitialized {
    pub admin: AccountId,
    pub ticket_price: u64,
}

/// Notification emitted by each purchase; `ticket_number` is the count of
/// tickets sold in the round after the purchase.
#[derive(Clone, Copy, Debug, PartialEq, Eq, Structural)]
pub struct TicketPurchased {
    pub buyer: AccountId,
    pub ticket_number: u64,
}

/// Notification emitted for each of the three prizes of a draw.
#[derive(Clone, Copy, Debug, PartialEq, Eq, Structural)]
pub struct WinnerDrawn {
    pub winner: AccountId,
    pub prize_amount: u64,
}

/// The whole state of one lottery instance.
#[derive(Clone, Debug, PartialEq)]
pub struct Lottery {
    /// Set once at initialization; authorizes draws; never changes.
    pub admin: AccountId,
    /// Price of one ticket in the smallest currency unit; never changes.
    pub ticket_price: u64,
    /// Tickets sold in the current round; reset to 0 by a draw.
    pub total_tickets: u64,
    /// Funds recorded for the current round; reset to 0 by a draw.
    ///
    /// A discounted batch purchase records the full undiscounted price
    /// here even though only the discounted amount is transferred, so
    /// this can exceed what the pool actually holds. The discrepancy is
    /// deliberate, kept as designed.
    pub total_funds: u64,
    /// One entry per ticket sold, in purchase order; duplicates allowed.
    pub tickets: Vec<AccountId>,
    /// Absolute deadline of the round. A draw never advances it, so after
    /// the first successful draw every later round is already expired.
    pub expires_at: i64,
    /// Starts at 1; incremented by exactly 1 on every successful draw.
    pub current_round: u64,
    /// Append-only history; grows by exactly 3 entries per draw.
    pub previous_winners: Vec<AccountId>,
}

impl Lottery {
    /// The ticket list carries exactly one entry per sold ticket.
    pub open spec fn wf(self) -> bool {
        self.tickets@.len() == self.total_tickets
    }
}

/// What a batch purchase of `count` tickets transfers: the full price, or
/// 90% of it (truncating division) when more than 5 tickets are bought.
pub open spec fn batch_charge(ticket_price: u64, count: u64) -> int {
    if count > 5 {
        (ticket_price * count * 90) / 100
    } else {
        ticket_price * count
    }
}

/// First prize: 50% of the recorded pool, truncating.
pub open spec fn prize_first(funds: u64) -> int {
    (funds * 50) / 100
}

/// Second prize: 30% of the recorded pool, truncating.
pub open spec fn prize_second(funds: u64) -> int {
    (funds * 30) / 100
}

/// Third prize: 20% of the recorded pool, truncating.
pub open spec fn prize_third(funds: u64) -> int {
    (funds * 20) / 100
}

/// What one draw pays out in total. Truncation can leave a remainder of
/// the pool behind; it is never distributed.
pub open spec fn prize_total(funds: u64) -> int {
    prize_first(funds) + prize_second(funds) + prize_third(funds)
}

/// Index of the winner `offset` places after the entropy counter `slot`,
/// into the round's ticket sequence.
pub open spec fn winner_index(slot: u64, offset: u64, total_tickets: u64) -> int
    recommends
        total_tickets > 0,
{
    (slot + offset) % (total_tickets as int)
}

/// Whether a draw request passes every precondition: the caller is the
/// admin, at least three tickets are sold, and the deadline has passed.
pub open spec fn draw_allowed(lottery: Lottery, caller: AccountId, now: i64) -> bool {
    caller == lottery.admin && lottery.total_tickets >= 3 && now >= lottery.expires_at
}

/// The ticket holder selected for the prize `offset` places after the
/// entropy counter `slot`.
pub open spec fn drawn_winner(lottery: Lottery, slot: u64, offset: u64) -> AccountId
    recommends
        lottery.wf(),
        lottery.total_tickets > 0,
{
    lottery.tickets@[winner_index(slot, offset, lottery.total_tickets)]
}

} // verus!
