use vstd::prelude::*;

use crate::state::batch_charge;
use crate::state::draw_allowed;
use crate::state::drawn_winner;
use crate::state::prize_first;
use crate::state::prize_second;
use crate::state::prize_third;
use crate::state::prize_total;
use crate::state::winner_index;
use crate::state::AccountId;
use crate::state::Lottery;
use crate::state::LotteryError;
use crate::state::LotteryInitialized;
use crate::state::TicketPurchased;
use crate::state::WinnerDrawn;

verus! {

/// Create the lottery state for a fresh instance: no tickets, no funds,
/// round 1, and a deadline `duration` past `now`. Returns the new state
/// together with the `LotteryInitialized` notification to publish.
pub fn initialize_lottery(admin: AccountId, ticket_price: u64, duration: i64, now: i64) -> (r: (
    Lottery,
    LotteryInitialized,
))
    requires
        i64::MIN <= now + duration <= i64::MAX,
    ensures
        r.0.wf(),
        r.0.admin == admin,
        r.0.ticket_price == ticket_price,
        r.0.total_tickets == 0,
        r.0.total_funds == 0,
        r.0.tickets@.len() == 0,
        r.0.expires_at == now + duration,
        r.0.current_round == 1,
        r.0.previous_winners@.len() == 0,
        r.1 == (LotteryInitialized { admin, ticket_price }),
{
    let lottery = Lottery {
        admin,
        ticket_price,
        total_tickets: 0,
        total_funds: 0,
        tickets: Vec::new(),
        expires_at: now + duration,
        current_round: 1,
        previous_winners: Vec::new(),
    };
    let event = LotteryInitialized { admin, ticket_price };
    (lottery, event)
}

/// Sell one ticket to `buyer` at full price. On success the price moves
/// from the buyer's balance to the pool, the ticket is recorded, and the
/// `TicketPurchased` notification carries the buyer's 1-indexed position
/// in the round. A buyer whose balance does not cover the price is
/// refused with `InsufficientFunds` and nothing changes.
pub fn buy_ticket(
    lottery: &mut Lottery,
    buyer: AccountId,
    buyer_balance: &mut u64,
    pool_balance: &mut u64,
) -> (r: Result<TicketPurchased, LotteryError>)
    requires
        old(lottery).wf(),
        *old(buyer_balance) >= old(lottery).ticket_price ==> {
            &&& old(lottery).total_tickets < u64::MAX
            &&& old(lottery).total_funds + old(lottery).ticket_price <= u64::MAX
            &&& *old(pool_balance) + old(lottery).ticket_price <= u64::MAX
        },
    ensures
        final(lottery).wf(),
        r is Ok <==> *old(buyer_balance) >= old(lottery).ticket_price,
        r is Err ==> r == Err::<TicketPurchased, LotteryError>(LotteryError::InsufficientFunds)
            && *final(lottery) == *old(lottery) && *final(buyer_balance) == *old(buyer_balance)
            && *final(pool_balance) == *old(pool_balance),
        r is Ok ==> {
            &&& *final(buyer_balance) == *old(buyer_balance) - old(lottery).ticket_price
            &&& *final(pool_balance) == *old(pool_balance) + old(lottery).ticket_price
            &&& final(lottery).total_tickets == old(lottery).total_tickets + 1
            &&& final(lottery).total_funds == old(lottery).total_funds + old(
                lottery,
            ).ticket_price
            &&& final(lottery).tickets@ == old(lottery).tickets@.push(buyer)
            &&& final(lottery).admin == old(lottery).admin
            &&& final(lottery).ticket_price == old(lottery).ticket_price
            &&& final(lottery).expires_at == old(lottery).expires_at
            &&& final(lottery).current_round == old(lottery).current_round
            &&& final(lottery).previous_winners@ == old(lottery).previous_winners@
            &&& r == Ok::<TicketPurchased, LotteryError>(
                TicketPurchased { buyer, ticket_number: final(lottery).total_tickets },
            )
        },
{
    if *buyer_balance < lottery.ticket_price {
        return Err(LotteryError::InsufficientFunds);
    }
    *buyer_balance = *buyer_balance - lottery.ticket_price;
    *pool_balance = *pool_balance + lottery.ticket_price;

    lottery.total_tickets = lottery.total_tickets + 1;
    lottery.total_funds = lottery.total_funds + lottery.ticket_price;
    lottery.tickets.push(buyer);

    Ok(TicketPurchased { buyer, ticket_number: lottery.total_tickets })
}

/// Sell `number_of_tickets` tickets to `buyer` in one batch. More than 5
/// tickets earn a 10% discount on the transferred amount (truncating
/// division). The recorded `total_funds` still grows by the full
/// undiscounted price of every ticket, so with a discount it exceeds what
/// was actually transferred; the discrepancy is deliberate, kept as
/// designed. One `TicketPurchased` notification is returned for the whole
/// batch, carrying the round's ticket count after it. A buyer whose
/// balance does not cover the (possibly discounted) charge is refused
/// with `InsufficientFunds` and nothing changes.
pub fn buy_multiple_tickets(
    lottery: &mut Lottery,
    buyer: AccountId,
    number_of_tickets: u64,
    buyer_balance: &mut u64,
    pool_balance: &mut u64,
) -> (r: Result<TicketPurchased, LotteryError>)
    requires
        old(lottery).wf(),
        number_of_tickets >= 1,
        old(lottery).ticket_price * number_of_tickets <= u64::MAX,
        number_of_tickets > 5 ==> old(lottery).ticket_price * number_of_tickets * 90
            <= u64::MAX,
        *old(buyer_balance) >= batch_charge(old(lottery).ticket_price, number_of_tickets) ==> {
            &&& old(lottery).total_tickets + number_of_tickets <= u64::MAX
            &&& old(lottery).total_funds + old(lottery).ticket_price * number_of_tickets
                <= u64::MAX
            &&& *old(pool_balance) + batch_charge(old(lottery).ticket_price, number_of_tickets)
                <= u64::MAX
        },
    ensures
        final(lottery).wf(),
        r is Ok <==> *old(buyer_balance) >= batch_charge(
            old(lottery).ticket_price,
            number_of_tickets,
        ),
        r is Err ==> r == Err::<TicketPurchased, LotteryError>(LotteryError::InsufficientFunds)
            && *final(lottery) == *old(lottery) && *final(buyer_balance) == *old(buyer_balance)
            && *final(pool_balance) == *old(pool_balance),
        r is Ok ==> {
            &&& *final(buyer_balance) == *old(buyer_balance) - batch_charge(
                old(lottery).ticket_price,
                number_of_tickets,
            )
            &&& *final(pool_balance) == *old(pool_balance) + batch_charge(
                old(lottery).ticket_price,
                number_of_tickets,
            )
            &&& final(lottery).total_tickets == old(lottery).total_tickets + number_of_tickets
            &&& final(lottery).total_funds == old(lottery).total_funds + old(
                lottery,
            ).ticket_price * number_of_tickets
            &&& final(lottery).tickets@ == old(lottery).tickets@ + Seq::new(
                number_of_tickets as nat,
                |i: int| buyer,
            )
            &&& final(lottery).admin == old(lottery).admin
            &&& final(lottery).ticket_price == old(lottery).ticket_price
            &&& final(lottery).expires_at == old(lottery).expires_at
            &&& final(lottery).current_round == old(lottery).current_round
            &&& final(lottery).previous_winners@ == old(lottery).previous_winners@
            &&& r == Ok::<TicketPurchased, LotteryError>(
                TicketPurchased { buyer, ticket_number: final(lottery).total_tickets },
            )
        },
{
    let ghost pre = *lottery;
    let total_price = lottery.ticket_price * number_of_tickets;

    let discounted_price = if number_of_tickets > 5 {
        total_price * 90 / 100
    } else {
        total_price
    };
    assert(discounted_price == batch_charge(lottery.ticket_price, number_of_tickets));

    if *buyer_balance < discounted_price {
        return Err(LotteryError::InsufficientFunds);
    }
    *buyer_balance = *buyer_balance - discounted_price;
    *pool_balance = *pool_balance + discounted_price;

    let mut sold: u64 = 0;
    while sold < number_of_tickets
        invariant
            sold <= number_of_tickets,
            pre.wf(),
            pre.total_tickets + number_of_tickets <= u64::MAX,
            pre.total_funds + pre.ticket_price * number_of_tickets <= u64::MAX,
            lottery.total_tickets == pre.total_tickets + sold,
            lottery.total_funds == pre.total_funds + pre.ticket_price * sold,
            lottery.tickets@ == pre.tickets@ + Seq::new(sold as nat, |i: int| buyer),
            lottery.admin == pre.admin,
            lottery.ticket_price == pre.ticket_price,
            lottery.expires_at == pre.expires_at,
            lottery.current_round == pre.current_round,
            lottery.previous_winners@ == pre.previous_winners@,
        decreases number_of_tickets - sold,
    {
        proof {
            assert(pre.ticket_price * (sold + 1) == pre.ticket_price * sold + pre.ticket_price
                && pre.ticket_price * (sold + 1) <= pre.ticket_price * number_of_tickets)
                by (nonlinear_arith)
                requires
                    sold + 1 <= number_of_tickets,
                    pre.ticket_price >= 0,
                    number_of_tickets >= 1,
            ;
        }
        lottery.total_tickets = lottery.total_tickets + 1;
        lottery.total_funds = lottery.total_funds + lottery.ticket_price;
        lottery.tickets.push(buyer);
        sold = sold + 1;
        proof {
            assert(lottery.tickets@ =~= pre.tickets@ + Seq::new(sold as nat, |i: int| buyer));
            assert(pre.total_funds + pre.ticket_price * (sold - 1) + pre.ticket_price
                == pre.total_funds + pre.ticket_price * sold) by (nonlinear_arith);
        }
    }

    Ok(TicketPurchased { buyer, ticket_number: lottery.total_tickets })
}

/// Draw the round's three winners and reset the round.
///
/// Preconditions, checked in this order before any state changes: the
/// caller must be the admin (`Unauthorized`), at least three tickets must
/// be sold (`NotEnoughParticipants`), and the deadline must have passed
/// (`LotteryNotExpired`). A failed check reports its error and mutates
/// nothing.
///
/// Selection is deterministic in the entropy counter: the winners are the
/// tickets at positions `slot % n`, `(slot + 1) % n` and `(slot + 2) % n`
/// of the round, where `n` is the ticket count. One identity may win more
/// than once; duplicates are kept as designed. The recorded pool is split
/// 50/30/20 with truncating division; the remainder stays in the pool
/// balance and is never distributed. The three prizes move from the pool
/// balance to the three caller-supplied payout balances, which the caller
/// is trusted to match to the selected winners. Afterwards the winners
/// are appended to the history, the round counters and ticket list are
/// cleared, and the round number grows by one; the deadline is not
/// advanced, as designed.
pub fn draw_multiple_winners(
    lottery: &mut Lottery,
    caller: AccountId,
    now: i64,
    slot: u64,
    pool_balance: &mut u64,
    winner1_balance: &mut u64,
    winner2_balance: &mut u64,
    winner3_balance: &mut u64,
) -> (r: Result<(WinnerDrawn, WinnerDrawn, WinnerDrawn), LotteryError>)
    requires
        old(lottery).wf(),
        draw_allowed(*old(lottery), caller, now) ==> {
            &&& slot + 2 <= u64::MAX
            &&& old(lottery).total_funds * 50 <= u64::MAX
            &&& old(lottery).current_round < u64::MAX
            &&& *old(pool_balance) >= prize_total(old(lottery).total_funds)
            &&& *old(winner1_balance) + prize_first(old(lottery).total_funds) <= u64::MAX
            &&& *old(winner2_balance) + prize_second(old(lottery).total_funds) <= u64::MAX
            &&& *old(winner3_balance) + prize_third(old(lottery).total_funds) <= u64::MAX
        },
    ensures
        final(lottery).wf(),
        r is Ok <==> draw_allowed(*old(lottery), caller, now),
        caller != old(lottery).admin ==> r == Err::<(WinnerDrawn, WinnerDrawn, WinnerDrawn),
        LotteryError>(LotteryError::Unauthorized),
        caller == old(lottery).admin && old(lottery).total_tickets < 3 ==> r == Err::<(
            WinnerDrawn,
            WinnerDrawn,
            WinnerDrawn,
        ), LotteryError>(LotteryError::NotEnoughParticipants),
        caller == old(lottery).admin && old(lottery).total_tickets >= 3 && now < old(
            lottery,
        ).expires_at ==> r == Err::<(WinnerDrawn, WinnerDrawn, WinnerDrawn), LotteryError>(
            LotteryError::LotteryNotExpired,
        ),
        r is Err ==> *final(lottery) == *old(lottery) && *final(pool_balance) == *old(
            pool_balance,
        ) && *final(winner1_balance) == *old(winner1_balance) && *final(winner2_balance) == *old(
            winner2_balance,
        ) && *final(winner3_balance) == *old(winner3_balance),
        r is Ok ==> {
            &&& r == Ok::<(WinnerDrawn, WinnerDrawn, WinnerDrawn), LotteryError>(
                (
                    (
                        WinnerDrawn {
                            winner: drawn_winner(*old(lottery), slot, 0),
                            prize_amount: prize_first(old(lottery).total_funds) as u64,
                        }
                    ),
                    (
                        WinnerDrawn {
                            winner: drawn_winner(*old(lottery), slot, 1),
                            prize_amount: prize_second(old(lottery).total_funds) as u64,
                        }
                    ),
                    (
                        WinnerDrawn {
                            winner: drawn_winner(*old(lottery), slot, 2),
                            prize_amount: prize_third(old(lottery).total_funds) as u64,
                        }
                    ),
                ),
            )
            &&& *final(pool_balance) == *old(pool_balance) - prize_total(
                old(lottery).total_funds,
            )
            &&& *final(winner1_balance) == *old(winner1_balance) + prize_first(
                old(lottery).total_funds,
            )
            &&& *final(winner2_balance) == *old(winner2_balance) + prize_second(
                old(lottery).total_funds,
            )
            &&& *final(winner3_balance) == *old(winner3_balance) + prize_third(
                old(lottery).total_funds,
            )
            &&& final(lottery).previous_winners@ == old(lottery).previous_winners@ + seq![
                drawn_winner(*old(lottery), slot, 0),
                drawn_winner(*old(lottery), slot, 1),
                drawn_winner(*old(lottery), slot, 2),
            ]
            &&& final(lottery).total_tickets == 0
            &&& final(lottery).total_funds == 0
            &&& final(lottery).tickets@.len() == 0
            &&& final(lottery).current_round == old(lottery).current_round + 1
            &&& final(lottery).admin == old(lottery).admin
            &&& final(lottery).ticket_price == old(lottery).ticket_price
            &&& final(lottery).expires_at == old(lottery).expires_at
        },
{
    let ghost pre = *lottery;
    if caller != lottery.admin {
        return Err(LotteryError::Unauthorized);
    }
    if lottery.total_tickets < 3 {
        return Err(LotteryError::NotEnoughParticipants);
    }
    if now < lottery.expires_at {
        return Err(LotteryError::LotteryNotExpired);
    }

    let total = lottery.total_tickets;
    let len: usize = lottery.tickets.len();
    assert(total == len);

    let first_winner_index = (slot % total) as usize;
    let second_winner_index = ((slot + 1) % total) as usize;
    let third_winner_index = ((slot + 2) % total) as usize;
    assert(first_winner_index == winner_index(slot, 0, total));
    assert(second_winner_index == winner_index(slot, 1, total));
    assert(third_winner_index == winner_index(slot, 2, total));

    let first_winner = lottery.tickets[first_winner_index];
    let second_winner = lottery.tickets[second_winner_index];
    let third_winner = lottery.tickets[third_winner_index];

    let prize_amount = lottery.total_funds;
    let first_prize = prize_amount * 50 / 100;
    let second_prize = prize_amount * 30 / 100;
    let third_prize = prize_amount * 20 / 100;

    *pool_balance = *pool_balance - first_prize;
    *winner1_balance = *winner1_balance + first_prize;
    *pool_balance = *pool_balance - second_prize;
    *winner2_balance = *winner2_balance + second_prize;
    *pool_balance = *pool_balance - third_prize;
    *winner3_balance = *winner3_balance + third_prize;

    lottery.previous_winners.push(first_winner);
    lottery.previous_winners.push(second_winner);
    lottery.previous_winners.push(third_winner);

    lottery.total_tickets = 0;
    lottery.total_funds = 0;
    lottery.tickets.clear();
    lottery.current_round = lottery.current_round + 1;

    proof {
        assert(lottery.previous_winners@ =~= pre.previous_winners@ + seq![
            drawn_winner(pre, slot, 0),
            drawn_winner(pre, slot, 1),
            drawn_winner(pre, slot, 2),
        ]);
    }

    Ok(
        (
            WinnerDrawn { winner: first_winner, prize_amount: first_prize },
            WinnerDrawn { winner: second_winner, prize_amount: second_prize },
            WinnerDrawn { winner: third_winner, prize_amount: third_prize },
        ),
    )
}

} // verus!
