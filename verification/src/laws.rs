use vstd::prelude::*;

use crate::state::prize_first;
use crate::state::prize_second;
use crate::state::prize_third;
use crate::state::prize_total;
use crate::state::winner_index;
use crate::state::Lottery;

verus! {

/// Conservation under single-ticket purchase: whenever the recorded funds
/// equal the tickets sold times the ticket price, they still do after one
/// more ticket is sold at full price. Together with the zeroed fields that
/// initialization and a draw establish, this carries the equality through
/// every sequence of single-ticket purchases.
pub proof fn lemma_buy_ticket_conserves(pre: Lottery, post: Lottery)
    requires
        pre.total_funds == pre.total_tickets * pre.ticket_price,
        post.ticket_price == pre.ticket_price,
        post.total_tickets == pre.total_tickets + 1,
        post.total_funds == pre.total_funds + pre.ticket_price,
    ensures
        post.total_funds == post.total_tickets * post.ticket_price,
{
    assert((pre.total_tickets + 1) * pre.ticket_price == pre.total_tickets * pre.ticket_price
        + pre.ticket_price) by (nonlinear_arith);
}

/// The prize split never pays out more than the recorded pool: each prize
/// is nonnegative, and the three together stay within `funds`, so the
/// truncation remainder is retained, never distributed.
pub proof fn lemma_prizes_within_pool(funds: u64)
    ensures
        0 <= prize_first(funds),
        0 <= prize_second(funds),
        0 <= prize_third(funds),
        prize_total(funds) <= funds,
{
    vstd::arithmetic::div_mod::lemma_fundamental_div_mod(funds * 50, 100);
    vstd::arithmetic::div_mod::lemma_fundamental_div_mod(funds * 30, 100);
    vstd::arithmetic::div_mod::lemma_fundamental_div_mod(funds * 20, 100);
    vstd::arithmetic::div_mod::lemma_mod_bound(funds * 50, 100);
    vstd::arithmetic::div_mod::lemma_mod_bound(funds * 30, 100);
    vstd::arithmetic::div_mod::lemma_mod_bound(funds * 20, 100);
    vstd::arithmetic::div_mod::lemma_div_pos_is_pos(funds * 50, 100);
    vstd::arithmetic::div_mod::lemma_div_pos_is_pos(funds * 30, 100);
    vstd::arithmetic::div_mod::lemma_div_pos_is_pos(funds * 20, 100);
}

/// Winner selection is total and in range: with at least one ticket sold,
/// each of the three selection offsets yields an index into the round's
/// ticket sequence, determined by the entropy counter alone.
pub proof fn lemma_winner_index_in_range(slot: u64, offset: u64, total_tickets: u64)
    requires
        total_tickets > 0,
    ensures
        0 <= winner_index(slot, offset, total_tickets) < total_tickets,
{
    vstd::arithmetic::div_mod::lemma_mod_bound(slot + offset, total_tickets as int);
}

} // verus!
