use solanalottery::ops;
use solanalottery::state::AccountId;
use solanalottery::state::LotteryError;

fn id(n: u64) -> AccountId {
    AccountId { w0: n, w1: 0, w2: 0, w3: 0 }
}

#[test]
fn initialize_sets_fresh_state() {
    let (lottery, event) = ops::initialize_lottery(id(1), 100, 3600, 1_000);
    assert_eq!(lottery.admin, id(1));
    assert_eq!(lottery.ticket_price, 100);
    assert_eq!(lottery.total_tickets, 0);
    assert_eq!(lottery.total_funds, 0);
    assert!(lottery.tickets.is_empty());
    assert_eq!(lottery.expires_at, 4_600);
    assert_eq!(lottery.current_round, 1);
    assert!(lottery.previous_winners.is_empty());
    assert_eq!(event.admin, id(1));
    assert_eq!(event.ticket_price, 100);
}

#[test]
fn buy_ticket_moves_price_and_keeps_conservation() {
    let (mut lottery, _) = ops::initialize_lottery(id(1), 100, 10, 0);
    let mut balance: u64 = 1_000;
    let mut pool: u64 = 0;
    for round in 1..=4u64 {
        let before = balance;
        let receipt = ops::buy_ticket(&mut lottery, id(2), &mut balance, &mut pool).unwrap();
        assert_eq!(receipt.buyer, id(2));
        assert_eq!(receipt.ticket_number, round);
        assert_eq!(before - balance, 100);
        assert_eq!(lottery.total_funds, lottery.total_tickets * lottery.ticket_price);
        assert_eq!(pool, lottery.total_funds);
    }
    assert_eq!(lottery.tickets, vec![id(2), id(2), id(2), id(2)]);
}

#[test]
fn buy_ticket_insufficient_funds_changes_nothing() {
    let (mut lottery, _) = ops::initialize_lottery(id(1), 100, 10, 0);
    let mut balance: u64 = 99;
    let mut pool: u64 = 7;
    let snapshot = lottery.clone();
    let result = ops::buy_ticket(&mut lottery, id(2), &mut balance, &mut pool);
    assert_eq!(result, Err(LotteryError::InsufficientFunds));
    assert_eq!(lottery, snapshot);
    assert_eq!(balance, 99);
    assert_eq!(pool, 7);
}

#[test]
fn exact_balance_buys_a_ticket() {
    let (mut lottery, _) = ops::initialize_lottery(id(1), 100, 10, 0);
    let mut balance: u64 = 100;
    let mut pool: u64 = 0;
    let receipt = ops::buy_ticket(&mut lottery, id(2), &mut balance, &mut pool).unwrap();
    assert_eq!(receipt.ticket_number, 1);
    assert_eq!(balance, 0);
    assert_eq!(pool, 100);
}

#[test]
fn maximal_price_refuses_poor_buyer() {
    let (mut lottery, _) = ops::initialize_lottery(id(1), u64::MAX, 10, 0);
    let mut balance: u64 = u64::MAX - 1;
    let mut pool: u64 = 0;
    let result = ops::buy_ticket(&mut lottery, id(2), &mut balance, &mut pool);
    assert_eq!(result, Err(LotteryError::InsufficientFunds));
    assert_eq!(lottery.total_tickets, 0);
    assert_eq!(balance, u64::MAX - 1);
    assert_eq!(pool, 0);
}

#[test]
fn batch_of_six_charges_discounted_price() {
    let (mut lottery, _) = ops::initialize_lottery(id(1), 100, 10, 0);
    let mut balance: u64 = 1_000;
    let mut pool: u64 = 0;
    let receipt =
        ops::buy_multiple_tickets(&mut lottery, id(2), 6, &mut balance, &mut pool).unwrap();
    assert_eq!(balance, 1_000 - 540);
    assert_eq!(pool, 540);
    // The recorded funds grow at the full undiscounted price per ticket,
    // so they exceed what the pool actually holds.
    assert_eq!(lottery.total_funds, 600);
    assert_eq!(lottery.total_tickets, 6);
    assert_eq!(lottery.tickets.len(), 6);
    assert_eq!(receipt.ticket_number, 6);
    assert_eq!(receipt.buyer, id(2));
}

#[test]
fn batch_of_five_charges_full_price() {
    let (mut lottery, _) = ops::initialize_lottery(id(1), 100, 10, 0);
    let mut balance: u64 = 1_000;
    let mut pool: u64 = 0;
    ops::buy_multiple_tickets(&mut lottery, id(2), 5, &mut balance, &mut pool).unwrap();
    assert_eq!(balance, 500);
    assert_eq!(pool, 500);
    assert_eq!(lottery.total_funds, 500);
    assert_eq!(lottery.total_tickets, 5);
}

#[test]
fn batch_appends_after_earlier_tickets() {
    let (mut lottery, _) = ops::initialize_lottery(id(1), 10, 10, 0);
    let mut balance: u64 = 1_000;
    let mut pool: u64 = 0;
    ops::buy_ticket(&mut lottery, id(3), &mut balance, &mut pool).unwrap();
    let receipt =
        ops::buy_multiple_tickets(&mut lottery, id(4), 2, &mut balance, &mut pool).unwrap();
    assert_eq!(lottery.tickets, vec![id(3), id(4), id(4)]);
    assert_eq!(receipt.ticket_number, 3);
}

#[test]
fn batch_insufficient_funds_changes_nothing() {
    let (mut lottery, _) = ops::initialize_lottery(id(1), 100, 10, 0);
    let mut balance: u64 = 539;
    let mut pool: u64 = 3;
    let snapshot = lottery.clone();
    let result = ops::buy_multiple_tickets(&mut lottery, id(2), 6, &mut balance, &mut pool);
    assert_eq!(result, Err(LotteryError::InsufficientFunds));
    assert_eq!(lottery, snapshot);
    assert_eq!(balance, 539);
    assert_eq!(pool, 3);
}
