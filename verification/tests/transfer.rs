use typed_accounts::{
    AccountView, CloseAccount, LamportTransfer, ProgramError, Pubkey,
};

const PROGRAM: Pubkey = [7u8; 32];
const A: Pubkey = [1u8; 32];
const B: Pubkey = [2u8; 32];

fn pair(a: u64, b: u64) -> (AccountView, AccountView) {
    (
        AccountView::new(A, PROGRAM, a, vec![0, 1, 2], false, true, false),
        AccountView::new(B, PROGRAM, b, vec![9], true, true, false),
    )
}

#[test]
fn send_moves_the_amount() {
    let (mut a, mut b) = pair(100, 5);
    assert_eq!(a.send(30, &mut b), Ok(()));
    assert_eq!(a.lamports, 70);
    assert_eq!(b.lamports, 35);
    assert_eq!(a.lamports + b.lamports, 105);
    assert_eq!(a.data, vec![0, 1, 2]);
    assert_eq!(b.data, vec![9]);
    assert_eq!(a.key, A);
    assert_eq!(b.key, B);
}

#[test]
fn send_of_the_whole_balance_and_of_nothing() {
    let (mut a, mut b) = pair(100, 5);
    assert_eq!(a.send(100, &mut b), Ok(()));
    assert_eq!((a.lamports, b.lamports), (0, 105));
    assert_eq!(a.send(0, &mut b), Ok(()));
    assert_eq!((a.lamports, b.lamports), (0, 105));
}

#[test]
fn send_of_more_than_the_balance_changes_nothing() {
    let (mut a, mut b) = pair(100, 5);
    assert_eq!(a.send(101, &mut b), Err(ProgramError::ArithmeticOverflow));
    assert_eq!((a.lamports, b.lamports), (100, 5));
    assert_eq!(a.send(u64::MAX, &mut b), Err(ProgramError::ArithmeticOverflow));
    assert_eq!((a.lamports, b.lamports), (100, 5));
}

#[test]
fn send_that_would_overflow_the_receiver_changes_nothing() {
    let (mut a, mut b) = pair(100, u64::MAX - 10);
    assert_eq!(a.send(11, &mut b), Err(ProgramError::ArithmeticOverflow));
    assert_eq!((a.lamports, b.lamports), (100, u64::MAX - 10));
    assert_eq!(a.send(10, &mut b), Ok(()));
    assert_eq!((a.lamports, b.lamports), (90, u64::MAX));
}

#[test]
fn collect_describes_the_transfer() {
    let (a, b) = pair(100, 5);
    let transfer = a.collect(40, &b);
    assert_eq!(transfer.from, B);
    assert_eq!(transfer.to, A);
    assert_eq!(transfer.lamports, 40);
    assert_eq!((a.lamports, b.lamports), (100, 5));
}

#[test]
fn close_empties_the_account() {
    let (mut a, mut b) = pair(100, 5);
    assert_eq!(a.close(&mut b), Ok(()));
    assert_eq!(a.data.len(), 0);
    assert_eq!(a.lamports, 0);
    assert_eq!(b.lamports, 105);
    assert_eq!(b.data, vec![9]);
    assert_eq!(a.key, A);
    assert_eq!(a.owner, PROGRAM);
}

#[test]
fn second_close_gives_nothing() {
    let (mut a, mut b) = pair(100, 5);
    assert_eq!(a.close(&mut b), Ok(()));
    assert_eq!(a.close(&mut b), Ok(()));
    assert_eq!(a.data.len(), 0);
    assert_eq!(a.lamports, 0);
    assert_eq!(b.lamports, 105);
}

#[test]
fn close_that_would_overflow_the_receiver_changes_nothing() {
    let (mut a, mut b) = pair(100, u64::MAX - 99);
    assert_eq!(a.close(&mut b), Err(ProgramError::ArithmeticOverflow));
    assert_eq!(a.data, vec![0, 1, 2]);
    assert_eq!((a.lamports, b.lamports), (100, u64::MAX - 99));
    b.lamports -= 1;
    assert_eq!(a.close(&mut b), Ok(()));
    assert_eq!((a.lamports, b.lamports), (0, u64::MAX));
}
