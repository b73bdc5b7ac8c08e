use jiracli::bank::SavingsAccount;

#[test]
fn lib_starting_balance_zero() {
    let account = SavingsAccount::new();
    assert_eq!(account.get_balance(), 0);
}

#[test]
fn savings_account_starting_balance_zero() {
    let account = SavingsAccount::new();
    assert_eq!(account.get_balance(), 0);
}

#[test]
fn able_deposit() {
    let amount = 100;
    let mut account = SavingsAccount::new();

    account.deposit(amount);
    assert_eq!(account.get_balance(), amount);
}

#[test]
fn able_withdraw() {
    let mut account: SavingsAccount = SavingsAccount::new();
    account.deposit(100);

    let withdraw_r = account.withdraw(50);

    match withdraw_r {
        Ok(balance) => assert_eq!(balance, 50),
        Err(_) => panic!("Unable to withdraw when we should be able to!!!"),
    }
}

#[test]
fn unable_withdraw() {
    let mut account: SavingsAccount = SavingsAccount::new();
    account.deposit(100);

    let withdraw_r = account.withdraw(200);

    if let Ok(balance) = withdraw_r {
        panic!("Withdrawing more than able to. Balance: {}!", balance);
    }
}

#[test]
fn withdraw_refuses_the_whole_balance_and_keeps_it() {
    let mut account = SavingsAccount::new();
    account.deposit(100);
    assert_eq!(account.withdraw(100), Err("Insufficient Funding.".to_owned()));
    assert_eq!(account.get_balance(), 100);
}

#[test]
fn deposits_add_up() {
    let mut account = SavingsAccount::new();
    account.deposit(30);
    account.deposit(12);
    assert_eq!(account.get_balance(), 42);
    assert_eq!(account.withdraw(2), Ok(40));
}
