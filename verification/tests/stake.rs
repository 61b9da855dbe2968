use abax_governance::events::Event;
use abax_governance::events::InitializedUnstake;
use abax_governance::events::MaximalNumberOfUnstakesChanged;
use abax_governance::events::Rewarded;
use abax_governance::events::Slashed;
use abax_governance::events::Staked;
use abax_governance::events::UnstakePeriodChanged;
use abax_governance::events::Unstaked;
use abax_governance::stake::errors::MathError;
use abax_governance::stake::errors::OwnableError;
use abax_governance::stake::errors::PSP22Error;
use abax_governance::stake::errors::StakeError;
use abax_governance::stake::ledger::Staker;
use abax_governance::stake::structs::Unstake;
use abax_governance::stake::transfer::StakeTransfer;
use abax_governance::trace::Traced;
use abax_governance::types::AccountId;

#[derive(Debug, PartialEq)]
enum Call {
    TransferIn(AccountId, u128),
    TransferOut(AccountId, u128),
    OnReward(u128),
    OnSlash(u128),
}

struct Token {
    fails: bool,
    calls: Vec<Call>,
}

impl Token {
    fn new() -> Self {
        Token { fails: false, calls: Vec::new() }
    }

    fn failing() -> Self {
        Token { fails: true, calls: Vec::new() }
    }

    fn answer(&self) -> Result<(), StakeError> {
        if self.fails {
            Err(StakeError::PSP22Error(PSP22Error::InsufficientBalance))
        } else {
            Ok(())
        }
    }
}

impl StakeTransfer for Token {
    fn _transfer_in(&mut self, account: &AccountId, amount: &u128) -> Result<(), StakeError> {
        self.calls.push(Call::TransferIn(*account, *amount));
        self.answer()
    }

    fn _transfer_out(&mut self, account: &AccountId, amount: &u128) -> Result<(), StakeError> {
        self.calls.push(Call::TransferOut(*account, *amount));
        self.answer()
    }

    fn _on_reward(&mut self, amount: &u128) -> Result<(), StakeError> {
        self.calls.push(Call::OnReward(*amount));
        self.answer()
    }

    fn _on_slash(&mut self, amount: &u128) -> Result<(), StakeError> {
        self.calls.push(Call::OnSlash(*amount));
        self.answer()
    }
}

fn account(byte: u8) -> AccountId {
    AccountId([byte; 32])
}

fn staker(unstake_period: u64, maximal_number_of_unstakes: u64) -> Staker {
    Staker::new(account(9), account(8), unstake_period, maximal_number_of_unstakes)
}

fn totals_match(staker: &Staker, accounts: &[AccountId]) {
    let mut stakes: u128 = 0;
    let mut unstakes: u128 = 0;
    for account in accounts {
        stakes += staker.stake_of(*account);
        for unstake in staker.initialized_unstakes_of(*account) {
            unstakes += unstake.amount;
        }
    }
    assert_eq!(staker.total_stake(), stakes);
    assert_eq!(staker.total_unstake(), unstakes);
}

#[test]
fn new_ledger_is_empty() {
    let staker = staker(100, 3);
    assert_eq!(staker.owner(), account(9));
    assert_eq!(staker.want(), account(8));
    assert_eq!(staker.unstake_period(), 100);
    assert_eq!(staker.maximal_number_of_unstakes(), 3);
    assert_eq!(staker.total_stake(), 0);
    assert_eq!(staker.total_unstake(), 0);
    assert_eq!(staker.counter_stake(), 0);
    assert_eq!(staker.stake_of(account(1)), 0);
    assert_eq!(staker.initialized_unstakes_of(account(1)), vec![]);
    assert_eq!(staker.stake_timestamp_of(account(1)), None);
    assert_eq!(staker.last_stake_timestamp_of(account(1)), None);
}

#[test]
fn stake_books_the_amount() {
    let mut staker = staker(100, 3);
    let mut token = Traced::new(Token::new());
    let mut events = Vec::new();
    assert_eq!(staker.stake(&mut token, &mut events, account(1), 70, 1000), Ok(()));
    assert_eq!(token.inner().calls, vec![Call::TransferIn(account(1), 70)]);
    assert_eq!(staker.stake_of(account(1)), 70);
    assert_eq!(staker.total_stake(), 70);
    assert_eq!(staker.counter_stake(), 70);
    assert_eq!(staker.stake_timestamp_of(account(1)), Some(1000));
    assert_eq!(staker.last_stake_timestamp_of(account(1)), Some(1000));
    assert_eq!(events, vec![Event::Staked(Staked { caller: account(1), amount: 70 })]);
}

#[test]
fn second_stake_keeps_the_first_timestamp() {
    let mut staker = staker(100, 3);
    let mut token = Traced::new(Token::new());
    let mut events = Vec::new();
    staker.stake(&mut token, &mut events, account(1), 70, 1000).unwrap();
    staker.stake(&mut token, &mut events, account(1), 5, 2000).unwrap();
    assert_eq!(staker.stake_of(account(1)), 75);
    assert_eq!(staker.stake_timestamp_of(account(1)), Some(1000));
    assert_eq!(staker.last_stake_timestamp_of(account(1)), Some(2000));
    assert_eq!(staker.counter_stake(), 75);
}

#[test]
fn stake_of_nothing_is_refused() {
    let mut staker = staker(100, 3);
    let mut token = Traced::new(Token::new());
    let mut events = Vec::new();
    assert_eq!(
        staker.stake(&mut token, &mut events, account(1), 0, 1000),
        Err(StakeError::AmountIsZero)
    );
    assert_eq!(token.inner().calls, vec![]);
    assert_eq!(events, vec![]);
    assert_eq!(staker.total_stake(), 0);
}

#[test]
fn stake_passes_the_error_of_the_token_on() {
    let mut staker = staker(100, 3);
    let mut token = Traced::new(Token::failing());
    let mut events = Vec::new();
    assert_eq!(
        staker.stake(&mut token, &mut events, account(1), 70, 1000),
        Err(StakeError::PSP22Error(PSP22Error::InsufficientBalance))
    );
    assert_eq!(staker.stake_of(account(1)), 0);
    assert_eq!(staker.total_stake(), 0);
    assert_eq!(staker.counter_stake(), 0);
    assert_eq!(staker.stake_timestamp_of(account(1)), None);
    assert_eq!(events, vec![]);
}

#[test]
fn stake_that_overflows_the_total_is_refused() {
    let mut staker = staker(100, 3);
    let mut token = Traced::new(Token::new());
    let mut events = Vec::new();
    staker.stake(&mut token, &mut events, account(1), u128::MAX, 1000).unwrap();
    assert_eq!(
        staker.stake(&mut token, &mut events, account(2), 1, 1000),
        Err(StakeError::MathError(MathError::Add))
    );
    assert_eq!(staker.stake_of(account(2)), 0);
    assert_eq!(staker.total_stake(), u128::MAX);
    assert_eq!(events.len(), 1);
}

#[test]
fn settle_stake_goes_by_the_answer_it_is_given() {
    let mut staker = staker(100, 3);
    let mut events = Vec::new();
    assert_eq!(
        staker.settle_stake(&mut events, account(1), 70, 1000, Err(StakeError::Unstaking)),
        Err(StakeError::Unstaking)
    );
    assert_eq!(staker.stake_of(account(1)), 0);
    assert_eq!(staker.settle_stake(&mut events, account(1), 70, 1000, Ok(())), Ok(()));
    assert_eq!(staker.stake_of(account(1)), 70);
    assert_eq!(
        staker.settle_stake(&mut events, account(1), 0, 1000, Err(StakeError::Unstaking)),
        Err(StakeError::AmountIsZero)
    );
}

#[test]
fn initialize_unstake_moves_stake_to_the_queue() {
    let mut staker = staker(100, 3);
    let mut token = Traced::new(Token::new());
    let mut events = Vec::new();
    staker.stake(&mut token, &mut events, account(1), 70, 1000).unwrap();
    assert_eq!(staker.initialize_unstake(&mut events, account(1), 30, 1500), Ok(()));
    assert_eq!(staker.stake_of(account(1)), 40);
    assert_eq!(staker.total_stake(), 40);
    assert_eq!(staker.total_unstake(), 30);
    assert_eq!(
        staker.initialized_unstakes_of(account(1)),
        vec![Unstake { init_time: 1500, amount: 30 }]
    );
    assert_eq!(staker.stake_timestamp_of(account(1)), Some(1000));
    assert_eq!(staker.counter_stake(), 70);
    assert_eq!(
        events[1],
        Event::InitializedUnstake(InitializedUnstake { caller: account(1), amount: 30 })
    );
}

#[test]
fn initialize_unstake_of_all_clears_the_timestamps() {
    let mut staker = staker(100, 3);
    let mut token = Traced::new(Token::new());
    let mut events = Vec::new();
    staker.stake(&mut token, &mut events, account(1), 70, 1000).unwrap();
    staker.initialize_unstake(&mut events, account(1), 70, 1500).unwrap();
    assert_eq!(staker.stake_of(account(1)), 0);
    assert_eq!(staker.stake_timestamp_of(account(1)), None);
    assert_eq!(staker.last_stake_timestamp_of(account(1)), None);
}

#[test]
fn initialize_unstake_errors() {
    let mut staker = staker(100, 2);
    let mut token = Traced::new(Token::new());
    let mut events = Vec::new();
    staker.stake(&mut token, &mut events, account(1), 70, 1000).unwrap();
    assert_eq!(
        staker.initialize_unstake(&mut events, account(1), 0, 1500),
        Err(StakeError::AmountIsZero)
    );
    assert_eq!(
        staker.initialize_unstake(&mut events, account(1), 71, 1500),
        Err(StakeError::InsufficientStake)
    );
    assert_eq!(
        staker.initialize_unstake(&mut events, account(2), 1, 1500),
        Err(StakeError::InsufficientStake)
    );
    staker.initialize_unstake(&mut events, account(1), 10, 1500).unwrap();
    staker.initialize_unstake(&mut events, account(1), 10, 1600).unwrap();
    assert_eq!(
        staker.initialize_unstake(&mut events, account(1), 10, 1700),
        Err(StakeError::ToManyUnstakes)
    );
    assert_eq!(staker.stake_of(account(1)), 50);
    assert_eq!(staker.total_unstake(), 20);
    assert_eq!(events.len(), 3);
}

#[test]
fn unstake_takes_what_is_ready_from_the_front() {
    let mut staker = staker(100, 5);
    let mut token = Traced::new(Token::new());
    let mut events = Vec::new();
    staker.stake(&mut token, &mut events, account(1), 70, 1000).unwrap();
    staker.initialize_unstake(&mut events, account(1), 10, 1000).unwrap();
    staker.initialize_unstake(&mut events, account(1), 20, 1050).unwrap();
    staker.initialize_unstake(&mut events, account(1), 30, 1200).unwrap();
    let mut events = Vec::new();
    assert_eq!(staker.unstake(&mut token, &mut events, account(1), 1150), Ok(30));
    assert_eq!(token.inner().calls.last(), Some(&Call::TransferOut(account(1), 30)));
    assert_eq!(
        staker.initialized_unstakes_of(account(1)),
        vec![Unstake { init_time: 1200, amount: 30 }]
    );
    assert_eq!(staker.total_unstake(), 30);
    assert_eq!(staker.stake_of(account(1)), 10);
    assert_eq!(events, vec![Event::Unstaked(Unstaked { caller: account(1) })]);
    assert_eq!(staker.unstake(&mut token, &mut events, account(1), 1299), Err(StakeError::TooEarly));
    assert_eq!(staker.unstake(&mut token, &mut events, account(1), 1300), Ok(30));
    assert_eq!(staker.initialized_unstakes_of(account(1)), vec![]);
    assert_eq!(
        staker.unstake(&mut token, &mut events, account(1), 5000),
        Err(StakeError::NoInitializedUnstakes)
    );
}

#[test]
fn unstake_stops_at_the_first_unstake_that_is_not_ready() {
    let mut staker = staker(100, 5);
    let mut token = Traced::new(Token::new());
    let mut events = Vec::new();
    staker.stake(&mut token, &mut events, account(1), 70, 1000).unwrap();
    staker.initialize_unstake(&mut events, account(1), 10, 2000).unwrap();
    staker.initialize_unstake(&mut events, account(1), 20, 3000).unwrap();
    staker.initialize_unstake(&mut events, account(1), 30, 1000).unwrap();
    assert_eq!(staker.ready_to_unstake(account(1), 2100), Ok(10));
    assert_eq!(staker.unstake(&mut token, &mut events, account(1), 2100), Ok(10));
    assert_eq!(
        staker.initialized_unstakes_of(account(1)),
        vec![Unstake { init_time: 3000, amount: 20 }, Unstake { init_time: 1000, amount: 30 }]
    );
}

#[test]
fn unstake_that_the_token_refuses_changes_nothing() {
    let mut staker = staker(100, 5);
    let mut token = Traced::new(Token::new());
    let mut events = Vec::new();
    staker.stake(&mut token, &mut events, account(1), 70, 1000).unwrap();
    staker.initialize_unstake(&mut events, account(1), 10, 1000).unwrap();
    let mut token = Traced::new(Token::failing());
    let mut events = Vec::new();
    assert_eq!(
        staker.unstake(&mut token, &mut events, account(1), 1100),
        Err(StakeError::PSP22Error(PSP22Error::InsufficientBalance))
    );
    assert_eq!(token.inner().calls, vec![Call::TransferOut(account(1), 10)]);
    assert_eq!(
        staker.initialized_unstakes_of(account(1)),
        vec![Unstake { init_time: 1000, amount: 10 }]
    );
    assert_eq!(staker.total_unstake(), 10);
    assert_eq!(events, vec![]);
}

#[test]
fn round_trip_gives_the_stake_back() {
    let mut staker = staker(100, 5);
    let mut token = Traced::new(Token::new());
    let mut events = Vec::new();
    staker.stake(&mut token, &mut events, account(1), 12345, 1000).unwrap();
    staker.initialize_unstake(&mut events, account(1), 12345, 1010).unwrap();
    assert_eq!(staker.unstake(&mut token, &mut events, account(1), 1109), Err(StakeError::TooEarly));
    assert_eq!(staker.unstake(&mut token, &mut events, account(1), 1110), Ok(12345));
    assert_eq!(staker.stake_of(account(1)), 0);
    assert_eq!(staker.initialized_unstakes_of(account(1)), vec![]);
    assert_eq!(staker.total_stake(), 0);
    assert_eq!(staker.total_unstake(), 0);
    assert_eq!(
        token.inner().calls,
        vec![Call::TransferIn(account(1), 12345), Call::TransferOut(account(1), 12345)]
    );
}

#[test]
fn stake_and_unstakes_initialized_after_counts_the_newest_unstakes() {
    let mut staker = staker(100, 5);
    let mut token = Traced::new(Token::new());
    let mut events = Vec::new();
    staker.stake(&mut token, &mut events, account(1), 100, 1000).unwrap();
    staker.initialize_unstake(&mut events, account(1), 10, 1000).unwrap();
    staker.initialize_unstake(&mut events, account(1), 20, 2000).unwrap();
    staker.initialize_unstake(&mut events, account(1), 30, 3000).unwrap();
    assert_eq!(staker.stake_and_unstakes_initialized_after(account(1), 0), Ok(100));
    assert_eq!(staker.stake_and_unstakes_initialized_after(account(1), 1000), Ok(100));
    assert_eq!(staker.stake_and_unstakes_initialized_after(account(1), 1001), Ok(90));
    assert_eq!(staker.stake_and_unstakes_initialized_after(account(1), 2000), Ok(90));
    assert_eq!(staker.stake_and_unstakes_initialized_after(account(1), 3000), Ok(70));
    assert_eq!(staker.stake_and_unstakes_initialized_after(account(1), 3001), Ok(40));
    assert_eq!(staker.stake_and_unstakes_initialized_after(account(2), 0), Ok(0));
}

#[test]
fn stake_and_unstakes_initialized_after_stops_at_an_older_unstake() {
    let mut staker = staker(100, 5);
    let mut token = Traced::new(Token::new());
    let mut events = Vec::new();
    staker.stake(&mut token, &mut events, account(1), 100, 1000).unwrap();
    staker.initialize_unstake(&mut events, account(1), 10, 3000).unwrap();
    staker.initialize_unstake(&mut events, account(1), 20, 1000).unwrap();
    staker.initialize_unstake(&mut events, account(1), 30, 3000).unwrap();
    assert_eq!(staker.stake_and_unstakes_initialized_after(account(1), 2000), Ok(70));
}

#[test]
fn stake_and_unstakes_initialized_after_refuses_a_sum_that_does_not_fit() {
    let mut staker = staker(100, 5);
    let mut token = Traced::new(Token::new());
    let mut events = Vec::new();
    staker.stake(&mut token, &mut events, account(1), u128::MAX, 1000).unwrap();
    staker.initialize_unstake(&mut events, account(1), u128::MAX, 1000).unwrap();
    staker.stake(&mut token, &mut events, account(1), 1, 1000).unwrap();
    assert_eq!(
        staker.stake_and_unstakes_initialized_after(account(1), 0),
        Err(MathError::Add)
    );
    assert_eq!(staker.stake_and_unstakes_initialized_after(account(1), 1001), Ok(1));
}

#[test]
fn reward_adds_to_the_stake() {
    let mut staker = staker(100, 5);
    let mut token = Traced::new(Token::new());
    let mut events = Vec::new();
    staker.stake(&mut token, &mut events, account(1), 100, 1000).unwrap();
    let mut events = Vec::new();
    assert_eq!(staker.reward(&mut token, &mut events, account(1), 7), Ok(()));
    assert_eq!(token.inner().calls.last(), Some(&Call::OnReward(7)));
    assert_eq!(staker.stake_of(account(1)), 107);
    assert_eq!(staker.total_stake(), 107);
    assert_eq!(staker.counter_stake(), 107);
    assert_eq!(staker.last_stake_timestamp_of(account(1)), Some(1000));
    assert_eq!(events, vec![Event::Rewarded(Rewarded { account: account(1), amount: 7 })]);
}

#[test]
fn reward_errors() {
    let mut staker = staker(100, 5);
    let mut token = Traced::new(Token::new());
    let mut events = Vec::new();
    assert_eq!(
        staker.reward(&mut token, &mut events, account(1), 0),
        Err(StakeError::AmountIsZero)
    );
    let mut failing = Traced::new(Token::failing());
    assert_eq!(
        staker.reward(&mut failing, &mut events, account(1), 5),
        Err(StakeError::PSP22Error(PSP22Error::InsufficientBalance))
    );
    assert_eq!(staker.stake_of(account(1)), 0);
    assert_eq!(staker.counter_stake(), 0);
    staker.stake(&mut token, &mut events, account(2), u128::MAX, 1000).unwrap();
    let calls = token.inner().calls.len();
    assert_eq!(
        staker.reward(&mut token, &mut events, account(1), 1),
        Err(StakeError::MathError(MathError::Add))
    );
    assert_eq!(token.inner().calls.len(), calls);
    assert_eq!(events.len(), 1);
}

#[test]
fn internal_reward_of_nothing_is_refused() {
    let mut staker = staker(100, 5);
    let mut token = Traced::new(Token::new());
    let mut events = Vec::new();
    assert_eq!(
        staker._reward(&mut token, &mut events, &account(1), &0),
        Err(StakeError::AmountIsZero)
    );
    assert_eq!(staker.reward_refused(0), Some(StakeError::AmountIsZero));
    assert_eq!(staker.reward_refused(1), None);
    assert_eq!(
        staker.settle_reward(&mut events, account(1), 0, Ok(())),
        Err(StakeError::AmountIsZero)
    );
    assert_eq!(staker.stake_of(account(1)), 0);
    assert_eq!(token.inner().calls, vec![]);
    assert_eq!(events, vec![]);
}

#[test]
fn slash_takes_from_the_stake_first_and_then_from_the_newest_unstake() {
    let mut staker = staker(100, 5);
    let mut token = Traced::new(Token::new());
    let mut events = Vec::new();
    staker.stake(&mut token, &mut events, account(1), 70, 1000).unwrap();
    staker.initialize_unstake(&mut events, account(1), 30, 1100).unwrap();
    let mut events = Vec::new();
    assert_eq!(staker.slash(&mut token, &mut events, account(1), 50), Ok(50));
    assert_eq!(staker.stake_of(account(1)), 0);
    assert_eq!(
        staker.initialized_unstakes_of(account(1)),
        vec![Unstake { init_time: 1100, amount: 20 }]
    );
    assert_eq!(staker.total_stake(), 0);
    assert_eq!(staker.total_unstake(), 20);
    assert_eq!(staker.stake_timestamp_of(account(1)), None);
    assert_eq!(staker.counter_stake(), 70);
    assert_eq!(events, vec![Event::Slashed(Slashed { account: account(1), amount: 50 })]);
    assert_eq!(token.inner().calls, vec![Call::TransferIn(account(1), 70), Call::OnSlash(50)]);
}

#[test]
fn slash_that_the_stake_covers_leaves_the_queue_alone() {
    let mut staker = staker(100, 5);
    let mut token = Traced::new(Token::new());
    let mut events = Vec::new();
    staker.stake(&mut token, &mut events, account(1), 70, 1000).unwrap();
    staker.initialize_unstake(&mut events, account(1), 30, 1100).unwrap();
    assert_eq!(staker.slash(&mut token, &mut events, account(1), 40), Ok(40));
    assert_eq!(staker.stake_of(account(1)), 0);
    assert_eq!(
        staker.initialized_unstakes_of(account(1)),
        vec![Unstake { init_time: 1100, amount: 30 }]
    );
    assert_eq!(staker.total_unstake(), 30);
    assert_eq!(staker.stake_timestamp_of(account(1)), None);
}

#[test]
fn slash_of_a_part_of_the_stake_keeps_the_timestamps() {
    let mut staker = staker(100, 5);
    let mut token = Traced::new(Token::new());
    let mut events = Vec::new();
    staker.stake(&mut token, &mut events, account(1), 70, 1000).unwrap();
    assert_eq!(staker.slash(&mut token, &mut events, account(1), 30), Ok(30));
    assert_eq!(staker.stake_of(account(1)), 40);
    assert_eq!(staker.total_stake(), 40);
    assert_eq!(staker.stake_timestamp_of(account(1)), Some(1000));
}

#[test]
fn slash_goes_through_the_queue_from_the_back() {
    let mut staker = staker(100, 5);
    let mut token = Traced::new(Token::new());
    let mut events = Vec::new();
    staker.stake(&mut token, &mut events, account(1), 60, 1000).unwrap();
    staker.initialize_unstake(&mut events, account(1), 10, 1100).unwrap();
    staker.initialize_unstake(&mut events, account(1), 20, 1200).unwrap();
    staker.initialize_unstake(&mut events, account(1), 30, 1300).unwrap();
    assert_eq!(staker.slash(&mut token, &mut events, account(1), 45), Ok(45));
    assert_eq!(
        staker.initialized_unstakes_of(account(1)),
        vec![Unstake { init_time: 1100, amount: 10 }, Unstake { init_time: 1200, amount: 5 }]
    );
    assert_eq!(staker.total_unstake(), 15);
    assert_eq!(staker.slash(&mut token, &mut events, account(1), 100), Ok(15));
    assert_eq!(staker.initialized_unstakes_of(account(1)), vec![]);
    assert_eq!(staker.total_unstake(), 0);
    assert_eq!(staker.slash(&mut token, &mut events, account(1), 100), Err(StakeError::StakeIsZero));
}

#[test]
fn slash_errors() {
    let mut staker = staker(100, 5);
    let mut token = Traced::new(Token::new());
    let mut events = Vec::new();
    assert_eq!(staker.slash(&mut token, &mut events, account(1), 0), Err(StakeError::AmountIsZero));
    assert_eq!(staker.slash(&mut token, &mut events, account(1), 5), Err(StakeError::StakeIsZero));
    assert_eq!(
        staker._slash(&mut token, &mut events, &account(1), &0),
        Err(StakeError::AmountIsZero)
    );
    assert_eq!(staker.slashable(&account(1), &0), Err(StakeError::AmountIsZero));
    assert_eq!(
        staker.settle_slash(&mut events, &account(1), &0, Ok(())),
        Err(StakeError::AmountIsZero)
    );
    staker.stake(&mut token, &mut events, account(1), 70, 1000).unwrap();
    let mut events = Vec::new();
    assert_eq!(
        staker._slash(&mut token, &mut events, &account(1), &0),
        Err(StakeError::AmountIsZero)
    );
    assert_eq!(staker.stake_of(account(1)), 70);
    assert_eq!(token.inner().calls, vec![Call::TransferIn(account(1), 70)]);
    assert_eq!(events, vec![]);
}

#[test]
fn totals_are_the_sums_over_the_accounts() {
    let mut staker = staker(100, 5);
    let mut token = Traced::new(Token::new());
    let mut events = Vec::new();
    let accounts = [account(1), account(2), account(3)];
    totals_match(&staker, &accounts);
    staker.stake(&mut token, &mut events, account(1), 70, 1000).unwrap();
    staker.stake(&mut token, &mut events, account(2), 500, 1001).unwrap();
    totals_match(&staker, &accounts);
    staker.initialize_unstake(&mut events, account(1), 30, 1100).unwrap();
    staker.initialize_unstake(&mut events, account(2), 100, 1100).unwrap();
    staker.initialize_unstake(&mut events, account(2), 200, 1200).unwrap();
    totals_match(&staker, &accounts);
    staker.reward(&mut token, &mut events, account(3), 11).unwrap();
    totals_match(&staker, &accounts);
    staker.slash(&mut token, &mut events, account(2), 350).unwrap();
    totals_match(&staker, &accounts);
    staker.unstake(&mut token, &mut events, account(1), 1200).unwrap();
    totals_match(&staker, &accounts);
    let _ = staker.unstake(&mut token, &mut events, account(2), 1100);
    totals_match(&staker, &accounts);
    assert_eq!(staker.total_stake(), 40 + 11);
    assert_eq!(staker.total_unstake(), 150);
}

#[test]
fn counter_never_goes_down_until_it_wraps() {
    let mut staker = staker(100, 5);
    let mut token = Traced::new(Token::new());
    let mut events = Vec::new();
    staker.stake(&mut token, &mut events, account(1), 100, 1000).unwrap();
    assert_eq!(staker.counter_stake(), 100);
    staker.initialize_unstake(&mut events, account(1), 60, 1000).unwrap();
    assert_eq!(staker.counter_stake(), 100);
    staker.slash(&mut token, &mut events, account(1), 90).unwrap();
    assert_eq!(staker.counter_stake(), 100);
    staker.unstake(&mut token, &mut events, account(1), 2000).unwrap();
    assert_eq!(staker.counter_stake(), 100);
    staker.reward(&mut token, &mut events, account(1), 5).unwrap();
    assert_eq!(staker.counter_stake(), 105);
    assert_eq!(staker.total_stake(), 5);
    staker.stake(&mut token, &mut events, account(2), u128::MAX - 5, 1000).unwrap();
    assert_eq!(staker.counter_stake(), 99);
}

#[test]
fn parameters_are_for_the_owner_to_change() {
    let mut staker = staker(100, 5);
    let mut events = Vec::new();
    assert_eq!(
        staker.change_unstake_period(&mut events, account(1), 7),
        Err(StakeError::OwnableError(OwnableError::CallerIsNotOwner))
    );
    assert_eq!(
        staker.change_maximal_number_of_unstakes(&mut events, account(1), 7),
        Err(StakeError::OwnableError(OwnableError::CallerIsNotOwner))
    );
    assert_eq!(staker.unstake_period(), 100);
    assert_eq!(staker.maximal_number_of_unstakes(), 5);
    assert_eq!(events, vec![]);
    assert_eq!(staker.change_unstake_period(&mut events, account(9), 7), Ok(()));
    assert_eq!(staker.change_maximal_number_of_unstakes(&mut events, account(9), 8), Ok(()));
    assert_eq!(staker.unstake_period(), 7);
    assert_eq!(staker.maximal_number_of_unstakes(), 8);
    assert_eq!(
        events,
        vec![
            Event::UnstakePeriodChanged(UnstakePeriodChanged { unstake_period: 7 }),
            Event::MaximalNumberOfUnstakesChanged(MaximalNumberOfUnstakesChanged {
                maximal_number_of_unstakes: 8
            }),
        ]
    );
    assert_eq!(staker.only_owner(&account(9)), Ok(()));
    assert_eq!(staker.only_owner(&account(1)), Err(OwnableError::CallerIsNotOwner));
}

#[test]
fn slash_burns_what_it_takes() {
    let mut staker = staker(100, 5);
    let mut token = Traced::new(Token::new());
    let mut events = Vec::new();
    staker.stake(&mut token, &mut events, account(1), 70, 1000).unwrap();
    assert_eq!(staker.slashable(&account(1), &100), Ok(70));
    assert_eq!(staker.slash(&mut token, &mut events, account(1), 100), Ok(70));
    assert_eq!(token.inner().calls.last(), Some(&Call::OnSlash(70)));
    let calls = token.inner().calls.len();
    assert_eq!(
        staker.slash(&mut token, &mut events, account(1), 100),
        Err(StakeError::StakeIsZero)
    );
    assert_eq!(token.inner().calls.len(), calls);
}

#[test]
fn slash_that_the_token_refuses_changes_nothing() {
    let mut staker = staker(100, 5);
    let mut token = Traced::new(Token::new());
    let mut events = Vec::new();
    staker.stake(&mut token, &mut events, account(1), 70, 1000).unwrap();
    staker.initialize_unstake(&mut events, account(1), 30, 1100).unwrap();
    let mut failing = Traced::new(Token::failing());
    let mut events = Vec::new();
    assert_eq!(
        staker.slash(&mut failing, &mut events, account(1), 50),
        Err(StakeError::PSP22Error(PSP22Error::InsufficientBalance))
    );
    assert_eq!(failing.inner().calls, vec![Call::OnSlash(50)]);
    assert_eq!(staker.stake_of(account(1)), 40);
    assert_eq!(staker.total_unstake(), 30);
    assert_eq!(events, vec![]);
    assert_eq!(staker.settle_slash(&mut events, &account(1), &50, Ok(())), Ok(50));
    assert_eq!(staker.stake_of(account(1)), 0);
    assert_eq!(staker.total_unstake(), 20);
}

#[test]
fn slash_that_uses_up_the_stake_forgets_when_the_account_staked() {
    let mut staker = staker(100, 5);
    let mut token = Traced::new(Token::new());
    let mut events = Vec::new();
    staker.stake(&mut token, &mut events, account(1), 70, 1000).unwrap();
    staker.initialize_unstake(&mut events, account(1), 30, 1100).unwrap();
    assert_eq!(staker.slash(&mut token, &mut events, account(1), 10), Ok(10));
    assert_eq!(staker.stake_timestamp_of(account(1)), Some(1000));
    assert_eq!(staker.slash(&mut token, &mut events, account(1), 35), Ok(35));
    assert_eq!(staker.stake_of(account(1)), 0);
    assert_eq!(staker.stake_timestamp_of(account(1)), None);
    assert_eq!(staker.last_stake_timestamp_of(account(1)), None);
    assert_eq!(staker.slash(&mut token, &mut events, account(1), 5), Ok(5));
    assert_eq!(
        staker.initialized_unstakes_of(account(1)),
        vec![Unstake { init_time: 1100, amount: 20 }]
    );
    assert_eq!(staker.stake_timestamp_of(account(1)), None);
}

#[test]
fn ledger_with_a_time_for_an_account_without_stake_does_not_come_back_from_its_parts() {
    let mut staker = staker(100, 5);
    let mut token = Traced::new(Token::new());
    let mut events = Vec::new();
    staker.stake(&mut token, &mut events, account(1), 70, 1000).unwrap();
    staker.initialize_unstake(&mut events, account(1), 70, 1100).unwrap();
    let (owner, stake, mut times, counter) = staker.into_parts();
    assert!(times.is_of_stakers_only(&stake));
    times.stakes_timestamps.insert(account(1), 1000);
    assert!(!times.is_of_stakers_only(&stake));
    assert!(Staker::from_parts(owner, stake, times, counter).is_none());
    let mut staker = staker_with_a_queue();
    let (owner, stake, mut times, counter) = staker.into_parts();
    times.last_stakes_timestamps.insert(account(1), 1000);
    assert!(Staker::from_parts(owner, stake, times, counter).is_none());
    staker = staker_with_a_queue();
    let (owner, stake, times, counter) = staker.into_parts();
    assert!(Staker::from_parts(owner, stake, times, counter).is_some());
}

fn staker_with_a_queue() -> Staker {
    let mut staker = staker(100, 5);
    let mut token = Traced::new(Token::new());
    let mut events = Vec::new();
    staker.stake(&mut token, &mut events, account(1), 70, 1000).unwrap();
    staker.initialize_unstake(&mut events, account(1), 70, 1100).unwrap();
    staker
}

#[test]
fn ledger_comes_back_from_its_parts() {
    let mut staker = staker(100, 5);
    let mut token = Traced::new(Token::new());
    let mut events = Vec::new();
    staker.stake(&mut token, &mut events, account(1), 70, 1000).unwrap();
    staker.stake(&mut token, &mut events, account(2), 5, 1001).unwrap();
    staker.initialize_unstake(&mut events, account(1), 30, 1100).unwrap();
    let (owner, stake, times, counter) = staker.into_parts();
    assert_eq!(owner, account(9));
    assert_eq!(stake.total_stake, 45);
    assert_eq!(stake.sum_of_stakes(), Some(45));
    assert_eq!(stake.sum_of_unstakes(), Some(30));
    let staker = Staker::from_parts(owner, stake, times, counter).unwrap();
    assert_eq!(staker.stake_of(account(1)), 40);
    assert_eq!(staker.stake_of(account(2)), 5);
    assert_eq!(staker.total_unstake(), 30);
    assert_eq!(staker.counter_stake(), 75);
    assert_eq!(staker.stake_timestamp_of(account(2)), Some(1001));
    let (owner, mut stake, times, counter) = staker.into_parts();
    stake.total_stake = 46;
    assert!(Staker::from_parts(owner, stake, times, counter).is_none());
}
