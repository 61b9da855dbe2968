use abax_governance::minter::GovernanceTokenMinter;
use abax_governance::minter::GovernanceTokenMinterError;
use abax_governance::minter::PSP22Mintable;
use abax_governance::minter::MINTED_AMOUNT;
use abax_governance::stake::errors::MathError;
use abax_governance::stake::errors::OwnableError;
use abax_governance::stake::errors::PSP22Error;
use abax_governance::stake::errors::StakeError;
use abax_governance::govern::errors::GovernError;
use abax_governance::stake::storage::slash_queue;
use abax_governance::stake::storage::StakeCounterStorage;
use abax_governance::stake::storage::StakeStorage;
use abax_governance::stake::storage::StakeTimesStorage;
use abax_governance::stake::structs::Unstake;
use abax_governance::table::Table;
use abax_governance::timestamp_mock::BlockTimestampProvider;
use abax_governance::timestamp_mock::TimestampMockStorage;
use abax_governance::trace::Traced;
use abax_governance::types::AccountId;
use abax_governance::types::Key;
use abax_governance::types::E12;

struct Mint {
    fails: bool,
    minted: Vec<(AccountId, u128)>,
}

impl PSP22Mintable for Mint {
    fn mint(&mut self, account: AccountId, amount: u128) -> Result<(), PSP22Error> {
        if self.fails {
            return Err(PSP22Error::ZeroRecipientAddress);
        }
        self.minted.push((account, amount));
        Ok(())
    }
}

fn account(byte: u8) -> AccountId {
    AccountId([byte; 32])
}

#[test]
fn one_is_a_million_millions() {
    assert_eq!(E12, 1_000_000_000_000);
}

#[test]
fn keys_are_the_same_when_all_their_bytes_are() {
    let mut other = [3u8; 32];
    assert!(account(3).same(&AccountId(other)));
    other[31] = 4;
    assert!(!account(3).same(&AccountId(other)));
    assert!((account(1), 5u64).same(&(account(1), 5u64)));
    assert!(!(account(1), 5u64).same(&(account(1), 6u64)));
    assert!(!(account(2), 5u64).same(&(account(1), 5u64)));
    assert_eq!(AccountId::zero(), account(0));
}

#[test]
fn table_keeps_one_value_for_each_key() {
    let mut table: Table<u64, u8> = Table::new();
    assert_eq!(table.len(), 0);
    assert_eq!(table.get(&1), None);
    table.insert(1, 10);
    table.insert(2, 20);
    table.insert(1, 11);
    assert_eq!(table.len(), 2);
    assert_eq!(table.get(&1), Some(&11));
    assert_eq!(table.get(&2), Some(&20));
    assert_eq!(table.find(&2), Some(1));
    assert_eq!(table.find(&3), None);
    assert_eq!(*table.key_at(0), 1);
    assert_eq!(*table.value_at(1), 20);
    table.remove(&1);
    table.remove(&7);
    assert_eq!(table.len(), 1);
    assert_eq!(table.get(&1), None);
    assert_eq!(table.find(&2), Some(0));
}

#[test]
fn slash_queue_empties_the_newest_unstakes_first() {
    let queue = vec![
        Unstake { init_time: 1, amount: 10 },
        Unstake { init_time: 2, amount: 20 },
        Unstake { init_time: 3, amount: 30 },
    ];
    assert_eq!(slash_queue(queue.clone(), 0), (queue.clone(), 0));
    assert_eq!(
        slash_queue(queue.clone(), 30),
        (vec![Unstake { init_time: 1, amount: 10 }, Unstake { init_time: 2, amount: 20 }], 30)
    );
    assert_eq!(
        slash_queue(queue.clone(), 31),
        (vec![Unstake { init_time: 1, amount: 10 }, Unstake { init_time: 2, amount: 19 }], 31)
    );
    assert_eq!(slash_queue(queue.clone(), 60), (vec![], 60));
    assert_eq!(slash_queue(queue.clone(), 61), (vec![], 60));
    assert_eq!(slash_queue(vec![], 5), (vec![], 0));
}

#[test]
fn storage_steps_change_one_thing_each() {
    let mut storage = StakeStorage::default();
    assert_eq!(storage.want, account(0));
    assert_eq!(storage.increase_stake_of(&account(1), &50), Ok(()));
    assert_eq!(storage.stake_of(&account(1)), 50);
    assert_eq!(storage.total_stake, 0);
    assert_eq!(storage.increase_total_stake(&50), Ok(()));
    assert_eq!(storage.total_stake, 50);
    assert_eq!(storage.increase_stake_of(&account(1), &u128::MAX), Err(MathError::Add));
    assert_eq!(storage.increase_total_stake(&u128::MAX), Err(MathError::Add));
    assert_eq!(storage.decrease_stake_of(&account(1), &51), Err(StakeError::InsufficientStake));
    assert_eq!(storage.decrease_stake_of(&account(1), &20), Ok(false));
    assert_eq!(storage.decrease_stake_of(&account(1), &30), Ok(true));
    assert_eq!(storage.stake_of(&account(1)), 0);
    assert_eq!(storage.decrease_total_stake(&51), Err(MathError::Sub));
    assert_eq!(storage.decrease_total_stake(&50), Ok(()));
    assert_eq!(storage.increase_total_unstake(&7), Ok(()));
    assert_eq!(storage.increase_total_unstake(&u128::MAX), Err(MathError::Add));
    assert_eq!(storage.decrease_total_unstake(&8), Err(MathError::Sub));
    assert_eq!(storage.decrease_total_unstake(&7), Ok(()));
    storage.change_unstake_period(&9);
    storage.change_maximal_number_of_unstakes(&1);
    assert_eq!(storage.unstake_period, 9);
    assert_eq!(storage.register_unstake(&account(1), &5, &100), Ok(()));
    assert_eq!(storage.register_unstake(&account(1), &5, &100), Err(StakeError::ToManyUnstakes));
    assert_eq!(storage.total_unstake, 5);
    assert_eq!(storage.stake_and_unstakes_initialized_after(&account(1), &100), Ok(5));
    assert_eq!(storage.stake_and_unstakes_initialized_after(&account(1), &101), Ok(0));
    assert_eq!(storage.ready_unstakes_of(&account(1), &108), Err(StakeError::TooEarly));
    assert_eq!(storage.ready_unstakes_of(&account(1), &109), Ok(5));
    assert_eq!(storage.decrease_unstakes_of(&account(1), &2), 2);
    assert_eq!(
        storage.initialized_unstakes_of(&account(1)),
        vec![Unstake { init_time: 100, amount: 3 }]
    );
    assert_eq!(storage.decrease_total_unstake(&3), Ok(()));
    assert_eq!(
        storage.deregister_ready_unstakes(&account(1), &109),
        Err(StakeError::MathError(MathError::Sub))
    );
    assert_eq!(storage.increase_total_unstake(&1), Ok(()));
    assert_eq!(storage.deregister_ready_unstakes(&account(1), &109), Ok(3));
    assert_eq!(
        storage.deregister_ready_unstakes(&account(1), &109),
        Err(StakeError::NoInitializedUnstakes)
    );
    assert_eq!(storage.total_unstake, 0);
}

#[test]
fn timestamps_of_stakes_are_kept_and_forgotten() {
    let mut times = StakeTimesStorage::default();
    times.update_stake_timestamps_of(&account(1), &5);
    times.update_stake_timestamps_of(&account(1), &9);
    assert_eq!(times.stake_timestamp_of(&account(1)), Some(5));
    assert_eq!(times.last_stake_timestamp_of(&account(1)), Some(9));
    times.remove_stake_timestamps_of(&account(1));
    assert_eq!(times.stake_timestamp_of(&account(1)), None);
    assert_eq!(times.last_stake_timestamp_of(&account(1)), None);
}

#[test]
fn counter_wraps() {
    let mut counter = StakeCounterStorage { counter_stake: u128::MAX - 1 };
    counter.increase_counter(&1);
    assert_eq!(counter.counter_stake, u128::MAX);
    counter.increase_counter(&3);
    assert_eq!(counter.counter_stake, 2);
}

#[test]
fn errors_wrap_the_errors_below_them() {
    assert_eq!(StakeError::from(MathError::Add), StakeError::MathError(MathError::Add));
    assert_eq!(
        StakeError::from(OwnableError::NewOwnerIsZero),
        StakeError::OwnableError(OwnableError::NewOwnerIsZero)
    );
    assert_eq!(
        StakeError::from(PSP22Error::InsufficientAllowance),
        StakeError::PSP22Error(PSP22Error::InsufficientAllowance)
    );
    assert_eq!(
        StakeError::from(abax_governance::stake::errors::LangError::CouldNotReadInput),
        StakeError::LangError(abax_governance::stake::errors::LangError::CouldNotReadInput)
    );
    assert_eq!(GovernError::from(MathError::Mul), GovernError::MathError(MathError::Mul));
    assert_eq!(
        GovernError::from(StakeError::TooEarly),
        GovernError::StakeError(StakeError::TooEarly)
    );
    assert_eq!(
        GovernError::from(PSP22Error::ZeroSenderAddress),
        GovernError::PSP22Error(PSP22Error::ZeroSenderAddress)
    );
    assert_eq!(
        GovernError::from(OwnableError::CallerIsNotOwner),
        GovernError::OwnableError(OwnableError::CallerIsNotOwner)
    );
    assert_eq!(
        GovernanceTokenMinterError::from(OwnableError::CallerIsNotOwner),
        GovernanceTokenMinterError::OwnableError(OwnableError::CallerIsNotOwner)
    );
    assert_eq!(
        GovernanceTokenMinterError::from(PSP22Error::ZeroSenderAddress),
        GovernanceTokenMinterError::PSP22Error(PSP22Error::ZeroSenderAddress)
    );
}

#[test]
fn clock_gives_the_time_that_was_set_only_when_told_to() {
    let mut clock = BlockTimestampProvider::new(false, account(1));
    assert_eq!(clock.owner(), account(1));
    assert_eq!(clock.get_block_timestamp(777), 777);
    assert!(!clock.get_should_return_mock_value());
    assert_eq!(clock.set_block_timestamp(account(2), 5), Err(OwnableError::CallerIsNotOwner));
    assert_eq!(clock.increase_block_timestamp(account(2), 5), Err(OwnableError::CallerIsNotOwner));
    assert_eq!(
        clock.set_should_return_mock_value(account(2), true),
        Err(OwnableError::CallerIsNotOwner)
    );
    assert_eq!(clock.mock_timestamp(), 0);
    assert_eq!(clock.set_block_timestamp(account(1), 5), Ok(()));
    assert_eq!(clock.get_block_timestamp(777), 777);
    assert_eq!(clock.set_should_return_mock_value(account(1), true), Ok(()));
    assert!(clock.get_should_return_mock_value());
    assert_eq!(clock.get_block_timestamp(777), 5);
    assert_eq!(clock.increase_block_timestamp(account(1), 10), Ok(()));
    assert_eq!(clock.get_block_timestamp(777), 15);
}

#[test]
fn timestamp_provider_is_kept() {
    let mut storage = TimestampMockStorage::default();
    assert_eq!(storage.timestamp_provider(), account(0));
    storage.set_timestamp_provider(account(4));
    assert_eq!(storage.timestamp_provider(), account(4));
}

#[test]
fn faucet_mints_once_for_each_account() {
    let mut minter = GovernanceTokenMinter::new(account(1), account(2));
    assert_eq!(minter.owner(), account(1));
    assert_eq!(minter.gov_token_address(), account(2));
    let mut token = Traced::new(Mint { fails: false, minted: Vec::new() });
    assert!(!minter.has_already_minted(account(3)));
    assert_eq!(minter.mint(&mut token, account(3)), Ok(()));
    assert_eq!(MINTED_AMOUNT, 10_000_000_000_000_000);
    assert_eq!(token.inner().minted, vec![(account(3), 10_000_000_000_000_000)]);
    assert!(minter.has_already_minted(account(3)));
    assert_eq!(minter.mint(&mut token, account(3)), Err(GovernanceTokenMinterError::AlreadyMinted));
    assert_eq!(token.inner().minted.len(), 1);
    let mut token = Traced::new(Mint { fails: true, minted: Vec::new() });
    assert_eq!(
        minter.mint(&mut token, account(4)),
        Err(GovernanceTokenMinterError::PSP22Error(PSP22Error::ZeroRecipientAddress))
    );
    assert!(!minter.has_already_minted(account(4)));
    assert_eq!(minter.settle_mint(account(4), Ok(())), Ok(()));
    assert!(minter.has_already_minted(account(4)));
}

#[test]
fn table_comes_back_from_its_entries() {
    let table: Table<u64, u8> = Table::from_entries(vec![3, 1, 2], vec![30, 10, 20]).unwrap();
    assert_eq!(table.get(&1), Some(&10));
    assert_eq!(table.find(&3), Some(0));
    assert_eq!(table.into_entries(), (vec![3, 1, 2], vec![30, 10, 20]));
    assert!(Table::<u64, u8>::from_entries(vec![3, 1, 3], vec![30, 10, 20]).is_none());
    assert!(Table::<u64, u8>::from_entries(vec![3, 1], vec![30, 10, 20]).is_none());
    assert!(Table::<u64, u8>::from_entries(vec![], vec![]).is_some());
}

#[test]
fn clock_and_faucet_come_back_from_their_parts() {
    let clock = BlockTimestampProvider::from_parts(account(1), true, 42);
    assert_eq!(clock.get_block_timestamp(7), 42);
    assert_eq!(clock.owner(), account(1));
    let minter =
        GovernanceTokenMinter::from_parts(account(1), account(2), vec![account(5), account(6)])
            .unwrap();
    assert!(minter.has_already_minted(account(5)));
    assert!(minter.has_already_minted(account(6)));
    assert!(!minter.has_already_minted(account(7)));
    assert_eq!(minter.minted_accounts(), vec![account(5), account(6)]);
    assert!(GovernanceTokenMinter::from_parts(account(1), account(2), vec![account(5), account(5)])
        .is_none());
}

#[test]
fn handle_passes_calls_on_and_answers_back() {
    let mut token = Traced::new(Mint { fails: false, minted: Vec::new() });
    assert_eq!(token.mint(account(1), 5), Ok(()));
    assert_eq!(token.mint(account(2), 6), Ok(()));
    assert_eq!(token.inner().minted, vec![(account(1), 5), (account(2), 6)]);
    let stub = token.into_inner();
    assert_eq!(stub.minted.len(), 2);
    let mut failing = Traced::new(Mint { fails: true, minted: Vec::new() });
    assert_eq!(failing.mint(account(1), 5), Err(PSP22Error::ZeroRecipientAddress));
}
