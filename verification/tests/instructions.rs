use example_project::address::{find_global_account_address, find_user_account_address};
use example_project::error::CustomError;
use example_project::instructions::{
    authority_key, check_authority, close, close_with, increment, increment_both, increment_with,
    initialize, initialize_global, initialize_global_with, initialize_with, read_global_account,
    read_user_account, CloseAccount, Increment, Initialize, InitializeGlobal,
};
use example_project::program::{global_counter, personal_counter, process, Instruction};
use example_project::pubkey::Pubkey;
use example_project::state::{GlobalAccount, UserAccount};
use example_project::store::AccountStore;

fn key_of(byte: u8) -> Pubkey {
    Pubkey::new_from_array([byte; 32])
}

fn user_pda(user: &Pubkey) -> Pubkey {
    find_user_account_address(user).expect("a bump seed exists").0
}

fn global_pda() -> Pubkey {
    find_global_account_address().expect("a bump seed exists").0
}

fn admin() -> Pubkey {
    authority_key().expect("the authority constant decodes")
}

fn do_initialize(store: &mut AccountStore, user: Pubkey) -> Result<(), CustomError> {
    initialize(store, Initialize { user_account: user_pda(&user), user })
}

fn do_initialize_global(store: &mut AccountStore, user: Pubkey) -> Result<(), CustomError> {
    initialize_global(store, InitializeGlobal { global_account: global_pda(), user })
}

fn do_increment(store: &mut AccountStore, user: Pubkey) -> Result<(), CustomError> {
    increment(
        store,
        Increment { user_account: user_pda(&user), global_account: global_pda(), user },
    )
}

fn do_close(store: &mut AccountStore, user: Pubkey) -> Result<(), CustomError> {
    close(store, CloseAccount { user_account: user_pda(&user), user })
}

#[test]
fn two_users_and_the_shared_counter() {
    let mut store = AccountStore::new();
    let u1 = key_of(1);
    let u2 = key_of(2);

    assert_eq!(do_initialize_global(&mut store, admin()), Ok(()));
    assert_eq!(global_counter(&store), Some(0));

    assert_eq!(do_initialize(&mut store, u1), Ok(()));
    assert_eq!(personal_counter(&store, &u1), Some(0));

    for _ in 0..3 {
        assert_eq!(do_increment(&mut store, u1), Ok(()));
    }
    assert_eq!(personal_counter(&store, &u1), Some(3));
    assert_eq!(global_counter(&store), Some(3));

    assert_eq!(do_initialize(&mut store, u2), Ok(()));
    assert_eq!(do_increment(&mut store, u2), Ok(()));
    assert_eq!(personal_counter(&store, &u2), Some(1));
    assert_eq!(global_counter(&store), Some(4));

    assert_eq!(do_close(&mut store, u2), Ok(()));
    assert_eq!(do_increment(&mut store, u2), Err(CustomError::NotFound));
    assert_eq!(global_counter(&store), Some(4));
    assert_eq!(personal_counter(&store, &u2), None);
    assert_eq!(personal_counter(&store, &u1), Some(3));
}

#[test]
fn initialize_starts_at_zero_and_refuses_a_second_time() {
    let mut store = AccountStore::new();
    let user = key_of(7);
    assert_eq!(personal_counter(&store, &user), None);
    assert_eq!(do_initialize(&mut store, user), Ok(()));
    assert_eq!(personal_counter(&store, &user), Some(0));
    assert_eq!(store.len(), 1);
    let stored = store.get(&user_pda(&user)).cloned();

    assert_eq!(do_initialize(&mut store, user), Err(CustomError::AlreadyInitialized));
    assert_eq!(store.len(), 1);
    assert_eq!(store.get(&user_pda(&user)).cloned(), stored);
    assert_eq!(personal_counter(&store, &user), Some(0));
}

#[test]
fn second_initialize_keeps_the_count() {
    let mut store = AccountStore::new();
    let user = key_of(7);
    assert_eq!(do_initialize_global(&mut store, admin()), Ok(()));
    assert_eq!(do_initialize(&mut store, user), Ok(()));
    assert_eq!(do_increment(&mut store, user), Ok(()));
    assert_eq!(do_initialize(&mut store, user), Err(CustomError::AlreadyInitialized));
    assert_eq!(personal_counter(&store, &user), Some(1));
    assert_eq!(global_counter(&store), Some(1));
}

#[test]
fn initialize_refuses_an_account_that_is_not_the_callers() {
    let mut store = AccountStore::new();
    let user = key_of(7);
    let other = key_of(8);
    let ctx = Initialize { user_account: user_pda(&other), user };
    assert_eq!(initialize(&mut store, ctx), Err(CustomError::NotFound));
    assert_eq!(store.len(), 0);
}

#[test]
fn only_the_authority_creates_the_shared_counter() {
    let mut store = AccountStore::new();
    let stranger = key_of(9);
    assert_eq!(do_initialize_global(&mut store, stranger), Err(CustomError::UnauthorizedCaller));
    assert_eq!(global_counter(&store), None);
    assert!(!store.contains(&global_pda()));
    assert_eq!(store.len(), 0);

    assert_eq!(do_initialize_global(&mut store, admin()), Ok(()));
    assert_eq!(global_counter(&store), Some(0));
}

#[test]
fn shared_counter_is_created_once() {
    let mut store = AccountStore::new();
    assert_eq!(do_initialize_global(&mut store, admin()), Ok(()));
    assert_eq!(do_initialize(&mut store, key_of(1)), Ok(()));
    assert_eq!(do_increment(&mut store, key_of(1)), Ok(()));
    assert_eq!(do_initialize_global(&mut store, admin()), Err(CustomError::AlreadyInitialized));
    // An occupied address is answered before the caller is looked at.
    assert_eq!(
        do_initialize_global(&mut store, key_of(9)),
        Err(CustomError::AlreadyInitialized)
    );
    assert_eq!(global_counter(&store), Some(1));
}

#[test]
fn initialize_global_refuses_another_address() {
    let mut store = AccountStore::new();
    let ctx = InitializeGlobal { global_account: key_of(3), user: admin() };
    assert_eq!(initialize_global(&mut store, ctx), Err(CustomError::NotFound));
    assert_eq!(store.len(), 0);
}

#[test]
fn increment_raises_both_by_one() {
    let mut store = AccountStore::new();
    let user = key_of(4);
    assert_eq!(do_initialize_global(&mut store, admin()), Ok(()));
    assert_eq!(do_initialize(&mut store, user), Ok(()));
    assert_eq!(do_increment(&mut store, user), Ok(()));
    assert_eq!(personal_counter(&store, &user), Some(1));
    assert_eq!(global_counter(&store), Some(1));
    assert_eq!(store.len(), 2);
}

#[test]
fn increment_needs_both_records() {
    let user = key_of(4);

    let mut store = AccountStore::new();
    assert_eq!(do_increment(&mut store, user), Err(CustomError::NotFound));

    assert_eq!(do_initialize(&mut store, user), Ok(()));
    assert_eq!(do_increment(&mut store, user), Err(CustomError::NotFound));
    assert_eq!(personal_counter(&store, &user), Some(0));

    let mut store = AccountStore::new();
    assert_eq!(do_initialize_global(&mut store, admin()), Ok(()));
    assert_eq!(do_increment(&mut store, user), Err(CustomError::NotFound));
    assert_eq!(global_counter(&store), Some(0));
}

#[test]
fn increment_reaches_only_the_callers_counter() {
    let mut store = AccountStore::new();
    let owner = key_of(5);
    let intruder = key_of(6);
    assert_eq!(do_initialize_global(&mut store, admin()), Ok(()));
    assert_eq!(do_initialize(&mut store, owner), Ok(()));
    assert_eq!(do_initialize(&mut store, intruder), Ok(()));

    let ctx = Increment {
        user_account: user_pda(&owner),
        global_account: global_pda(),
        user: intruder,
    };
    assert_eq!(increment(&mut store, ctx), Err(CustomError::NotFound));
    assert_eq!(personal_counter(&store, &owner), Some(0));
    assert_eq!(personal_counter(&store, &intruder), Some(0));
    assert_eq!(global_counter(&store), Some(0));

    let ctx = Increment {
        user_account: user_pda(&intruder),
        global_account: user_pda(&owner),
        user: intruder,
    };
    assert_eq!(increment(&mut store, ctx), Err(CustomError::NotFound));
    assert_eq!(global_counter(&store), Some(0));
}

#[test]
fn increment_stops_at_the_largest_personal_value() {
    let mut store = AccountStore::new();
    let user = key_of(4);
    assert_eq!(do_initialize_global(&mut store, admin()), Ok(()));
    store.insert(user_pda(&user), UserAccount { personal_counter: u64::MAX }.to_bytes());
    assert_eq!(do_increment(&mut store, user), Err(CustomError::ArithmeticOverflow));
    assert_eq!(personal_counter(&store, &user), Some(u64::MAX));
    assert_eq!(global_counter(&store), Some(0));
}

#[test]
fn increment_stops_at_the_largest_shared_value() {
    let mut store = AccountStore::new();
    let user = key_of(4);
    store.insert(global_pda(), GlobalAccount { global_counter: u64::MAX }.to_bytes());
    assert_eq!(do_initialize(&mut store, user), Ok(()));
    assert_eq!(do_increment(&mut store, user), Err(CustomError::ArithmeticOverflow));
    assert_eq!(personal_counter(&store, &user), Some(0));
    assert_eq!(global_counter(&store), Some(u64::MAX));
}

#[test]
fn increment_reaches_the_largest_value() {
    let mut store = AccountStore::new();
    let user = key_of(4);
    store.insert(global_pda(), GlobalAccount { global_counter: 41 }.to_bytes());
    store.insert(user_pda(&user), UserAccount { personal_counter: u64::MAX - 1 }.to_bytes());
    assert_eq!(do_increment(&mut store, user), Ok(()));
    assert_eq!(personal_counter(&store, &user), Some(u64::MAX));
    assert_eq!(global_counter(&store), Some(42));
}

#[test]
fn close_then_increment_then_initialize_again() {
    let mut store = AccountStore::new();
    let user = key_of(4);
    assert_eq!(do_initialize_global(&mut store, admin()), Ok(()));
    assert_eq!(do_initialize(&mut store, user), Ok(()));
    assert_eq!(do_increment(&mut store, user), Ok(()));
    assert_eq!(do_increment(&mut store, user), Ok(()));

    assert_eq!(do_close(&mut store, user), Ok(()));
    assert_eq!(personal_counter(&store, &user), None);
    assert!(!store.contains(&user_pda(&user)));
    assert_eq!(do_increment(&mut store, user), Err(CustomError::NotFound));
    assert_eq!(global_counter(&store), Some(2));

    assert_eq!(do_initialize(&mut store, user), Ok(()));
    assert_eq!(personal_counter(&store, &user), Some(0));
    assert_eq!(do_increment(&mut store, user), Ok(()));
    assert_eq!(personal_counter(&store, &user), Some(1));
    assert_eq!(global_counter(&store), Some(3));
}

#[test]
fn close_needs_the_callers_own_record() {
    let mut store = AccountStore::new();
    let owner = key_of(5);
    let intruder = key_of(6);
    assert_eq!(do_close(&mut store, owner), Err(CustomError::NotFound));

    assert_eq!(do_initialize(&mut store, owner), Ok(()));
    let ctx = CloseAccount { user_account: user_pda(&owner), user: intruder };
    assert_eq!(close(&mut store, ctx), Err(CustomError::NotFound));
    assert_eq!(personal_counter(&store, &owner), Some(0));

    assert_eq!(do_close(&mut store, owner), Ok(()));
    assert_eq!(do_close(&mut store, owner), Err(CustomError::NotFound));
    assert_eq!(store.len(), 0);
}

#[test]
fn close_refuses_a_record_of_the_other_kind() {
    let mut store = AccountStore::new();
    let user = key_of(5);
    store.insert(user_pda(&user), GlobalAccount { global_counter: 3 }.to_bytes());
    assert_eq!(do_close(&mut store, user), Err(CustomError::NotFound));
    assert_eq!(do_initialize(&mut store, user), Err(CustomError::AlreadyInitialized));
    assert_eq!(personal_counter(&store, &user), None);
    assert_eq!(store.len(), 1);
}

#[test]
fn callers_do_not_touch_each_other() {
    let mut store = AccountStore::new();
    let u1 = key_of(1);
    let u2 = key_of(2);
    assert_eq!(do_initialize_global(&mut store, admin()), Ok(()));
    assert_eq!(do_initialize(&mut store, u1), Ok(()));
    assert_eq!(do_initialize(&mut store, u2), Ok(()));
    assert_eq!(do_increment(&mut store, u1), Ok(()));
    assert_eq!(do_increment(&mut store, u1), Ok(()));
    assert_eq!(do_increment(&mut store, u2), Ok(()));
    assert_eq!(personal_counter(&store, &u1), Some(2));
    assert_eq!(personal_counter(&store, &u2), Some(1));
    assert_eq!(global_counter(&store), Some(3));
    assert_eq!(do_close(&mut store, u1), Ok(()));
    assert_eq!(personal_counter(&store, &u2), Some(1));
    assert_eq!(global_counter(&store), Some(3));
}

#[test]
fn shared_counter_counts_accepted_increments() {
    let mut store = AccountStore::new();
    let u1 = key_of(1);
    let u2 = key_of(2);
    let history = vec![
        Instruction::Increment(Increment {
            user_account: user_pda(&u1),
            global_account: global_pda(),
            user: u1,
        }),
        Instruction::Initialize(Initialize { user_account: user_pda(&u1), user: u1 }),
        Instruction::InitializeGlobal(InitializeGlobal {
            global_account: global_pda(),
            user: admin(),
        }),
        Instruction::Increment(Increment {
            user_account: user_pda(&u1),
            global_account: global_pda(),
            user: u1,
        }),
        Instruction::Increment(Increment {
            user_account: user_pda(&u2),
            global_account: global_pda(),
            user: u2,
        }),
        Instruction::Initialize(Initialize { user_account: user_pda(&u2), user: u2 }),
        Instruction::Increment(Increment {
            user_account: user_pda(&u2),
            global_account: global_pda(),
            user: u2,
        }),
        Instruction::Close(CloseAccount { user_account: user_pda(&u1), user: u1 }),
        Instruction::Increment(Increment {
            user_account: user_pda(&u1),
            global_account: global_pda(),
            user: u1,
        }),
    ];
    let mut accepted: u64 = 0;
    let mut answers = Vec::new();
    for instruction in history {
        let answer = process(&mut store, instruction);
        if answer.is_ok() && matches!(instruction, Instruction::Increment(_)) {
            accepted += 1;
        }
        answers.push(answer);
    }
    assert_eq!(
        answers,
        vec![
            Err(CustomError::NotFound),
            Ok(()),
            Ok(()),
            Ok(()),
            Err(CustomError::NotFound),
            Ok(()),
            Ok(()),
            Ok(()),
            Err(CustomError::NotFound),
        ]
    );
    assert_eq!(accepted, 2);
    assert_eq!(global_counter(&store), Some(accepted));
    assert_eq!(personal_counter(&store, &u2), Some(1));
    assert_eq!(personal_counter(&store, &u1), None);
}

#[test]
fn handlers_that_take_the_derived_address() {
    let mut store = AccountStore::new();
    let user = key_of(1);
    let account = key_of(20);
    let shared = key_of(30);

    let ctx = Initialize { user_account: account, user };
    assert_eq!(initialize_with(&mut store, ctx, None), Err(CustomError::NotFound));
    assert_eq!(initialize_with(&mut store, ctx, Some(key_of(21))), Err(CustomError::NotFound));
    assert_eq!(initialize_with(&mut store, ctx, Some(account)), Ok(()));
    assert_eq!(
        initialize_with(&mut store, ctx, Some(account)),
        Err(CustomError::AlreadyInitialized)
    );
    assert_eq!(read_user_account(&store, &account), Some(UserAccount { personal_counter: 0 }));

    let ctx = InitializeGlobal { global_account: shared, user };
    assert_eq!(
        initialize_global_with(&mut store, ctx, None, Some(user)),
        Err(CustomError::NotFound)
    );
    assert_eq!(
        initialize_global_with(&mut store, ctx, Some(shared), None),
        Err(CustomError::UnauthorizedCaller)
    );
    assert_eq!(
        initialize_global_with(&mut store, ctx, Some(shared), Some(key_of(2))),
        Err(CustomError::UnauthorizedCaller)
    );
    assert_eq!(initialize_global_with(&mut store, ctx, Some(shared), Some(user)), Ok(()));
    assert_eq!(read_global_account(&store, &shared), Some(GlobalAccount { global_counter: 0 }));

    let ctx = Increment { user_account: account, global_account: shared, user };
    assert_eq!(increment_with(&mut store, ctx, Some(account), None), Err(CustomError::NotFound));
    assert_eq!(increment_with(&mut store, ctx, None, Some(shared)), Err(CustomError::NotFound));
    assert_eq!(increment_with(&mut store, ctx, Some(account), Some(shared)), Ok(()));
    assert_eq!(read_user_account(&store, &account), Some(UserAccount { personal_counter: 1 }));
    assert_eq!(read_global_account(&store, &shared), Some(GlobalAccount { global_counter: 1 }));

    let ctx = CloseAccount { user_account: account, user };
    assert_eq!(close_with(&mut store, ctx, None), Err(CustomError::NotFound));
    assert_eq!(close_with(&mut store, ctx, Some(account)), Ok(()));
    assert_eq!(read_user_account(&store, &account), None);
    assert_eq!(close_with(&mut store, ctx, Some(account)), Err(CustomError::NotFound));
    assert_eq!(read_global_account(&store, &shared), Some(GlobalAccount { global_counter: 1 }));
}

#[test]
fn one_address_for_both_kinds_is_refused() {
    let mut store = AccountStore::new();
    let user = key_of(1);
    let address = key_of(20);
    let ctx = Initialize { user_account: address, user };
    assert_eq!(initialize_with(&mut store, ctx, Some(address)), Ok(()));
    let ctx = Increment { user_account: address, global_account: address, user };
    assert_eq!(
        increment_with(&mut store, ctx, Some(address), Some(address)),
        Err(CustomError::NotFound)
    );
    assert_eq!(read_user_account(&store, &address), Some(UserAccount { personal_counter: 0 }));
    assert_eq!(read_global_account(&store, &address), None);
}

#[test]
fn authority_gate() {
    let allowed = key_of(1);
    assert_eq!(check_authority(&allowed, &Some(allowed)), Ok(()));
    assert_eq!(check_authority(&key_of(2), &Some(allowed)), Err(CustomError::UnauthorizedCaller));
    assert_eq!(check_authority(&allowed, &None), Err(CustomError::UnauthorizedCaller));
    let mut almost = [1u8; 32];
    almost[31] = 0;
    assert_eq!(
        check_authority(&Pubkey::new_from_array(almost), &Some(allowed)),
        Err(CustomError::UnauthorizedCaller)
    );
}

#[test]
fn both_counters_or_neither() {
    let mut personal = UserAccount { personal_counter: 5 };
    let mut global = GlobalAccount { global_counter: 9 };
    assert_eq!(increment_both(&mut personal, &mut global), Ok(()));
    assert_eq!(personal, UserAccount { personal_counter: 6 });
    assert_eq!(global, GlobalAccount { global_counter: 10 });

    let mut personal = UserAccount { personal_counter: u64::MAX };
    let mut global = GlobalAccount { global_counter: 9 };
    assert_eq!(increment_both(&mut personal, &mut global), Err(CustomError::ArithmeticOverflow));
    assert_eq!(personal.personal_counter, u64::MAX);
    assert_eq!(global.global_counter, 9);

    let mut personal = UserAccount { personal_counter: 5 };
    let mut global = GlobalAccount { global_counter: u64::MAX };
    assert_eq!(increment_both(&mut personal, &mut global), Err(CustomError::ArithmeticOverflow));
    assert_eq!(personal.personal_counter, 5);
    assert_eq!(global.global_counter, u64::MAX);
}

#[test]
fn error_messages() {
    assert_eq!(CustomError::UnauthorizedCaller.message(), "Caller is not authorized.");
    assert_eq!(CustomError::AlreadyInitialized.message(), "Account is already initialized.");
    assert_eq!(CustomError::NotFound.message(), "Account was not found.");
    assert_eq!(CustomError::ArithmeticOverflow.message(), "Counter is at its maximum.");
}
