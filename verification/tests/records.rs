use example_project::state::{GlobalAccount, UserAccount, ACCOUNT_SPACE, DISCRIMINATOR_LEN};

#[test]
fn record_sizes() {
    assert_eq!(DISCRIMINATOR_LEN, 8);
    assert_eq!(ACCOUNT_SPACE, 16);
}

#[test]
fn user_account_stored_form() {
    let account = UserAccount { personal_counter: 0x0102030405060708 };
    assert_eq!(
        account.to_bytes(),
        vec![211, 33, 136, 16, 186, 110, 242, 127, 8, 7, 6, 5, 4, 3, 2, 1]
    );
    assert_eq!(
        UserAccount::new().to_bytes(),
        vec![211, 33, 136, 16, 186, 110, 242, 127, 0, 0, 0, 0, 0, 0, 0, 0]
    );
    assert_eq!(UserAccount::discriminator(), [211, 33, 136, 16, 186, 110, 242, 127]);
}

#[test]
fn global_account_stored_form() {
    let account = GlobalAccount { global_counter: 3 };
    assert_eq!(
        account.to_bytes(),
        vec![129, 105, 124, 171, 189, 42, 108, 69, 3, 0, 0, 0, 0, 0, 0, 0]
    );
    assert_eq!(
        GlobalAccount { global_counter: u64::MAX }.to_bytes(),
        vec![129, 105, 124, 171, 189, 42, 108, 69, 255, 255, 255, 255, 255, 255, 255, 255]
    );
    assert_eq!(GlobalAccount::discriminator(), [129, 105, 124, 171, 189, 42, 108, 69]);
}

#[test]
fn stored_form_reads_back() {
    for counter in [0u64, 1, 255, 256, 0xdead_beef, u64::MAX - 1, u64::MAX] {
        let user = UserAccount { personal_counter: counter };
        assert_eq!(UserAccount::from_bytes(&user.to_bytes()), Some(user));
        let global = GlobalAccount { global_counter: counter };
        assert_eq!(GlobalAccount::from_bytes(&global.to_bytes()), Some(global));
    }
}

#[test]
fn reading_a_given_stored_form() {
    let data = [211, 33, 136, 16, 186, 110, 242, 127, 0, 1, 0, 0, 0, 0, 0, 0];
    assert_eq!(UserAccount::from_bytes(&data), Some(UserAccount { personal_counter: 256 }));
    let data = [129, 105, 124, 171, 189, 42, 108, 69, 0, 0, 0, 0, 0, 0, 0, 128];
    assert_eq!(GlobalAccount::from_bytes(&data), Some(GlobalAccount { global_counter: 1 << 63 }));
}

#[test]
fn kinds_are_told_apart() {
    let user = UserAccount { personal_counter: 5 }.to_bytes();
    let global = GlobalAccount { global_counter: 5 }.to_bytes();
    assert_eq!(GlobalAccount::from_bytes(&user), None);
    assert_eq!(UserAccount::from_bytes(&global), None);
}

#[test]
fn wrong_length_or_tag_is_no_record() {
    let good = UserAccount { personal_counter: 5 }.to_bytes();
    assert_eq!(UserAccount::from_bytes(&good[..15]), None);
    assert_eq!(UserAccount::from_bytes(&[]), None);
    let mut longer = good.clone();
    longer.push(0);
    assert_eq!(UserAccount::from_bytes(&longer), None);
    for i in 0..8 {
        let mut bad = good.clone();
        bad[i] ^= 1;
        assert_eq!(UserAccount::from_bytes(&bad), None);
    }
    assert_eq!(GlobalAccount::from_bytes(&[0u8; 16]), None);
}

#[test]
fn fresh_storage_reads_as_zero_without_its_tag() {
    assert_eq!(UserAccount::from_bytes(&[0u8; 16]), None);
    assert_eq!(
        UserAccount::from_bytes_unchecked(&[0u8; 16]),
        Some(UserAccount { personal_counter: 0 })
    );
    assert_eq!(
        GlobalAccount::from_bytes_unchecked(&[0u8; 16]),
        Some(GlobalAccount { global_counter: 0 })
    );
    let data = [9, 9, 9, 9, 9, 9, 9, 9, 7, 0, 0, 0, 0, 0, 0, 0];
    assert_eq!(
        UserAccount::from_bytes_unchecked(&data),
        Some(UserAccount { personal_counter: 7 })
    );
    assert_eq!(
        GlobalAccount::from_bytes_unchecked(&data),
        Some(GlobalAccount { global_counter: 7 })
    );
    assert_eq!(UserAccount::from_bytes_unchecked(&data[..15]), None);
    assert_eq!(GlobalAccount::from_bytes_unchecked(&[0u8; 17]), None);
}
