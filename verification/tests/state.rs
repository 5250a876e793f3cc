use sc_execution_engine::{
    claim, create_pool, deposit, nominate_receiver, Address, TxAccountMeta, TxInstruction,
    VestPool, VestStatus,
};

fn key(n: u8) -> Address {
    Address::new([n; 32])
}

#[test]
fn stored_length_grows_by_one_address_for_each_signer() {
    assert_eq!(VestPool::get_len(0), 166);
    assert_eq!(VestPool::get_len(1), 198);
    assert_eq!(VestPool::get_len(3), 262);
    assert_eq!(VestPool::get_len(255), 8 + 154 + 4 + 32 * 255);
    assert_eq!(VestPool::get_len(255), 8326);
}

#[test]
fn find_signer_tells_registered_from_others() {
    let pool =
        create_pool(key(9), key(1), key(8), &vec![key(2), key(3)], 3, 10, 10, 1).unwrap();
    assert!(pool.find_signer(key(1)));
    assert!(pool.find_signer(key(2)));
    assert!(pool.find_signer(key(3)));
    assert!(!pool.find_signer(key(4)));
    assert!(!pool.find_signer(Address::default()));
    let mut near = [3u8; 32];
    near[31] = 4;
    assert!(!pool.find_signer(Address::new(near)));
}

#[test]
fn find_signer_on_a_pool_without_signers() {
    let pool = VestPool {
        base: key(9),
        sender: key(1),
        recipient: Address::default(),
        mint: key(8),
        amount: 1,
        locked_period: 1,
        deposit_time: 0,
        min_sign: 1,
        status: VestStatus::Created,
        signers: vec![],
    };
    assert!(!pool.find_signer(key(1)));
}

#[test]
fn addresses_are_equal_when_all_bytes_agree() {
    let a = Address::new([7; 32]);
    let b = Address::new([7; 32]);
    assert_eq!(a, b);
    assert_eq!(a.to_bytes(), [7u8; 32]);
    for i in 0..32 {
        let mut bytes = [7u8; 32];
        bytes[i] = 8;
        assert_ne!(a, Address::new(bytes));
        assert_eq!(Address::new(bytes).to_bytes(), bytes);
    }
}

#[test]
fn default_address_is_all_zero() {
    assert_eq!(Address::default().to_bytes(), [0u8; 32]);
    assert_eq!(Address::default(), Address::new([0; 32]));
}

#[test]
fn default_status_is_created() {
    assert_eq!(VestStatus::default(), VestStatus::Created);
}

#[test]
fn default_pool_is_the_empty_record() {
    let unset = Address::new([0; 32]);
    assert_eq!(
        VestPool::default(),
        VestPool {
            base: unset,
            sender: unset,
            recipient: unset,
            mint: unset,
            amount: 0,
            locked_period: 0,
            deposit_time: 0,
            min_sign: 0,
            status: VestStatus::Created,
            signers: vec![],
        }
    );
}

#[test]
fn default_descriptor_is_empty() {
    assert_eq!(
        TxInstruction::default(),
        TxInstruction { program_id: Address::new([0; 32]), keys: vec![], data: vec![] }
    );
}

#[test]
fn release_carries_the_custody_seeds() {
    let base_bytes: [u8; 32] = core::array::from_fn(|i| (i as u8) * 3 + 1);
    let base = Address::new(base_bytes);
    let mut pool = create_pool(base, key(1), key(8), &vec![], 1, 77, 10, 1).unwrap();
    let none: Vec<TxAccountMeta> = vec![];
    deposit(&mut pool, &key(1), &key(8), &none, 100).unwrap();
    nominate_receiver(&mut pool, &key(1), &none, key(4)).unwrap();
    let release = claim(&mut pool, &key(4), &base, &key(8), 110, 251).unwrap();
    assert_eq!(release.authority.base(), base);
    assert_eq!(release.authority.bump(), 251);
    assert_eq!(
        release.authority.signer_seeds(),
        vec![b"VestPool".to_vec(), base_bytes.to_vec(), vec![251u8]]
    );
    assert_eq!(release.transfer.amount, 77);
}
