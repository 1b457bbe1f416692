use vault_storage::crypto::Encryption;
use vault_storage::db::{
    DeleteStep, LockerKey, LockerStep, LockerTask, MerchantKeyRequest, MerchantStep, MerchantTask,
    DEK_LENGTH,
};
use vault_storage::error::{QueryError, StorageError};
use vault_storage::types::{
    Locker, LockerInner, LockerNew, LockerNewInner, MerchantInner, MerchantNewInner,
};

/// A toy cipher: a marker byte, then the input xor-ed with the key.
/// With `refuse` set, it fails to encrypt.
struct ToyCipher {
    key: u8,
    refuse: bool,
}

#[derive(Debug)]
struct CipherError;

const MARKER: u8 = 0x5C;

impl Encryption for ToyCipher {
    type Error = CipherError;

    fn encrypt(&self, input: Vec<u8>) -> Result<Vec<u8>, CipherError> {
        if self.refuse {
            return Err(CipherError);
        }
        let mut out = vec![MARKER ^ self.key];
        out.extend(input.iter().map(|b| b ^ self.key));
        Ok(out)
    }

    fn decrypt(&self, input: Vec<u8>) -> Result<Vec<u8>, CipherError> {
        match input.split_first() {
            Some((first, rest)) if first ^ self.key == MARKER => {
                Ok(rest.iter().map(|b| b ^ self.key).collect())
            }
            _ => Err(CipherError),
        }
    }
}

fn cipher() -> ToyCipher {
    ToyCipher { key: 0x21, refuse: false }
}

fn moment() -> time::PrimitiveDateTime {
    time::PrimitiveDateTime::new(
        time::Date::from_calendar_date(2023, time::Month::December, 31).unwrap(),
        time::Time::from_hms(23, 59, 59).unwrap(),
    )
}

/// The database's copy of an inserted merchant row.
fn stored_merchant(row: MerchantNewInner, id: i32) -> MerchantInner {
    MerchantInner {
        id,
        tenant_id: row.tenant_id,
        merchant_id: row.merchant_id,
        enc_key: row.enc_key,
        created_at: moment(),
    }
}

/// The database's copy of an inserted locker row.
fn stored_locker(row: LockerNewInner, id: i32) -> LockerInner {
    LockerInner {
        id,
        locker_id: row.locker_id,
        tenant_id: row.tenant_id,
        merchant_id: row.merchant_id,
        customer_id: row.customer_id,
        enc_data: row.enc_data,
        created_at: moment(),
    }
}

fn sealed_merchant(merchant_id: &str, key: Vec<u8>) -> MerchantInner {
    let algo = cipher();
    let row = vault_storage::types::MerchantNew {
        tenant_id: "tenant".to_string(),
        merchant_id: merchant_id.to_string(),
        enc_key: key,
    }
    .encrypt(&algo)
    .unwrap();
    stored_merchant(row, 1)
}

/// A fresh AES-256 key, as the key generator draws one.
fn fresh_key() -> Vec<u8> {
    (0..DEK_LENGTH as u8).collect()
}

fn new_locker() -> LockerNew {
    LockerNew {
        locker_id: "locker".to_string(),
        tenant_id: "tenant".to_string(),
        merchant_id: "merchant".to_string(),
        customer_id: "customer".to_string(),
        enc_data: vec![4, 2, 4, 2],
    }
}

#[test]
fn find_merchant_unseals_the_row_found() {
    let algo = cipher();
    let step = MerchantStep::find_by_merchant_id("m1".to_string(), "tenant".to_string());
    let lookup = match step {
        MerchantStep::Connect(MerchantTask::Find(l)) => l,
        _ => panic!("expected a connection for a lookup"),
    };
    assert!(!lookup.create_if_missing);
    let step = MerchantTask::Find(lookup).connected(true, &algo);
    let lookup = match step {
        MerchantStep::Select(l) => l,
        _ => panic!("expected a select"),
    };
    assert_eq!(lookup.merchant_id, "m1");
    assert_eq!(lookup.tenant_id, "tenant");
    match lookup.found(Ok(sealed_merchant("m1", vec![9, 9, 9])), &algo) {
        MerchantStep::Done(Ok(m)) => {
            assert_eq!(m.merchant_id, "m1");
            assert_eq!(m.tenant_id, "tenant");
            assert_eq!(m.enc_key, vec![9, 9, 9]);
            assert_eq!(m.created_at, moment());
        }
        _ => panic!("expected the merchant"),
    }
}

#[test]
fn merchant_operation_without_connection_fails_with_pool_client_failure() {
    let algo = cipher();
    let step = MerchantStep::find_or_create_by_merchant_id("m".to_string(), "t".to_string());
    match step {
        MerchantStep::Connect(task) => match task.connected(false, &algo) {
            MerchantStep::Done(Err(e)) => assert_eq!(e, StorageError::PoolClientFailure),
            _ => panic!("expected a pool failure"),
        },
        _ => panic!("expected a connection"),
    }
}

#[test]
fn find_missing_merchant_fails_with_find_error() {
    let algo = cipher();
    let step = MerchantStep::find_by_merchant_id("m".to_string(), "t".to_string());
    let lookup = match step {
        MerchantStep::Connect(task) => match task.connected(true, &algo) {
            MerchantStep::Select(l) => l,
            _ => panic!("expected a select"),
        },
        _ => panic!("expected a connection"),
    };
    match lookup.found(Err(QueryError::NotFound), &algo) {
        MerchantStep::Done(Err(e)) => assert_eq!(e, StorageError::FindError),
        _ => panic!("expected FindError"),
    }
}

#[test]
fn find_or_create_creates_a_missing_merchant_with_a_fresh_key() {
    let algo = cipher();
    let mut step = MerchantStep::find_or_create_by_merchant_id("m2".to_string(), "t2".to_string());
    let mut actions = 0;
    let mut inserted_rows = 0;
    let merchant = loop {
        actions += 1;
        step = match step {
            MerchantStep::Connect(task) => task.connected(true, &algo),
            MerchantStep::Select(lookup) => {
                assert!(lookup.create_if_missing);
                lookup.found(Err(QueryError::NotFound), &algo)
            }
            MerchantStep::GenerateKey(request) => {
                assert_eq!(request.merchant_id, "m2");
                assert_eq!(request.tenant_id, "t2");
                request.with_key(fresh_key())
            }
            MerchantStep::Insert(row) => {
                inserted_rows += 1;
                assert_eq!(row.merchant_id, "m2");
                assert_ne!(row.enc_key.get_inner(), &fresh_key());
                MerchantStep::inserted(Ok(stored_merchant(row, 8)), &algo)
            }
            MerchantStep::Done(result) => break result.unwrap(),
        };
    };
    assert_eq!(inserted_rows, 1);
    assert_eq!(actions, 6);
    assert_eq!(merchant.merchant_id, "m2");
    assert_eq!(merchant.tenant_id, "t2");
    assert_eq!(merchant.enc_key, fresh_key());
    assert_eq!(merchant.enc_key.len(), DEK_LENGTH);
}

#[test]
fn find_or_create_returns_an_existing_merchant_without_creating() {
    let algo = cipher();
    let mut step = MerchantStep::find_or_create_by_merchant_id("m".to_string(), "tenant".to_string());
    let merchant = loop {
        step = match step {
            MerchantStep::Connect(task) => task.connected(true, &algo),
            MerchantStep::Select(lookup) => lookup.found(Ok(sealed_merchant("m", vec![3])), &algo),
            MerchantStep::GenerateKey(_) => panic!("an existing merchant gets no new key"),
            MerchantStep::Insert(_) => panic!("an existing merchant is not inserted"),
            MerchantStep::Done(result) => break result.unwrap(),
        };
    };
    assert_eq!(merchant.enc_key, vec![3]);
}

#[test]
fn find_or_create_reports_other_query_failures() {
    let algo = cipher();
    let lookup = match MerchantStep::find_or_create_by_merchant_id("m".to_string(), "t".to_string()) {
        MerchantStep::Connect(task) => match task.connected(true, &algo) {
            MerchantStep::Select(l) => l,
            _ => panic!("expected a select"),
        },
        _ => panic!("expected a connection"),
    };
    match lookup.found(Err(QueryError::Other), &algo) {
        MerchantStep::Done(Err(e)) => assert_eq!(e, StorageError::FindError),
        _ => panic!("expected FindError"),
    }
}

#[test]
fn merchant_row_that_does_not_unseal_gives_decryption_error() {
    let algo = ToyCipher { key: 0x77, refuse: false };
    let lookup = match MerchantStep::find_by_merchant_id("m".to_string(), "tenant".to_string()) {
        MerchantStep::Connect(task) => match task.connected(true, &algo) {
            MerchantStep::Select(l) => l,
            _ => panic!("expected a select"),
        },
        _ => panic!("expected a connection"),
    };
    match lookup.found(Ok(sealed_merchant("m", vec![1])), &algo) {
        MerchantStep::Done(Err(e)) => assert_eq!(e, StorageError::DecryptionError),
        _ => panic!("expected DecryptionError"),
    }
}

#[test]
fn insert_merchant_whose_key_cannot_be_sealed_gives_find_error() {
    let algo = ToyCipher { key: 1, refuse: true };
    let new = vault_storage::types::MerchantNew {
        tenant_id: "t".to_string(),
        merchant_id: "m".to_string(),
        enc_key: vec![1],
    };
    match MerchantStep::insert_merchant(new) {
        MerchantStep::Connect(task) => match task.connected(true, &algo) {
            MerchantStep::Done(Err(e)) => assert_eq!(e, StorageError::FindError),
            _ => panic!("expected FindError"),
        },
        _ => panic!("expected a connection"),
    }
}

#[test]
fn failed_merchant_insert_gives_find_error() {
    let algo = cipher();
    match MerchantStep::inserted(Err(QueryError::UniqueViolation), &algo) {
        MerchantStep::Done(Err(e)) => assert_eq!(e, StorageError::FindError),
        _ => panic!("expected FindError"),
    }
}

#[test]
fn insert_or_get_stores_and_returns_a_new_locker() {
    let algo = cipher();
    let mut step = LockerStep::insert_or_get_from_locker(new_locker());
    let locker = loop {
        step = match step {
            LockerStep::Connect(task) => task.connected(true, &algo),
            LockerStep::Insert(insert) => {
                assert_eq!(insert.fallback.locker_id, "locker");
                assert_ne!(insert.row.enc_data.get_inner(), &vec![4, 2, 4, 2]);
                insert.fallback.inserted(Ok(stored_locker(insert.row, 5)), &algo)
            }
            LockerStep::Select(_) => panic!("a fresh locker is not looked up"),
            LockerStep::Done(result) => break result.unwrap(),
        };
    };
    assert_eq!(locker.locker_id, "locker");
    assert_eq!(locker.tenant_id, "tenant");
    assert_eq!(locker.merchant_id, "merchant");
    assert_eq!(locker.customer_id, "customer");
    assert_eq!(locker.enc_data, vec![4, 2, 4, 2]);
}

#[test]
fn insert_or_get_fetches_the_stored_locker_on_unique_violation() {
    let algo = cipher();
    let mut step = LockerStep::insert_or_get_from_locker(new_locker());
    let mut earlier: Option<LockerInner> = None;
    let mut selects = 0;
    let mut connections = 0;
    let locker = loop {
        step = match step {
            LockerStep::Connect(task) => {
                connections += 1;
                task.connected(true, &algo)
            }
            LockerStep::Insert(insert) => {
                let mut first = new_locker();
                first.enc_data = vec![1, 1];
                let row = first.encrypt(&algo).unwrap();
                earlier = Some(stored_locker(row, 2));
                insert.fallback.inserted(Err(QueryError::UniqueViolation), &algo)
            }
            LockerStep::Select(key) => {
                selects += 1;
                assert_eq!(key.locker_id, "locker");
                assert_eq!(key.tenant_id, "tenant");
                assert_eq!(key.merchant_id, "merchant");
                assert_eq!(key.customer_id, "customer");
                LockerStep::selected(Ok(earlier.take().unwrap()), &algo)
            }
            LockerStep::Done(result) => break result.unwrap(),
        };
    };
    assert_eq!(selects, 1);
    assert_eq!(connections, 2);
    assert_eq!(locker.enc_data, vec![1, 1]);
}

#[test]
fn insert_or_get_reports_other_insert_failures() {
    let algo = cipher();
    let key = LockerKey {
        locker_id: "l".to_string(),
        tenant_id: "t".to_string(),
        merchant_id: "m".to_string(),
        customer_id: "c".to_string(),
    };
    match key.inserted(Err(QueryError::Other), &algo) {
        LockerStep::Done(Err(e)) => assert_eq!(e, StorageError::FindError),
        _ => panic!("expected FindError"),
    }
}

#[test]
fn locker_that_cannot_be_sealed_gives_encryption_error() {
    let algo = ToyCipher { key: 3, refuse: true };
    match LockerStep::insert_or_get_from_locker(new_locker()) {
        LockerStep::Connect(task) => match task.connected(true, &algo) {
            LockerStep::Done(Err(e)) => assert_eq!(e, StorageError::EncryptionError),
            _ => panic!("expected EncryptionError"),
        },
        _ => panic!("expected a connection"),
    }
}

#[test]
fn locker_operation_without_connection_fails_with_pool_client_failure() {
    let algo = cipher();
    let task = LockerTask::Insert(new_locker());
    match task.connected(false, &algo) {
        LockerStep::Done(Err(e)) => assert_eq!(e, StorageError::PoolClientFailure),
        _ => panic!("expected a pool failure"),
    }
}

#[test]
fn find_locker_selects_by_all_four_identifiers() {
    let algo = cipher();
    let step = LockerStep::find_by_locker_id_merchant_id_customer_id(
        "l".to_string(),
        "t".to_string(),
        "m".to_string(),
        "c".to_string(),
    );
    match step {
        LockerStep::Connect(task) => match task.connected(true, &algo) {
            LockerStep::Select(key) => {
                assert_eq!(key.locker_id, "l");
                assert_eq!(key.tenant_id, "t");
                assert_eq!(key.merchant_id, "m");
                assert_eq!(key.customer_id, "c");
            }
            _ => panic!("expected a select"),
        },
        _ => panic!("expected a connection"),
    }
}

#[test]
fn missing_locker_gives_find_error() {
    let algo = cipher();
    match LockerStep::selected(Err(QueryError::NotFound), &algo) {
        LockerStep::Done(Err(e)) => assert_eq!(e, StorageError::FindError),
        _ => panic!("expected FindError"),
    }
}

#[test]
fn locker_under_another_key_gives_decryption_error() {
    let row = new_locker().encrypt(&cipher()).unwrap();
    let other = ToyCipher { key: 0x10, refuse: false };
    match LockerStep::selected(Ok(stored_locker(row, 1)), &other) {
        LockerStep::Done(Err(e)) => assert_eq!(e, StorageError::DecryptionError),
        _ => panic!("expected DecryptionError"),
    }
}

#[test]
fn delete_reports_the_number_of_rows_deleted() {
    let step = DeleteStep::delete_from_locker(
        "l".to_string(),
        "t".to_string(),
        "m".to_string(),
        "c".to_string(),
    );
    let key = match step {
        DeleteStep::Connect(key) => key,
        _ => panic!("expected a connection"),
    };
    match key.connected_for_delete(true) {
        DeleteStep::Delete(key) => assert_eq!(key.customer_id, "c"),
        _ => panic!("expected a delete"),
    }
    match DeleteStep::deleted(Ok(1)) {
        DeleteStep::Done(Ok(n)) => assert_eq!(n, 1),
        _ => panic!("expected a count"),
    }
    match DeleteStep::deleted(Ok(0)) {
        DeleteStep::Done(Ok(n)) => assert_eq!(n, 0),
        _ => panic!("expected a count"),
    }
}

#[test]
fn delete_failures_are_reported() {
    match DeleteStep::deleted(Err(QueryError::Other)) {
        DeleteStep::Done(Err(e)) => assert_eq!(e, StorageError::FindError),
        _ => panic!("expected FindError"),
    }
    let key = LockerKey {
        locker_id: "l".to_string(),
        tenant_id: "t".to_string(),
        merchant_id: "m".to_string(),
        customer_id: "c".to_string(),
    };
    match key.connected_for_delete(false) {
        DeleteStep::Done(Err(e)) => assert_eq!(e, StorageError::PoolClientFailure),
        _ => panic!("expected a pool failure"),
    }
}

#[test]
fn fresh_key_goes_to_the_insert_of_the_new_merchant() {
    let request = MerchantKeyRequest {
        merchant_id: "m".to_string(),
        tenant_id: "t".to_string(),
    };
    match request.with_key(vec![0xAB; DEK_LENGTH]) {
        MerchantStep::Connect(MerchantTask::Insert(new)) => {
            assert_eq!(new.merchant_id, "m");
            assert_eq!(new.tenant_id, "t");
            assert_eq!(new.enc_key, vec![0xAB; 32]);
        }
        _ => panic!("expected a connection for the insert"),
    }
}

/// Runs insert-or-get against a table holding at most `stored`, inserting
/// into it where it is empty.
fn run_insert_or_get(new: LockerNew, table: &mut Option<(LockerNewInner, i32)>) -> Locker {
    let algo = cipher();
    let mut step = LockerStep::insert_or_get_from_locker(new);
    loop {
        step = match step {
            LockerStep::Connect(task) => task.connected(true, &algo),
            LockerStep::Insert(insert) => match table {
                None => {
                    let stored = stored_locker(insert.row, 7);
                    let copy = LockerNewInner {
                        locker_id: stored.locker_id.clone(),
                        tenant_id: stored.tenant_id.clone(),
                        merchant_id: stored.merchant_id.clone(),
                        customer_id: stored.customer_id.clone(),
                        enc_data: vault_storage::types::Encrypted::new(
                            stored.enc_data.get_inner().clone(),
                        ),
                    };
                    *table = Some((copy, 7));
                    insert.fallback.inserted(Ok(stored), &algo)
                }
                Some(_) => insert.fallback.inserted(Err(QueryError::UniqueViolation), &algo),
            },
            LockerStep::Select(_) => {
                let (row, id) = table.as_ref().unwrap();
                let copy = LockerNewInner {
                    locker_id: row.locker_id.clone(),
                    tenant_id: row.tenant_id.clone(),
                    merchant_id: row.merchant_id.clone(),
                    customer_id: row.customer_id.clone(),
                    enc_data: vault_storage::types::Encrypted::new(row.enc_data.get_inner().clone()),
                };
                LockerStep::selected(Ok(stored_locker(copy, *id)), &algo)
            }
            LockerStep::Done(result) => return result.unwrap(),
        };
    }
}

#[test]
fn insert_or_get_repeated_gives_back_the_first_entry() {
    let mut table = None;
    let first = run_insert_or_get(new_locker(), &mut table);
    let mut again = new_locker();
    again.enc_data = vec![7, 7, 7];
    let second = run_insert_or_get(again, &mut table);
    assert_eq!(second.locker_id, first.locker_id);
    assert_eq!(second.tenant_id, first.tenant_id);
    assert_eq!(second.merchant_id, first.merchant_id);
    assert_eq!(second.customer_id, first.customer_id);
    assert_eq!(second.enc_data, first.enc_data);
    assert_eq!(second.enc_data, vec![4, 2, 4, 2]);
    assert_eq!(second.created_at, first.created_at);
}

#[test]
fn find_or_create_repeated_gives_back_the_first_key() {
    let algo = cipher();
    let mut table: Option<MerchantNewInner> = None;
    let mut results = Vec::new();
    for _ in 0..2 {
        let mut step =
            MerchantStep::find_or_create_by_merchant_id("m".to_string(), "tenant".to_string());
        let mut created = 0;
        let merchant = loop {
            step = match step {
                MerchantStep::Connect(task) => task.connected(true, &algo),
                MerchantStep::Select(lookup) => match &table {
                    None => lookup.found(Err(QueryError::NotFound), &algo),
                    Some(row) => {
                        let copy = MerchantNewInner {
                            tenant_id: row.tenant_id.clone(),
                            merchant_id: row.merchant_id.clone(),
                            enc_key: vault_storage::types::Encrypted::new(
                                row.enc_key.get_inner().clone(),
                            ),
                        };
                        lookup.found(Ok(stored_merchant(copy, 1)), &algo)
                    }
                },
                MerchantStep::GenerateKey(request) => request.with_key(fresh_key()),
                MerchantStep::Insert(row) => {
                    created += 1;
                    let copy = MerchantNewInner {
                        tenant_id: row.tenant_id.clone(),
                        merchant_id: row.merchant_id.clone(),
                        enc_key: vault_storage::types::Encrypted::new(
                            row.enc_key.get_inner().clone(),
                        ),
                    };
                    table = Some(copy);
                    MerchantStep::inserted(Ok(stored_merchant(row, 1)), &algo)
                }
                MerchantStep::Done(result) => break result.unwrap(),
            };
        };
        results.push((merchant, created));
    }
    assert_eq!(results[0].1, 1);
    assert_eq!(results[1].1, 0);
    assert_eq!(results[1].0.enc_key, results[0].0.enc_key);
    assert_eq!(results[1].0.created_at, results[0].0.created_at);
    assert_eq!(results[1].0.merchant_id, "m");
    assert_eq!(results[1].0.tenant_id, "tenant");
}
