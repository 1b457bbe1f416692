//! The storage operations, as state machines.
//!
//! Each operation alternates database work with decisions. The decisions are
//! made here: a step names the next piece of work (take a connection, run a
//! select, an insert or a delete, draw a fresh key) or the operation's result.
//! The caller performs the work and hands its outcome back to the value that
//! the step carried, which returns the next step. Sealing and unsealing with
//! the key are done here, not by the caller.
//!
//! Every step has a `fuel` that each transition lowers, so every operation
//! ends in `Done` after a bounded number of steps.

use vstd::prelude::*;

use crate::crypto::{inverts, unseals_alike, Encryption};
use crate::types::{lemma_bytes_view, lemma_merchant_round_trip};
use crate::error::{QueryError, StorageError};
use crate::types::{
    Locker,
    LockerInner,
    LockerNew,
    LockerNewInner,
    Merchant,
    MerchantInner,
    MerchantNew,
    MerchantNewInner,
};

verus! {

// ---------------------------------------------------------------------------
// Merchants
// ---------------------------------------------------------------------------

/// A lookup of a merchant by its identifiers.
pub struct MerchantLookup {
    pub merchant_id: String,
    pub tenant_id: String,
    /// Whether a missing merchant is to be created with a fresh key.
    pub create_if_missing: bool,
}

/// The length in bytes of a merchant's data-encryption key (AES-256).
pub const DEK_LENGTH: usize = 32;

/// A request for a fresh data-encryption key, of `DEK_LENGTH` bytes, for a
/// merchant to be created.
pub struct MerchantKeyRequest {
    pub merchant_id: String,
    pub tenant_id: String,
}

/// What a connection is taken for.
pub enum MerchantTask {
    Find(MerchantLookup),
    Insert(MerchantNew),
}

/// The next step of a merchant operation.
pub enum MerchantStep {
    /// Take a connection from the pool; hand the outcome to `MerchantTask::connected`.
    Connect(MerchantTask),
    /// Select the merchant row with these identifiers; hand the outcome to
    /// `MerchantLookup::found`.
    Select(MerchantLookup),
    /// Draw a fresh data-encryption key of `DEK_LENGTH` bytes; hand it to
    /// `MerchantKeyRequest::with_key`.
    GenerateKey(MerchantKeyRequest),
    /// Insert this row and return it as stored; hand the outcome to `MerchantStep::inserted`.
    Insert(MerchantNewInner),
    /// The operation is over, with this result.
    Done(Result<Merchant, StorageError>),
}

impl MerchantStep {
    /// The step ends the operation with the error `e`.
    pub open spec fn fails_with(self, e: StorageError) -> bool {
        self == MerchantStep::Done(Err::<Merchant, StorageError>(e))
    }

    /// The step ends the operation with `row` unsealed by `algo`, or with
    /// `DecryptionError` where `algo` refused to unseal it.
    pub open spec fn reads<A: Encryption>(self, row: MerchantInner, algo: &A) -> bool {
        match self {
            MerchantStep::Done(Ok(m)) => row.unsealed_as(m, algo),
            MerchantStep::Done(Err(e)) => e == StorageError::DecryptionError && row.refused_by(algo),
            _ => false,
        }
    }

    /// An upper bound on the steps left before `Done`.
    pub open spec fn fuel(self) -> nat {
        match self {
            MerchantStep::Connect(MerchantTask::Find(_)) => 5,
            MerchantStep::Select(_) => 4,
            MerchantStep::GenerateKey(_) => 3,
            MerchantStep::Connect(MerchantTask::Insert(_)) => 2,
            MerchantStep::Insert(_) => 1,
            MerchantStep::Done(_) => 0,
        }
    }

    /// Find a merchant by its identifiers and unseal its key.
    pub fn find_by_merchant_id(merchant_id: String, tenant_id: String) -> (r: Self)
        ensures
            r == MerchantStep::Connect(
                MerchantTask::Find(MerchantLookup { merchant_id, tenant_id, create_if_missing: false }),
            ),
    {
        MerchantStep::Connect(
            MerchantTask::Find(MerchantLookup { merchant_id, tenant_id, create_if_missing: false }),
        )
    }

    /// Find a merchant by its identifiers and unseal its key; where there is no
    /// such merchant, create it with a fresh key.
    pub fn find_or_create_by_merchant_id(merchant_id: String, tenant_id: String) -> (r: Self)
        ensures
            r == MerchantStep::Connect(
                MerchantTask::Find(MerchantLookup { merchant_id, tenant_id, create_if_missing: true }),
            ),
    {
        MerchantStep::Connect(
            MerchantTask::Find(MerchantLookup { merchant_id, tenant_id, create_if_missing: true }),
        )
    }

    /// Store a new merchant with its key sealed, and return it as stored.
    pub fn insert_merchant(new: MerchantNew) -> (r: Self)
        ensures
            r == MerchantStep::Connect(MerchantTask::Insert(new)),
    {
        MerchantStep::Connect(MerchantTask::Insert(new))
    }

    /// The insert of an `Insert` step came back with `inserted`: the stored
    /// row, unsealed, or `FindError` where the insert failed.
    pub fn inserted<A: Encryption>(inserted: Result<MerchantInner, QueryError>, algo: &A) -> (r:
        Self)
        ensures
            inserted matches Ok(row) ==> r.reads(row, algo),
            inserted is Err ==> r.fails_with(StorageError::FindError),
    {
        match inserted {
            Ok(row) => finish_merchant(row, algo),
            Err(_) => MerchantStep::Done(Err(StorageError::FindError)),
        }
    }
}

/// Ends a merchant operation with the unsealed `row`.
fn finish_merchant<A: Encryption>(row: MerchantInner, algo: &A) -> (r: MerchantStep)
    ensures
        r.reads(row, algo),
{
    match row.decrypt(algo) {
        Ok(m) => MerchantStep::Done(Ok(m)),
        Err(_) => MerchantStep::Done(Err(StorageError::DecryptionError)),
    }
}

impl MerchantTask {
    /// A connection was taken (`acquired`) or the pool failed. Without a
    /// connection the operation fails with `PoolClientFailure`. A lookup then
    /// selects; an insert seals the key and inserts, or fails with `FindError`
    /// where sealing fails.
    pub fn connected<A: Encryption>(self, acquired: bool, algo: &A) -> (r: MerchantStep)
        ensures
            !acquired ==> r.fails_with(StorageError::PoolClientFailure),
            acquired ==> match self {
                MerchantTask::Find(lookup) => r == MerchantStep::Select(lookup),
                MerchantTask::Insert(new) => {
                    ||| r matches MerchantStep::Insert(row) && new.sealed_as(row, algo)
                    ||| r.fails_with(StorageError::FindError) && new.refused_by(algo)
                },
            },
            r.fuel() < MerchantStep::Connect(self).fuel(),
    {
        if !acquired {
            return MerchantStep::Done(Err(StorageError::PoolClientFailure));
        }
        match self {
            MerchantTask::Find(lookup) => MerchantStep::Select(lookup),
            MerchantTask::Insert(new) => match new.encrypt(algo) {
                Ok(row) => MerchantStep::Insert(row),
                Err(_) => MerchantStep::Done(Err(StorageError::FindError)),
            },
        }
    }
}

impl MerchantLookup {
    /// The select came back with `found`. A row found is unsealed. Where none
    /// was found and the lookup creates missing merchants, a fresh key is
    /// asked for, for a merchant with the looked-up identifiers. Any other
    /// failure ends with `FindError`.
    pub fn found<A: Encryption>(self, found: Result<MerchantInner, QueryError>, algo: &A) -> (r:
        MerchantStep)
        ensures
            found matches Ok(row) ==> r.reads(row, algo),
            found == Err::<MerchantInner, QueryError>(QueryError::NotFound) && self.create_if_missing
                ==> r == MerchantStep::GenerateKey(
                MerchantKeyRequest { merchant_id: self.merchant_id, tenant_id: self.tenant_id },
            ),
            found matches Err(e) && !(e == QueryError::NotFound && self.create_if_missing)
                ==> r.fails_with(StorageError::FindError),
            r.fuel() < MerchantStep::Select(self).fuel(),
    {
        match found {
            Ok(row) => finish_merchant(row, algo),
            Err(QueryError::NotFound) if self.create_if_missing => MerchantStep::GenerateKey(
                MerchantKeyRequest { merchant_id: self.merchant_id, tenant_id: self.tenant_id },
            ),
            Err(_) => MerchantStep::Done(Err(StorageError::FindError)),
        }
    }
}

impl MerchantKeyRequest {
    /// A fresh key of `DEK_LENGTH` bytes was drawn: insert the merchant with it.
    pub fn with_key(self, key: Vec<u8>) -> (r: MerchantStep)
        requires
            key@.len() == DEK_LENGTH,
        ensures
            r matches MerchantStep::Connect(MerchantTask::Insert(new)) && new.enc_key@.len()
                == DEK_LENGTH,
            r == MerchantStep::Connect(
                MerchantTask::Insert(
                    MerchantNew {
                        merchant_id: self.merchant_id,
                        tenant_id: self.tenant_id,
                        enc_key: key,
                    },
                ),
            ),
            r.fuel() < MerchantStep::GenerateKey(self).fuel(),
    {
        MerchantStep::Connect(
            MerchantTask::Insert(
                MerchantNew { merchant_id: self.merchant_id, tenant_id: self.tenant_id, enc_key: key },
            ),
        )
    }
}

/// A merchant that find-or-create creates reads back with a fresh key of
/// `DEK_LENGTH` bytes: where `with_key` was handed a key of that length, the
/// new merchant was sealed and stored, and the cipher unseals what it sealed,
/// the merchant read has the looked-up identifiers and that key.
pub proof fn lemma_created_merchant_has_fresh_key<A: Encryption>(
    algo: &A,
    request: MerchantKeyRequest,
    key: Vec<u8>,
    sealed: MerchantNewInner,
    stored: MerchantInner,
    read: Merchant,
)
    requires
        key@.len() == DEK_LENGTH,
        (MerchantNew { merchant_id: request.merchant_id, tenant_id: request.tenant_id, enc_key: key }).sealed_as(
            sealed,
            algo,
        ),
        stored.stores(sealed),
        stored.unsealed_as(read, algo),
        inverts(algo, key@, sealed.enc_key@),
    ensures
        read.merchant_id == request.merchant_id,
        read.tenant_id == request.tenant_id,
        read.enc_key@ == key@,
        read.enc_key@.len() == DEK_LENGTH,
{
    lemma_merchant_round_trip(
        algo,
        MerchantNew { merchant_id: request.merchant_id, tenant_id: request.tenant_id, enc_key: key },
        sealed,
        stored,
        read,
    );
}

/// A merchant row that the cipher unseals is read, never refused: where the
/// cipher answers `decrypt` on the row's sealed key with `key`, answers it
/// only with that plaintext and never with an error, a step that reads the
/// row (what `MerchantLookup::found` and `MerchantStep::inserted` give for a
/// row) ends with `Ok` of a merchant with the row's identifiers, creation
/// time and that key.
pub proof fn lemma_merchant_read_unseals<A: Encryption>(
    algo: &A,
    row: MerchantInner,
    step: MerchantStep,
    key: Vec<u8>,
)
    requires
        step.reads(row, algo),
        call_ensures(A::decrypt, (algo, row.enc_key.bytes()), Ok::<Vec<u8>, A::Error>(key)),
        forall|p: Vec<u8>|
            #[trigger] call_ensures(A::decrypt, (algo, row.enc_key.bytes()), Ok::<Vec<u8>, A::Error>(p))
                ==> p@ == key@,
        forall|e: A::Error|
            !#[trigger] call_ensures(
                A::decrypt,
                (algo, row.enc_key.bytes()),
                Err::<Vec<u8>, A::Error>(e),
            ),
    ensures
        step is Done,
        step->Done_0 is Ok,
        step->Done_0->Ok_0.merchant_id == row.merchant_id,
        step->Done_0->Ok_0.tenant_id == row.tenant_id,
        step->Done_0->Ok_0.created_at == row.created_at,
        step->Done_0->Ok_0.enc_key@ == key@,
{
}

/// A merchant read fails only with `DecryptionError`, and only where the
/// cipher refused to unseal the row's key.
pub proof fn lemma_merchant_read_fails_only_on_refusal<A: Encryption>(
    algo: &A,
    row: MerchantInner,
    step: MerchantStep,
)
    requires
        step.reads(row, algo),
        step matches MerchantStep::Done(Err(_)),
    ensures
        step == MerchantStep::Done(Err::<Merchant, StorageError>(StorageError::DecryptionError)),
        exists|e: A::Error|
            call_ensures(A::decrypt, (algo, row.enc_key.bytes()), Err::<Vec<u8>, A::Error>(e)),
{
}

/// A merchant step that fails with `e` is the end of the operation with
/// exactly that error.
pub proof fn lemma_merchant_fails_with_is_done(step: MerchantStep, e: StorageError)
    ensures
        step.fails_with(e) <==> step == MerchantStep::Done(Err::<Merchant, StorageError>(e)),
{
}

/// Find-or-create, repeated, gives back the merchant the first call gave.
/// `first` ended the first call by reading `first_row` (found or just
/// inserted) into a merchant. Where the second call's select returns the same
/// entry (`again`) and the cipher unseals that key alike each time, the
/// second call (`second`, what `MerchantLookup::found` answers for
/// `Ok(again)`) ends at once, creating nothing, with the first merchant's
/// identifiers, key and creation time.
pub proof fn lemma_find_or_create_repeated<A: Encryption>(
    algo: &A,
    first_row: MerchantInner,
    first: MerchantStep,
    again: MerchantInner,
    second: MerchantStep,
)
    requires
        first.reads(first_row, algo),
        first is Done,
        first->Done_0 is Ok,
        again.same_entry(first_row),
        unseals_alike(algo, first_row.enc_key@),
        second.reads(again, algo),
    ensures
        second is Done,
        second->Done_0 is Ok,
        second->Done_0->Ok_0.merchant_id == first->Done_0->Ok_0.merchant_id,
        second->Done_0->Ok_0.tenant_id == first->Done_0->Ok_0.tenant_id,
        second->Done_0->Ok_0.enc_key@ == first->Done_0->Ok_0.enc_key@,
        second->Done_0->Ok_0.created_at == first->Done_0->Ok_0.created_at,
{
    lemma_bytes_view(&first_row.enc_key);
    lemma_bytes_view(&again.enc_key);
    let m1 = first->Done_0->Ok_0;
    assert(crate::crypto::decrypts_to(algo, first_row.enc_key.bytes(), m1.enc_key));
    match second {
        MerchantStep::Done(Ok(m2)) => {
            assert(crate::crypto::decrypts_to(algo, again.enc_key.bytes(), m2.enc_key));
        },
        _ => {
            assert(again.refused_by(algo));
        },
    }
}

// ---------------------------------------------------------------------------
// Lockers
// ---------------------------------------------------------------------------

/// The identifiers of a locker entry.
pub struct LockerKey {
    pub locker_id: String,
    pub tenant_id: String,
    pub merchant_id: String,
    pub customer_id: String,
}

/// A locker row to insert, with the identifiers to look the entry up by where
/// it is already stored.
pub struct LockerInsert {
    pub row: LockerNewInner,
    pub fallback: LockerKey,
}

/// What a connection is taken for.
pub enum LockerTask {
    Find(LockerKey),
    Insert(LockerNew),
}

/// The next step of a locker read or write.
pub enum LockerStep {
    /// Take a connection from the pool; hand the outcome to `LockerTask::connected`.
    Connect(LockerTask),
    /// Select the locker row with these identifiers; hand the outcome to `LockerStep::selected`.
    Select(LockerKey),
    /// Insert `row` and return it as stored; hand the outcome to
    /// `LockerKey::inserted` of `fallback`.
    Insert(LockerInsert),
    /// The operation is over, with this result.
    Done(Result<Locker, StorageError>),
}

impl LockerStep {
    /// The step ends the operation with the error `e`.
    pub open spec fn fails_with(self, e: StorageError) -> bool {
        self == LockerStep::Done(Err::<Locker, StorageError>(e))
    }

    /// The step ends the operation with `row` unsealed by `algo`, or with
    /// `DecryptionError` where `algo` refused to unseal it.
    pub open spec fn reads<A: Encryption>(self, row: LockerInner, algo: &A) -> bool {
        match self {
            LockerStep::Done(Ok(l)) => row.unsealed_as(l, algo),
            LockerStep::Done(Err(e)) => e == StorageError::DecryptionError && row.refused_by(algo),
            _ => false,
        }
    }

    /// An upper bound on the steps left before `Done`.
    pub open spec fn fuel(self) -> nat {
        match self {
            LockerStep::Connect(LockerTask::Insert(_)) => 4,
            LockerStep::Insert(_) => 3,
            LockerStep::Connect(LockerTask::Find(_)) => 2,
            LockerStep::Select(_) => 1,
            LockerStep::Done(_) => 0,
        }
    }

    /// Fetch a locker entry by its identifiers and unseal its data.
    pub fn find_by_locker_id_merchant_id_customer_id(
        locker_id: String,
        tenant_id: String,
        merchant_id: String,
        customer_id: String,
    ) -> (r: Self)
        ensures
            r == LockerStep::Connect(
                LockerTask::Find(LockerKey { locker_id, tenant_id, merchant_id, customer_id }),
            ),
    {
        LockerStep::Connect(
            LockerTask::Find(LockerKey { locker_id, tenant_id, merchant_id, customer_id }),
        )
    }

    /// Store a locker entry with its data sealed; where an entry with its
    /// identifiers is already stored, fetch that one.
    pub fn insert_or_get_from_locker(new: LockerNew) -> (r: Self)
        ensures
            r == LockerStep::Connect(LockerTask::Insert(new)),
    {
        LockerStep::Connect(LockerTask::Insert(new))
    }

    /// The select of a `Select` step came back with `found`: the row,
    /// unsealed, or `FindError` where the select failed.
    pub fn selected<A: Encryption>(found: Result<LockerInner, QueryError>, algo: &A) -> (r: Self)
        ensures
            found matches Ok(row) ==> r.reads(row, algo),
            found is Err ==> r.fails_with(StorageError::FindError),
    {
        match found {
            Ok(row) => finish_locker(row, algo),
            Err(_) => LockerStep::Done(Err(StorageError::FindError)),
        }
    }
}

/// Ends a locker operation with the unsealed `row`.
fn finish_locker<A: Encryption>(row: LockerInner, algo: &A) -> (r: LockerStep)
    ensures
        r.reads(row, algo),
{
    match row.decrypt(algo) {
        Ok(l) => LockerStep::Done(Ok(l)),
        Err(_) => LockerStep::Done(Err(StorageError::DecryptionError)),
    }
}

impl LockerTask {
    /// A connection was taken (`acquired`) or the pool failed. Without a
    /// connection the operation fails with `PoolClientFailure`. A lookup then
    /// selects; an insert seals the data and inserts, keeping the entry's
    /// identifiers to fall back on, or fails with `EncryptionError` where
    /// sealing fails.
    pub fn connected<A: Encryption>(self, acquired: bool, algo: &A) -> (r: LockerStep)
        ensures
            !acquired ==> r.fails_with(StorageError::PoolClientFailure),
            acquired ==> match self {
                LockerTask::Find(key) => r == LockerStep::Select(key),
                LockerTask::Insert(new) => {
                    ||| r matches LockerStep::Insert(ins) && new.sealed_as(ins.row, algo)
                        && ins.fallback.identifies(new) && ins.fallback.locker_id == new.locker_id
                        && ins.fallback.tenant_id == new.tenant_id && ins.fallback.merchant_id
                        == new.merchant_id && ins.fallback.customer_id == new.customer_id
                    ||| r.fails_with(StorageError::EncryptionError) && new.refused_by(algo)
                },
            },
            r.fuel() < LockerStep::Connect(self).fuel(),
    {
        if !acquired {
            return LockerStep::Done(Err(StorageError::PoolClientFailure));
        }
        match self {
            LockerTask::Find(key) => LockerStep::Select(key),
            LockerTask::Insert(new) => {
                let fallback = LockerKey {
                    locker_id: new.locker_id.clone(),
                    tenant_id: new.tenant_id.clone(),
                    merchant_id: new.merchant_id.clone(),
                    customer_id: new.customer_id.clone(),
                };
                match new.encrypt(algo) {
                    Ok(row) => LockerStep::Insert(LockerInsert { row, fallback }),
                    Err(_) => LockerStep::Done(Err(StorageError::EncryptionError)),
                }
            },
        }
    }
}

/// A locker row that the cipher unseals is read, never refused: where the
/// cipher answers `decrypt` on the row's sealed data with `data`, answers it
/// only with that plaintext and never with an error, a step that reads the
/// row (what `LockerStep::selected` and `LockerKey::inserted` give for a row)
/// ends with `Ok` of an entry with the row's identifiers, creation time and
/// that data.
pub proof fn lemma_locker_read_unseals<A: Encryption>(
    algo: &A,
    row: LockerInner,
    step: LockerStep,
    data: Vec<u8>,
)
    requires
        step.reads(row, algo),
        call_ensures(A::decrypt, (algo, row.enc_data.bytes()), Ok::<Vec<u8>, A::Error>(data)),
        forall|p: Vec<u8>|
            #[trigger] call_ensures(A::decrypt, (algo, row.enc_data.bytes()), Ok::<Vec<u8>, A::Error>(p))
                ==> p@ == data@,
        forall|e: A::Error|
            !#[trigger] call_ensures(
                A::decrypt,
                (algo, row.enc_data.bytes()),
                Err::<Vec<u8>, A::Error>(e),
            ),
    ensures
        step is Done,
        step->Done_0 is Ok,
        step->Done_0->Ok_0.locker_id == row.locker_id,
        step->Done_0->Ok_0.tenant_id == row.tenant_id,
        step->Done_0->Ok_0.merchant_id == row.merchant_id,
        step->Done_0->Ok_0.customer_id == row.customer_id,
        step->Done_0->Ok_0.created_at == row.created_at,
        step->Done_0->Ok_0.enc_data@ == data@,
{
}

/// A locker read fails only with `DecryptionError`, and only where the
/// cipher refused to unseal the row's data.
pub proof fn lemma_locker_read_fails_only_on_refusal<A: Encryption>(
    algo: &A,
    row: LockerInner,
    step: LockerStep,
)
    requires
        step.reads(row, algo),
        step matches LockerStep::Done(Err(_)),
    ensures
        step == LockerStep::Done(Err::<Locker, StorageError>(StorageError::DecryptionError)),
        exists|e: A::Error|
            call_ensures(A::decrypt, (algo, row.enc_data.bytes()), Err::<Vec<u8>, A::Error>(e)),
{
}

/// A locker step that fails with `e` is the end of the operation with
/// exactly that error.
pub proof fn lemma_locker_fails_with_is_done(step: LockerStep, e: StorageError)
    ensures
        step.fails_with(e) <==> step == LockerStep::Done(Err::<Locker, StorageError>(e)),
{
}

/// The fallback of an insert is the entry's own identifiers: a key that
/// `identifies` a new entry has exactly its locker id, tenant id, merchant id
/// and customer id, each in its own field.
pub proof fn lemma_fallback_is_the_entry_key(key: LockerKey, new: LockerNew)
    requires
        key.identifies(new),
    ensures
        key.locker_id == new.locker_id,
        key.tenant_id == new.tenant_id,
        key.merchant_id == new.merchant_id,
        key.customer_id == new.customer_id,
{
}

/// Insert-or-get, repeated, gives back the entry the first call gave.
/// `first` ended the first call by reading `first_row` (just inserted, or
/// fetched after a unique violation) into an entry. Where the second call's
/// insert hits the unique key and its select returns the same entry
/// (`again`), and the cipher unseals that data alike each time, the second
/// call (`second`, what `LockerStep::selected` answers for `Ok(again)`) ends
/// with the first entry's identifiers, data and creation time.
pub proof fn lemma_insert_or_get_repeated<A: Encryption>(
    algo: &A,
    first_row: LockerInner,
    first: LockerStep,
    again: LockerInner,
    second: LockerStep,
)
    requires
        first.reads(first_row, algo),
        first is Done,
        first->Done_0 is Ok,
        again.same_entry(first_row),
        unseals_alike(algo, first_row.enc_data@),
        second.reads(again, algo),
    ensures
        second is Done,
        second->Done_0 is Ok,
        second->Done_0->Ok_0.locker_id == first->Done_0->Ok_0.locker_id,
        second->Done_0->Ok_0.tenant_id == first->Done_0->Ok_0.tenant_id,
        second->Done_0->Ok_0.merchant_id == first->Done_0->Ok_0.merchant_id,
        second->Done_0->Ok_0.customer_id == first->Done_0->Ok_0.customer_id,
        second->Done_0->Ok_0.enc_data@ == first->Done_0->Ok_0.enc_data@,
        second->Done_0->Ok_0.created_at == first->Done_0->Ok_0.created_at,
{
    lemma_bytes_view(&first_row.enc_data);
    lemma_bytes_view(&again.enc_data);
    let l1 = first->Done_0->Ok_0;
    assert(crate::crypto::decrypts_to(algo, first_row.enc_data.bytes(), l1.enc_data));
    match second {
        LockerStep::Done(Ok(l2)) => {
            assert(crate::crypto::decrypts_to(algo, again.enc_data.bytes(), l2.enc_data));
        },
        _ => {
            assert(again.refused_by(algo));
        },
    }
}

/// A locker lookup gives back only an entry with the looked-up identifiers:
/// where the row that the select of `key` returned carries `key`'s four
/// identifiers, the step that reads it (`LockerStep::selected`) ends, if
/// with an entry, with an entry carrying them.
pub proof fn lemma_lookup_keeps_key<A: Encryption>(
    algo: &A,
    key: LockerKey,
    row: LockerInner,
    r: LockerStep,
)
    requires
        row.locker_id == key.locker_id,
        row.tenant_id == key.tenant_id,
        row.merchant_id == key.merchant_id,
        row.customer_id == key.customer_id,
        r.reads(row, algo),
    ensures
        r matches LockerStep::Done(Ok(l)) ==> {
            &&& l.locker_id == key.locker_id
            &&& l.tenant_id == key.tenant_id
            &&& l.merchant_id == key.merchant_id
            &&& l.customer_id == key.customer_id
        },
{
}

impl LockerKey {
    /// These are the identifiers of `new`.
    pub open spec fn identifies(self, new: LockerNew) -> bool {
        &&& self.locker_id == new.locker_id
        &&& self.tenant_id == new.tenant_id
        &&& self.merchant_id == new.merchant_id
        &&& self.customer_id == new.customer_id
    }

    /// The insert of an `Insert` step whose fallback is `self` came back with
    /// `inserted`. A stored row is unsealed. Where an entry with the same
    /// identifiers is already stored, that entry is fetched by `self`. Any
    /// other failure ends with `FindError`.
    pub fn inserted<A: Encryption>(self, inserted: Result<LockerInner, QueryError>, algo: &A) -> (r:
        LockerStep)
        ensures
            inserted matches Ok(row) ==> r.reads(row, algo),
            inserted == Err::<LockerInner, QueryError>(QueryError::UniqueViolation) ==> r
                == LockerStep::Connect(LockerTask::Find(self)),
            inserted matches Err(e) && e != QueryError::UniqueViolation ==> r.fails_with(
                StorageError::FindError,
            ),
            r.fuel() < 3,
    {
        match inserted {
            Ok(row) => finish_locker(row, algo),
            Err(QueryError::UniqueViolation) => LockerStep::Connect(LockerTask::Find(self)),
            Err(_) => LockerStep::Done(Err(StorageError::FindError)),
        }
    }

    /// A connection for deleting this entry was taken (`acquired`) or the
    /// pool failed, which ends the deletion with `PoolClientFailure`.
    pub fn connected_for_delete(self, acquired: bool) -> (r: DeleteStep)
        ensures
            acquired ==> r == DeleteStep::Delete(self),
            !acquired ==> r == DeleteStep::Done(Err(StorageError::PoolClientFailure)),
    {
        if acquired {
            DeleteStep::Delete(self)
        } else {
            DeleteStep::Done(Err(StorageError::PoolClientFailure))
        }
    }
}

/// The next step of a locker deletion. Deleting needs no key: nothing is
/// sealed or unsealed.
pub enum DeleteStep {
    /// Take a connection from the pool; hand the outcome to `LockerKey::connected_for_delete`.
    Connect(LockerKey),
    /// Delete the rows with these identifiers; hand the count to `DeleteStep::deleted`.
    Delete(LockerKey),
    /// The deletion is over, with the number of rows deleted or an error.
    Done(Result<usize, StorageError>),
}

impl DeleteStep {
    /// Delete the locker entry with these identifiers.
    pub fn delete_from_locker(
        locker_id: String,
        tenant_id: String,
        merchant_id: String,
        customer_id: String,
    ) -> (r: Self)
        ensures
            r == DeleteStep::Connect(LockerKey { locker_id, tenant_id, merchant_id, customer_id }),
    {
        DeleteStep::Connect(LockerKey { locker_id, tenant_id, merchant_id, customer_id })
    }

    /// The delete came back with `deleted`: the number of rows deleted, which
    /// may be zero, or `FindError` where the delete failed.
    pub fn deleted(deleted: Result<usize, QueryError>) -> (r: Self)
        ensures
            deleted matches Ok(n) ==> r == DeleteStep::Done(Ok(n)),
            deleted is Err ==> r == DeleteStep::Done(Err(StorageError::FindError)),
    {
        match deleted {
            Ok(n) => DeleteStep::Done(Ok(n)),
            Err(_) => DeleteStep::Done(Err(StorageError::FindError)),
        }
    }
}

} // verus!
