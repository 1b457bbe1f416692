//! The records of the two tables, in the form the application sees them
//! (plaintext secrets) and in the form they are stored (secrets sealed with the
//! merchant's key), and the conversions between the two.

use vstd::prelude::*;

use crate::crypto::{
    decrypts_to,
    encrypts_to,
    inverts,
    refuses_to_decrypt,
    refuses_to_encrypt,
    Encryption,
};

verus! {

/// A point in time without offset, as the database stores it. It is only
/// carried through, never inspected.
#[verifier::external_type_specification]
#[verifier::external_body]
pub struct ExPrimitiveDateTime(time::PrimitiveDateTime);

/// Bytes that have been sealed with a data-encryption key.
///
/// No record type here implements `Debug`: keys, card data and locker ids are
/// secrets and must not reach logs.
pub struct Encrypted {
    inner: Vec<u8>,
}

impl View for Encrypted {
    type V = Seq<u8>;

    closed spec fn view(&self) -> Seq<u8> {
        self.inner@
    }
}

impl Encrypted {
    /// The vector that holds the sealed bytes.
    pub closed spec fn bytes(self) -> Vec<u8> {
        self.inner
    }

    /// Wraps sealed bytes.
    pub fn new(item: Vec<u8>) -> (r: Self)
        ensures
            r.bytes() == item,
            r@ == item@,
    {
        Self { inner: item }
    }

    /// The sealed bytes.
    pub fn into_inner(self) -> (r: Vec<u8>)
        ensures
            r == self.bytes(),
            r@ == self@,
    {
        self.inner
    }

    /// The sealed bytes, borrowed.
    pub fn get_inner(&self) -> (r: &Vec<u8>)
        ensures
            *r == self.bytes(),
            r@ == self@,
    {
        &self.inner
    }
}

/// The vector that holds an `Encrypted`'s bytes holds exactly its view.
pub proof fn lemma_bytes_view(e: &Encrypted)
    ensures
        e.bytes()@ == e@,
{
}

impl From<Vec<u8>> for Encrypted {
    fn from(value: Vec<u8>) -> (r: Self)
        ensures
            r.bytes() == value,
            r@ == value@,
    {
        Self { inner: value }
    }
}

impl vstd::std_specs::convert::FromSpecImpl<Vec<u8>> for Encrypted {
    open spec fn obeys_from_spec() -> bool {
        true
    }

    closed spec fn from_spec(v: Vec<u8>) -> Self {
        Encrypted { inner: v }
    }
}

// ---------------------------------------------------------------------------
// Merchants
// ---------------------------------------------------------------------------

/// A merchant row as stored: the merchant's key is sealed with the master key.
pub struct MerchantInner {
    pub id: i32,
    pub tenant_id: String,
    pub merchant_id: String,
    pub enc_key: Encrypted,
    pub created_at: time::PrimitiveDateTime,
}

/// A merchant with its data-encryption key in plaintext.
pub struct Merchant {
    pub tenant_id: String,
    pub merchant_id: String,
    pub enc_key: Vec<u8>,
    pub created_at: time::PrimitiveDateTime,
}

/// A merchant row to insert: the key sealed with the master key.
pub struct MerchantNewInner {
    pub tenant_id: String,
    pub merchant_id: String,
    pub enc_key: Encrypted,
}

/// A merchant to create, with its data-encryption key in plaintext.
pub struct MerchantNew {
    pub tenant_id: String,
    pub merchant_id: String,
    pub enc_key: Vec<u8>,
}

impl MerchantNew {
    /// `row` is this merchant with its key sealed by `algo`: the same
    /// identifiers, and stored bytes that `algo` answered when asked to seal
    /// the key.
    pub open spec fn sealed_as<A: Encryption>(self, row: MerchantNewInner, algo: &A) -> bool {
        &&& row.tenant_id == self.tenant_id
        &&& row.merchant_id == self.merchant_id
        &&& encrypts_to(algo, self.enc_key, row.enc_key.bytes())
    }

    /// `algo` refused to seal this merchant's key.
    pub open spec fn refused_by<A: Encryption>(self, algo: &A) -> bool {
        refuses_to_encrypt(algo, self.enc_key)
    }

    /// Seals the merchant's key with the master key.
    pub fn encrypt<A: Encryption>(self, algo: &A) -> (r: Result<MerchantNewInner, A::Error>)
        ensures
            r matches Ok(row) ==> self.sealed_as(row, algo),
            r matches Ok(row) ==> row.merchant_id == self.merchant_id && row.tenant_id
                == self.tenant_id,
            r matches Err(e) ==> call_ensures(
                A::encrypt,
                (algo, self.enc_key),
                Err::<Vec<u8>, A::Error>(e),
            ),
    {
        let MerchantNew { tenant_id, merchant_id, enc_key } = self;
        let sealed = algo.encrypt(enc_key)?;
        Ok(MerchantNewInner { merchant_id, enc_key: Encrypted::new(sealed), tenant_id })
    }
}

impl MerchantInner {
    /// `self` is what the database holds after inserting `row`: the same
    /// identifiers and sealed bytes.
    pub open spec fn stores(self, row: MerchantNewInner) -> bool {
        &&& self.tenant_id == row.tenant_id
        &&& self.merchant_id == row.merchant_id
        &&& self.enc_key@ == row.enc_key@
    }

    /// `other` holds the same merchant as `self`: the same identifiers,
    /// sealed bytes and creation time.
    pub open spec fn same_entry(self, other: MerchantInner) -> bool {
        &&& self.tenant_id == other.tenant_id
        &&& self.merchant_id == other.merchant_id
        &&& self.enc_key@ == other.enc_key@
        &&& self.created_at == other.created_at
    }

    /// `m` is this row unsealed by `algo`: the same identifiers and creation
    /// time, and the key that `algo` answered when asked to unseal the row's.
    pub open spec fn unsealed_as<A: Encryption>(self, m: Merchant, algo: &A) -> bool {
        &&& m.tenant_id == self.tenant_id
        &&& m.merchant_id == self.merchant_id
        &&& m.created_at == self.created_at
        &&& decrypts_to(algo, self.enc_key.bytes(), m.enc_key)
    }

    /// `algo` refused to unseal this row's key.
    pub open spec fn refused_by<A: Encryption>(self, algo: &A) -> bool {
        refuses_to_decrypt(algo, self.enc_key.bytes())
    }

    /// Unseals the merchant's key with the master key.
    pub fn decrypt<A: Encryption>(self, algo: &A) -> (r: Result<Merchant, A::Error>)
        ensures
            r matches Ok(m) ==> self.unsealed_as(m, algo),
            r matches Ok(m) ==> m.merchant_id == self.merchant_id && m.tenant_id == self.tenant_id
                && m.created_at == self.created_at,
            r matches Err(e) ==> call_ensures(
                A::decrypt,
                (algo, self.enc_key.bytes()),
                Err::<Vec<u8>, A::Error>(e),
            ),
    {
        let MerchantInner { id: _, tenant_id, merchant_id, enc_key, created_at } = self;
        let key = algo.decrypt(enc_key.into_inner())?;
        Ok(Merchant { merchant_id, enc_key: key, created_at, tenant_id })
    }
}

/// A merchant stored through `encrypt` reads back through `decrypt`: where
/// the database gives back the inserted row and the cipher unseals to the key
/// it sealed, the merchant read has the identifiers and the key of the
/// merchant stored, and the row's creation time.
pub proof fn lemma_merchant_round_trip<A: Encryption>(
    algo: &A,
    new: MerchantNew,
    sealed: MerchantNewInner,
    stored: MerchantInner,
    read: Merchant,
)
    requires
        new.sealed_as(sealed, algo),
        stored.stores(sealed),
        stored.unsealed_as(read, algo),
        inverts(algo, new.enc_key@, sealed.enc_key@),
    ensures
        read.tenant_id == new.tenant_id,
        read.merchant_id == new.merchant_id,
        read.enc_key@ == new.enc_key@,
        read.created_at == stored.created_at,
{
    assert(decrypts_to(algo, stored.enc_key.bytes(), read.enc_key));
}


/// Sealing a merchant keeps each identifier in its own field and hands the
/// cipher exactly the merchant's key: a row that `sealed_as` relates to `new`
/// has `new`'s merchant id and tenant id, and its bytes are an answer of
/// `encrypt` on `new`'s key.
pub proof fn lemma_merchant_sealing_keeps_fields<A: Encryption>(
    algo: &A,
    new: MerchantNew,
    row: MerchantNewInner,
)
    requires
        new.sealed_as(row, algo),
    ensures
        row.merchant_id == new.merchant_id,
        row.tenant_id == new.tenant_id,
        call_ensures(A::encrypt, (algo, new.enc_key), Ok::<Vec<u8>, A::Error>(row.enc_key.bytes())),
{
}

/// A merchant counts as refused only where the cipher refused to seal its
/// key: `refused_by` means that `encrypt` on the key answered with an error.
pub proof fn lemma_merchant_new_refused_means_cipher_refused<A: Encryption>(
    algo: &A,
    new: MerchantNew,
)
    ensures
        new.refused_by(algo) <==> exists|e: A::Error|
            call_ensures(A::encrypt, (algo, new.enc_key), Err::<Vec<u8>, A::Error>(e)),
{
}

/// Unsealing a merchant row keeps each identifier in its own field and the
/// creation time, and the key is the cipher's answer on the row's sealed key.
pub proof fn lemma_merchant_unsealing_keeps_fields<A: Encryption>(
    algo: &A,
    row: MerchantInner,
    m: Merchant,
)
    requires
        row.unsealed_as(m, algo),
    ensures
        m.merchant_id == row.merchant_id,
        m.tenant_id == row.tenant_id,
        m.created_at == row.created_at,
        call_ensures(A::decrypt, (algo, row.enc_key.bytes()), Ok::<Vec<u8>, A::Error>(m.enc_key)),
{
}

/// A merchant row counts as refused only where the cipher refused to unseal
/// its key.
pub proof fn lemma_merchant_row_refused_means_cipher_refused<A: Encryption>(
    algo: &A,
    row: MerchantInner,
)
    ensures
        row.refused_by(algo) <==> exists|e: A::Error|
            call_ensures(A::decrypt, (algo, row.enc_key.bytes()), Err::<Vec<u8>, A::Error>(e)),
{
}

// ---------------------------------------------------------------------------
// Lockers
// ---------------------------------------------------------------------------

/// A locker row as stored: the payment data sealed with the merchant's key.
pub struct LockerInner {
    pub id: i32,
    pub locker_id: String,
    pub tenant_id: String,
    pub merchant_id: String,
    pub customer_id: String,
    pub enc_data: Encrypted,
    pub created_at: time::PrimitiveDateTime,
}

/// A locker entry with its payment data in plaintext.
pub struct Locker {
    pub locker_id: String,
    pub tenant_id: String,
    pub merchant_id: String,
    pub customer_id: String,
    pub enc_data: Vec<u8>,
    pub created_at: time::PrimitiveDateTime,
}

/// A locker entry to store, with its payment data in plaintext.
#[derive(Clone)]
pub struct LockerNew {
    pub locker_id: String,
    pub tenant_id: String,
    pub merchant_id: String,
    pub customer_id: String,
    pub enc_data: Vec<u8>,
}

/// A locker row to insert: the payment data sealed with the merchant's key.
pub struct LockerNewInner {
    pub locker_id: String,
    pub tenant_id: String,
    pub merchant_id: String,
    pub customer_id: String,
    pub enc_data: Encrypted,
}

impl LockerNew {
    /// `row` is this entry with its data sealed by `algo`: the same
    /// identifiers, and stored bytes that `algo` answered when asked to seal
    /// the data.
    pub open spec fn sealed_as<A: Encryption>(self, row: LockerNewInner, algo: &A) -> bool {
        &&& row.locker_id == self.locker_id
        &&& row.tenant_id == self.tenant_id
        &&& row.merchant_id == self.merchant_id
        &&& row.customer_id == self.customer_id
        &&& encrypts_to(algo, self.enc_data, row.enc_data.bytes())
    }

    /// `algo` refused to seal this entry's data.
    pub open spec fn refused_by<A: Encryption>(self, algo: &A) -> bool {
        refuses_to_encrypt(algo, self.enc_data)
    }

    /// Seals the payment data with the merchant's key.
    pub fn encrypt<A: Encryption>(self, algo: &A) -> (r: Result<LockerNewInner, A::Error>)
        ensures
            r matches Ok(row) ==> self.sealed_as(row, algo),
            r matches Ok(row) ==> row.locker_id == self.locker_id && row.tenant_id == self.tenant_id
                && row.merchant_id == self.merchant_id && row.customer_id == self.customer_id,
            r matches Err(e) ==> call_ensures(
                A::encrypt,
                (algo, self.enc_data),
                Err::<Vec<u8>, A::Error>(e),
            ),
    {
        let LockerNew { locker_id, tenant_id, merchant_id, customer_id, enc_data } = self;
        let sealed = algo.encrypt(enc_data)?;
        Ok(
            LockerNewInner {
                locker_id,
                tenant_id,
                merchant_id,
                customer_id,
                enc_data: Encrypted::new(sealed),
            },
        )
    }
}

impl LockerInner {
    /// `self` is what the database holds after inserting `row`: the same
    /// identifiers and sealed bytes.
    pub open spec fn stores(self, row: LockerNewInner) -> bool {
        &&& self.locker_id == row.locker_id
        &&& self.tenant_id == row.tenant_id
        &&& self.merchant_id == row.merchant_id
        &&& self.customer_id == row.customer_id
        &&& self.enc_data@ == row.enc_data@
    }

    /// `other` holds the same locker entry as `self`: the same identifiers,
    /// sealed bytes and creation time.
    pub open spec fn same_entry(self, other: LockerInner) -> bool {
        &&& self.locker_id == other.locker_id
        &&& self.tenant_id == other.tenant_id
        &&& self.merchant_id == other.merchant_id
        &&& self.customer_id == other.customer_id
        &&& self.enc_data@ == other.enc_data@
        &&& self.created_at == other.created_at
    }

    /// `l` is this row unsealed by `algo`: the same identifiers and creation
    /// time, and the data that `algo` answered when asked to unseal the row's.
    pub open spec fn unsealed_as<A: Encryption>(self, l: Locker, algo: &A) -> bool {
        &&& l.locker_id == self.locker_id
        &&& l.tenant_id == self.tenant_id
        &&& l.merchant_id == self.merchant_id
        &&& l.customer_id == self.customer_id
        &&& l.created_at == self.created_at
        &&& decrypts_to(algo, self.enc_data.bytes(), l.enc_data)
    }

    /// `algo` refused to unseal this row's data.
    pub open spec fn refused_by<A: Encryption>(self, algo: &A) -> bool {
        refuses_to_decrypt(algo, self.enc_data.bytes())
    }

    /// Unseals the payment data with the merchant's key.
    pub fn decrypt<A: Encryption>(self, algo: &A) -> (r: Result<Locker, A::Error>)
        ensures
            r matches Ok(l) ==> self.unsealed_as(l, algo),
            r matches Ok(l) ==> l.locker_id == self.locker_id && l.tenant_id == self.tenant_id
                && l.merchant_id == self.merchant_id && l.customer_id == self.customer_id
                && l.created_at == self.created_at,
            r matches Err(e) ==> call_ensures(
                A::decrypt,
                (algo, self.enc_data.bytes()),
                Err::<Vec<u8>, A::Error>(e),
            ),
    {
        let LockerInner {
            id: _,
            locker_id,
            tenant_id,
            merchant_id,
            customer_id,
            enc_data,
            created_at,
        } = self;
        let data = algo.decrypt(enc_data.into_inner())?;
        Ok(Locker { locker_id, tenant_id, merchant_id, customer_id, enc_data: data, created_at })
    }
}

/// A locker entry stored through `encrypt` reads back through `decrypt`:
/// where the database gives back the inserted row and the cipher unseals to
/// the data it sealed, the entry read has the identifiers and the data of the
/// entry stored, and the row's creation time.
pub proof fn lemma_locker_round_trip<A: Encryption>(
    algo: &A,
    new: LockerNew,
    sealed: LockerNewInner,
    stored: LockerInner,
    read: Locker,
)
    requires
        new.sealed_as(sealed, algo),
        stored.stores(sealed),
        stored.unsealed_as(read, algo),
        inverts(algo, new.enc_data@, sealed.enc_data@),
    ensures
        read.locker_id == new.locker_id,
        read.tenant_id == new.tenant_id,
        read.merchant_id == new.merchant_id,
        read.customer_id == new.customer_id,
        read.enc_data@ == new.enc_data@,
        read.created_at == stored.created_at,
{
    assert(decrypts_to(algo, stored.enc_data.bytes(), read.enc_data));
}

/// Sealing a locker entry keeps each identifier in its own field and hands
/// the cipher exactly the entry's data.
pub proof fn lemma_locker_sealing_keeps_fields<A: Encryption>(
    algo: &A,
    new: LockerNew,
    row: LockerNewInner,
)
    requires
        new.sealed_as(row, algo),
    ensures
        row.locker_id == new.locker_id,
        row.tenant_id == new.tenant_id,
        row.merchant_id == new.merchant_id,
        row.customer_id == new.customer_id,
        call_ensures(
            A::encrypt,
            (algo, new.enc_data),
            Ok::<Vec<u8>, A::Error>(row.enc_data.bytes()),
        ),
{
}

/// A locker entry counts as refused only where the cipher refused to seal
/// its data.
pub proof fn lemma_locker_new_refused_means_cipher_refused<A: Encryption>(
    algo: &A,
    new: LockerNew,
)
    ensures
        new.refused_by(algo) <==> exists|e: A::Error|
            call_ensures(A::encrypt, (algo, new.enc_data), Err::<Vec<u8>, A::Error>(e)),
{
}

/// Unsealing a locker row keeps each identifier in its own field and the
/// creation time, and the data is the cipher's answer on the row's sealed data.
pub proof fn lemma_locker_unsealing_keeps_fields<A: Encryption>(
    algo: &A,
    row: LockerInner,
    l: Locker,
)
    requires
        row.unsealed_as(l, algo),
    ensures
        l.locker_id == row.locker_id,
        l.tenant_id == row.tenant_id,
        l.merchant_id == row.merchant_id,
        l.customer_id == row.customer_id,
        l.created_at == row.created_at,
        call_ensures(A::decrypt, (algo, row.enc_data.bytes()), Ok::<Vec<u8>, A::Error>(l.enc_data)),
{
}

/// A locker row counts as refused only where the cipher refused to unseal
/// its data.
pub proof fn lemma_locker_row_refused_means_cipher_refused<A: Encryption>(
    algo: &A,
    row: LockerInner,
)
    ensures
        row.refused_by(algo) <==> exists|e: A::Error|
            call_ensures(A::decrypt, (algo, row.enc_data.bytes()), Err::<Vec<u8>, A::Error>(e)),
{
}

} // verus!
