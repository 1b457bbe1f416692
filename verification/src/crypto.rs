//! The cipher with which records are sealed at rest.

use vstd::prelude::*;

verus! {

/// A symmetric cipher keyed by a data-encryption key.
///
/// Nothing is assumed of an implementation: the storage logic states what it
/// does with whatever the cipher answers, in terms of `call_ensures` of these
/// two methods (see `crate::types`).
pub trait Encryption {
    /// The error the cipher reports.
    type Error;

    /// Seals `input`.
    fn encrypt(&self, input: Vec<u8>) -> Result<Vec<u8>, Self::Error>;

    /// Unseals `input`.
    fn decrypt(&self, input: Vec<u8>) -> Result<Vec<u8>, Self::Error>;
}

/// `algo`, asked to seal `plain`, may answer with `sealed`.
pub open spec fn encrypts_to<A: Encryption>(algo: &A, plain: Vec<u8>, sealed: Vec<u8>) -> bool {
    call_ensures(A::encrypt, (algo, plain), Ok::<Vec<u8>, A::Error>(sealed))
}

/// `algo`, asked to seal `plain`, may refuse.
pub open spec fn refuses_to_encrypt<A: Encryption>(algo: &A, plain: Vec<u8>) -> bool {
    exists|e: A::Error| call_ensures(A::encrypt, (algo, plain), Err::<Vec<u8>, A::Error>(e))
}

/// `algo`, asked to unseal `sealed`, may answer with `plain`.
pub open spec fn decrypts_to<A: Encryption>(algo: &A, sealed: Vec<u8>, plain: Vec<u8>) -> bool {
    call_ensures(A::decrypt, (algo, sealed), Ok::<Vec<u8>, A::Error>(plain))
}

/// `algo`, asked to unseal `sealed`, may refuse.
pub open spec fn refuses_to_decrypt<A: Encryption>(algo: &A, sealed: Vec<u8>) -> bool {
    exists|e: A::Error| call_ensures(A::decrypt, (algo, sealed), Err::<Vec<u8>, A::Error>(e))
}

/// Whatever `algo` answers when asked to unseal bytes equal to `sealed` is
/// `plain`: the cipher gives back what it sealed.
pub open spec fn inverts<A: Encryption>(algo: &A, plain: Seq<u8>, sealed: Seq<u8>) -> bool {
    forall|stored: Vec<u8>, back: Vec<u8>|
        stored@ == sealed && #[trigger] decrypts_to(algo, stored, back) ==> back@ == plain
}

/// `algo` unseals any two copies of `sealed` alike: where it answers for one
/// with a plaintext, it does not refuse the other, and it answers both with
/// the same plaintext. (AES-GCM decryption is a function of key and input.)
pub open spec fn unseals_alike<A: Encryption>(algo: &A, sealed: Seq<u8>) -> bool {
    &&& forall|v1: Vec<u8>, v2: Vec<u8>, p1: Vec<u8>, p2: Vec<u8>|
        v1@ == sealed && v2@ == sealed && #[trigger] decrypts_to(algo, v1, p1) && #[trigger] decrypts_to(
            algo,
            v2,
            p2,
        ) ==> p1@ == p2@
    &&& forall|v1: Vec<u8>, v2: Vec<u8>, p1: Vec<u8>|
        #![trigger decrypts_to(algo, v1, p1), refuses_to_decrypt(algo, v2)]
        v1@ == sealed && v2@ == sealed && decrypts_to(algo, v1, p1) ==> !refuses_to_decrypt(
            algo,
            v2,
        )
}

} // verus!
