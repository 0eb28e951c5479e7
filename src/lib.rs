use sha2::{Digest, Sha256};
use vstd::prelude::*;
use vstd::string::*;

pub mod signer;
pub mod transaction;

use signer::{assembled_signature, SignRequest, SignResult, SignatureError};
use transaction::{build_error, build_transfer, encode_signed_transaction, encode_transaction, transfer_encoding, Action, UnsignedTransaction};

verus! {

/// Why a transfer could not be built or signed.
#[derive(Debug)]
pub enum TransferError {
    /// The recent block hash is not base58 for 32 bytes.
    InvalidBlockReference,
    /// The signer's public key is not an `ed25519:` or `secp256k1:` key.
    InvalidPublicKeyEncoding,
    /// The signer or the receiver is not a well-formed account name.
    InvalidAccountId,
    /// The signing service answered with an error.
    SigningServiceFailure(String),
    /// The signing service's answer does not spell a signature.
    SignatureHexDecode,
}


/// The amount that each transfer moves: 0.1 of the native token, in its
/// smallest unit (10^-24).
pub const OMNI_DEPOSIT: u128 = 100_000_000_000_000_000_000_000;

/// The version of the signing service's key that requests ask for.
pub const KEY_VERSION: u32 = 0;

/// The SHA-256 digest of a byte string.
pub uninterp spec fn sha256_of(b: Seq<u8>) -> Seq<u8>;

/// The 32-byte signing payload of a byte string.
///
/// Relies on sha2's `Sha256`: the digest depends on the bytes alone.
#[verifier::external_body]
pub fn hash_payload(payload: &[u8]) -> (r: [u8; 32])
    ensures
        r@ == sha256_of(payload@),
{
    Sha256::digest(payload).into()
}

/// The derivation path of a (caller, signer) pair: `caller-signer`.
pub open spec fn path_of(caller: Seq<char>, signer: Seq<char>) -> Seq<char> {
    caller + "-"@ + signer
}

/// Two (caller, signer) pairs get the same derivation path only when they
/// are the same pair, provided that neither caller holds a `-`.
pub proof fn lemma_derivation_path_injective(
    caller_a: Seq<char>,
    signer_a: Seq<char>,
    caller_b: Seq<char>,
    signer_b: Seq<char>,
)
    requires
        !caller_a.contains('-'),
        !caller_b.contains('-'),
    ensures
        path_of(caller_a, signer_a) == path_of(caller_b, signer_b) <==> (caller_a == caller_b
            && signer_a == signer_b),
{
    reveal_strlit("-");
    let pa = path_of(caller_a, signer_a);
    let pb = path_of(caller_b, signer_b);
    if pa == pb {
        if caller_a.len() < caller_b.len() {
            assert(pa[caller_a.len() as int] == '-');
            assert(pb[caller_a.len() as int] == caller_b[caller_a.len() as int]);
            assert(caller_b.contains(caller_b[caller_a.len() as int]));
        } else if caller_b.len() < caller_a.len() {
            assert(pb[caller_b.len() as int] == '-');
            assert(pa[caller_b.len() as int] == caller_a[caller_b.len() as int]);
            assert(caller_a.contains(caller_a[caller_b.len() as int]));
        }
        assert(caller_a =~= pa.subrange(0, caller_a.len() as int));
        assert(caller_b =~= pb.subrange(0, caller_b.len() as int));
        assert(signer_a =~= pa.subrange(caller_a.len() as int + 1, pa.len() as int));
        assert(signer_b =~= pb.subrange(caller_b.len() as int + 1, pb.len() as int));
    }
}

/// The path that selects the signing service's key for requests of `caller`
/// on behalf of `signer`.
pub fn derivation_path(caller: &str, signer: &str) -> (r: String)
    ensures
        r@ == path_of(caller@, signer@),
{
    let mut path = String::from_str(caller);
    path.append("-");
    path.append(signer);
    path
}

/// The signing payload of a transfer: the digest of its transaction bytes,
/// which depend on the inputs alone.
pub open spec fn transfer_payload(
    signer_id: Seq<char>,
    signer_pk: Seq<char>,
    nonce: u64,
    block_hash: Seq<char>,
    caller: Seq<char>,
) -> Seq<u8> {
    sha256_of(transfer_encoding(signer_id, signer_pk, nonce, block_hash, caller, OMNI_DEPOSIT))
}

/// What a caller hands in to have a transfer built and signed.
pub struct TransactionArguments {
    pub signer_id: String,
    pub signer_pk: String,
    pub nonce: u64,
    pub block_hash: String,
}

/// A transfer that waits for its signature: the request for the signing
/// service, and the transaction that the signature will be attached to.
pub struct PendingTransfer {
    pub request: SignRequest,
    pub transaction: UnsignedTransaction,
}

/// The entry point: it knows the signing service's account.
pub struct Contract {
    pub mpc_contract_id: String,
}

impl Contract {
    pub fn new(mpc_contract_id: String) -> (r: Self)
        ensures
            r.mpc_contract_id@ == mpc_contract_id@,
    {
        Contract { mpc_contract_id }
    }

    /// Builds the transaction by which `args.signer_id` transfers
    /// `OMNI_DEPOSIT` to `caller`, and the request that asks for its
    /// signature: the SHA-256 digest of its bytes, under the path
    /// `caller-signer`, with key version 0.
    pub fn transfer_on_behalf_of(&self, args: &TransactionArguments, caller: &str) -> (r: Result<
        PendingTransfer,
        TransferError,
    >)
        ensures
            match build_error(args.signer_id@, args.signer_pk@, args.block_hash@, caller@) {
                Some(e) => r == Err::<PendingTransfer, TransferError>(e),
                None => r matches Ok(p) && p.transaction.wf()
                    && p.transaction.signer_id@ == args.signer_id@
                    && p.transaction.nonce == args.nonce
                    && p.transaction.receiver_id@ == caller@
                    && p.transaction.actions@ == seq![Action::Transfer { deposit: OMNI_DEPOSIT }]
                    && p.transaction.encoding() == transfer_encoding(
                        args.signer_id@, args.signer_pk@, args.nonce, args.block_hash@, caller@,
                        OMNI_DEPOSIT)
                    && p.request.payload@ == sha256_of(p.transaction.encoding())
                    && p.request.payload@ == transfer_payload(
                        args.signer_id@, args.signer_pk@, args.nonce, args.block_hash@, caller@)
                    && p.request.path@ == path_of(caller@, args.signer_id@)
                    && p.request.key_version == KEY_VERSION,
            },
    {
        let transaction = build_transfer(
            args.signer_id.as_str(),
            args.signer_pk.as_str(),
            args.nonce,
            args.block_hash.as_str(),
            caller,
            OMNI_DEPOSIT,
        )?;
        let bytes = encode_transaction(&transaction);
        let payload = hash_payload(bytes.as_slice());
        let path = derivation_path(caller, args.signer_id.as_str());
        let request = SignRequest::new(payload, path, KEY_VERSION);
        Ok(PendingTransfer { request, transaction })
    }

    /// Attaches the signing service's answer to the transaction it signed,
    /// giving the bytes of the signed transaction.
    pub fn sign_callback(
        &self,
        result: Result<SignResult, String>,
        transaction: &UnsignedTransaction,
    ) -> (r: Result<Vec<u8>, TransferError>)
        requires
            transaction.wf(),
        ensures
            match result {
                Err(e) => r == Err::<Vec<u8>, TransferError>(
                    TransferError::SigningServiceFailure(e),
                ),
                Ok(answer) => match assembled_signature(
                    answer.big_r.affine_point@,
                    answer.s.scalar@,
                ) {
                    Some(sig) => r matches Ok(bytes)
                        && bytes@ == transaction.encoding() + seq![1u8] + sig,
                    None => r == Err::<Vec<u8>, TransferError>(TransferError::SignatureHexDecode),
                },
            },
    {
        match result {
            Err(e) => Err(TransferError::SigningServiceFailure(e)),
            Ok(answer) => match answer.to_signature() {
                Ok(sig) => Ok(encode_signed_transaction(transaction, &sig)),
                Err(SignatureError::HexDecode) => Err(TransferError::SignatureHexDecode),
            },
        }
    }
}

} // verus!
