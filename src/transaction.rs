use omni_transaction::near::types::{
    AccountId, Action as NearAction, BlockHash, ED25519PublicKey, NearToken, PublicKey,
    Secp256K1PublicKey, Secp256K1Signature, Signature, TransferAction,
};
use omni_transaction::near::utils::PublicKeyStrExt;
use omni_transaction::{TransactionBuilder, TxBuilder, NEAR};
use vstd::prelude::*;

use crate::TransferError;

verus! {

/// The public key of the account that signs a transaction.
pub enum SignerPublicKey {
    Ed25519([u8; 32]),
    Secp256k1([u8; 64]),
}

/// One action of a transaction. Transfers are the only kind used so far.
pub enum Action {
    Transfer { deposit: u128 },
}

/// A transaction before its signature is attached.
pub struct UnsignedTransaction {
    pub signer_id: String,
    pub signer_public_key: SignerPublicKey,
    pub nonce: u64,
    pub receiver_id: String,
    pub block_hash: [u8; 32],
    pub actions: Vec<Action>,
}

pub open spec fn is_separator(c: char) -> bool {
    c == '-' || c == '_' || c == '.'
}

pub open spec fn is_account_char(c: char) -> bool {
    ('a' <= c && c <= 'z') || ('0' <= c && c <= '9') || is_separator(c)
}

/// A well-formed account name: 2 to 64 characters among lower-case letters,
/// digits and the separators `-`, `_`, `.`, with no separator at either end
/// and no two separators side by side.
pub open spec fn valid_account_id(s: Seq<char>) -> bool {
    2 <= s.len() <= 64
    && (forall|i: int| 0 <= i < s.len() ==> is_account_char(#[trigger] s[i]))
    && !is_separator(s[0])
    && !is_separator(s[s.len() - 1])
    && (forall|i: int| 0 <= i < s.len() - 1 ==> !(is_separator(#[trigger] s[i]) && is_separator(s[i + 1])))
}

/// `n` as `k` bytes, least significant first.
pub open spec fn le_bytes(n: nat, k: nat) -> Seq<u8>
    decreases k,
{
    if k == 0 {
        Seq::empty()
    } else {
        seq![(n % 256) as u8] + le_bytes(n / 256, (k - 1) as nat)
    }
}

/// The bytes of a string whose characters are all ASCII.
pub open spec fn ascii_bytes(s: Seq<char>) -> Seq<u8> {
    s.map_values(|c: char| c as u8)
}

/// A string as the encoding writes it: its length in 4 bytes, then its bytes.
pub open spec fn string_encoding(s: Seq<char>) -> Seq<u8> {
    le_bytes(s.len(), 4) + ascii_bytes(s)
}

impl SignerPublicKey {
    /// A key type tag (0 for ed25519, 1 for secp256k1), then the key bytes.
    pub open spec fn encoding(&self) -> Seq<u8> {
        match self {
            SignerPublicKey::Ed25519(k) => seq![0u8] + k@,
            SignerPublicKey::Secp256k1(k) => seq![1u8] + k@,
        }
    }
}

impl Action {
    /// The action's tag (3 for a transfer), then its fields.
    pub open spec fn encoding(&self) -> Seq<u8> {
        match self {
            Action::Transfer { deposit } => seq![3u8] + le_bytes(*deposit as nat, 16),
        }
    }
}

/// The actions one after the other.
pub open spec fn actions_encoding(actions: Seq<Action>) -> Seq<u8>
    decreases actions.len(),
{
    if actions.len() == 0 {
        Seq::empty()
    } else {
        actions_encoding(actions.drop_last()) + actions.last().encoding()
    }
}

impl UnsignedTransaction {
    pub open spec fn wf(&self) -> bool {
        valid_account_id(self.signer_id@)
        && valid_account_id(self.receiver_id@)
        && self.actions@.len() <= u32::MAX
    }

    /// The canonical bytes of the transaction: its fields in order, integers
    /// little-endian, and the action list preceded by its length.
    pub open spec fn encoding(&self) -> Seq<u8> {
        string_encoding(self.signer_id@)
        + self.signer_public_key.encoding()
        + le_bytes(self.nonce as nat, 8)
        + string_encoding(self.receiver_id@)
        + self.block_hash@
        + le_bytes(self.actions@.len(), 4)
        + actions_encoding(self.actions@)
    }
}

/// Relies on near-account-id's `FromStr for AccountId`, which omni-transaction
/// re-exports: it accepts exactly the well-formed account names.
#[verifier::external_body]
pub(crate) fn account_id_is_valid(s: &str) -> (r: bool)
    ensures
        r == valid_account_id(s@),
{
    s.parse::<AccountId>().is_ok()
}

/// The 32 bytes that a block hash string spells in base58, if it spells 32.
pub uninterp spec fn base58_block_hash(s: Seq<char>) -> Option<Seq<u8>>;

/// Relies on omni-transaction's `str::to_block_hash`: a base58 decoding of the
/// string to exactly 32 bytes, which depends on the string alone.
#[verifier::external_body]
pub(crate) fn parse_block_hash(s: &str) -> (r: Option<[u8; 32]>)
    ensures
        match base58_block_hash(s@) {
            Some(h) => r matches Some(b) && b@ == h,
            None => r is None,
        },
{
    s.to_block_hash().ok().map(|h| h.0)
}

/// The key bytes of a key written `ed25519:<base58>` or `secp256k1:<base58>`,
/// if the text is such a key.
pub uninterp spec fn public_key_bytes(s: Seq<char>) -> Option<Seq<u8>>;

/// Relies on omni-transaction's `str::to_public_key`: the key depends on the
/// text alone, and its type is the one that the text's prefix names.
#[verifier::external_body]
pub(crate) fn parse_public_key(s: &str) -> (r: Option<SignerPublicKey>)
    ensures
        r is Some <==> public_key_bytes(s@) is Some,
        r matches Some(k) ==> match k {
            SignerPublicKey::Ed25519(b) => b@ == public_key_bytes(s@)->0
                && "ed25519:"@.is_prefix_of(s@),
            SignerPublicKey::Secp256k1(b) => b@ == public_key_bytes(s@)->0
                && "secp256k1:"@.is_prefix_of(s@),
        },
{
    s.to_public_key().ok().map(|k| match k {
        PublicKey::ED25519(p) => SignerPublicKey::Ed25519(p.0),
        PublicKey::SECP256K1(p) => SignerPublicKey::Secp256k1(p.0),
    })
}

/// Relies on omni-transaction's NEAR `TransactionBuilder` and
/// `NearTransaction::build_for_signing`, the borsh encoding of the transaction.
#[verifier::external_body]
pub(crate) fn encode_transaction(tx: &UnsignedTransaction) -> (r: Vec<u8>)
    requires
        tx.wf(),
    ensures
        r@ == tx.encoding(),
{
    let key = match &tx.signer_public_key {
        SignerPublicKey::Ed25519(k) => PublicKey::ED25519(ED25519PublicKey(*k)),
        SignerPublicKey::Secp256k1(k) => PublicKey::SECP256K1(Secp256K1PublicKey(*k)),
    };
    let actions = tx.actions.iter().map(|a| match a {
        Action::Transfer { deposit } => NearAction::Transfer(TransferAction { deposit: NearToken::from_yoctonear(*deposit) }),
    }).collect();
    TransactionBuilder::new::<NEAR>().signer_id(tx.signer_id.clone()).signer_public_key(key)
        .nonce(tx.nonce).receiver_id(tx.receiver_id.clone()).block_hash(BlockHash(tx.block_hash))
        .actions(actions).build().build_for_signing()
}

/// Relies on omni-transaction's NEAR `TransactionBuilder` and
/// `NearTransaction::build_with_signature`, the borsh encoding of the
/// transaction followed by that of the signature (tag 1 for secp256k1).
#[verifier::external_body]
pub(crate) fn encode_signed_transaction(tx: &UnsignedTransaction, signature: &[u8; 65]) -> (r: Vec<u8>)
    requires
        tx.wf(),
    ensures
        r@ == tx.encoding() + seq![1u8] + signature@,
{
    let key = match &tx.signer_public_key {
        SignerPublicKey::Ed25519(k) => PublicKey::ED25519(ED25519PublicKey(*k)),
        SignerPublicKey::Secp256k1(k) => PublicKey::SECP256K1(Secp256K1PublicKey(*k)),
    };
    let actions = tx.actions.iter().map(|a| match a {
        Action::Transfer { deposit } => NearAction::Transfer(TransferAction { deposit: NearToken::from_yoctonear(*deposit) }),
    }).collect();
    TransactionBuilder::new::<NEAR>().signer_id(tx.signer_id.clone()).signer_public_key(key)
        .nonce(tx.nonce).receiver_id(tx.receiver_id.clone()).block_hash(BlockHash(tx.block_hash))
        .actions(actions).build().build_with_signature(Signature::SECP256K1(Secp256K1Signature(*signature)))
}


/// The encoding of the key that a key text spells: the type tag that its
/// prefix names, then the key bytes.
pub open spec fn key_encoding_of(pk: Seq<char>) -> Seq<u8> {
    if "ed25519:"@.is_prefix_of(pk) {
        seq![0u8] + public_key_bytes(pk)->0
    } else {
        seq![1u8] + public_key_bytes(pk)->0
    }
}

/// The bytes of a transaction that makes one transfer of `deposit`.
pub open spec fn transfer_encoding(
    signer_id: Seq<char>,
    signer_pk: Seq<char>,
    nonce: u64,
    block_hash: Seq<char>,
    receiver_id: Seq<char>,
    deposit: u128,
) -> Seq<u8> {
    string_encoding(signer_id)
    + key_encoding_of(signer_pk)
    + le_bytes(nonce as nat, 8)
    + string_encoding(receiver_id)
    + base58_block_hash(block_hash)->0
    + le_bytes(1, 4)
    + seq![3u8]
    + le_bytes(deposit as nat, 16)
}

/// Which input of a transfer transaction is rejected first, if any: the key,
/// then the block hash, then the two account names.
pub open spec fn build_error(
    signer_id: Seq<char>,
    signer_pk: Seq<char>,
    block_hash: Seq<char>,
    receiver_id: Seq<char>,
) -> Option<TransferError> {
    if public_key_bytes(signer_pk) is None {
        Some(TransferError::InvalidPublicKeyEncoding)
    } else if base58_block_hash(block_hash) is None {
        Some(TransferError::InvalidBlockReference)
    } else if !valid_account_id(signer_id) || !valid_account_id(receiver_id) {
        Some(TransferError::InvalidAccountId)
    } else {
        None
    }
}

/// Builds the transaction by which `signer_id` transfers `deposit` to
/// `receiver_id`.
pub fn build_transfer(
    signer_id: &str,
    signer_pk: &str,
    nonce: u64,
    block_hash: &str,
    receiver_id: &str,
    deposit: u128,
) -> (r: Result<UnsignedTransaction, TransferError>)
    ensures
        match build_error(signer_id@, signer_pk@, block_hash@, receiver_id@) {
            Some(e) => r == Err::<UnsignedTransaction, TransferError>(e),
            None => r matches Ok(tx) && tx.wf()
                && tx.signer_id@ == signer_id@
                && tx.signer_public_key.encoding() == key_encoding_of(signer_pk@)
                && tx.nonce == nonce
                && tx.receiver_id@ == receiver_id@
                && tx.block_hash@ == base58_block_hash(block_hash@)->0
                && tx.actions@ == seq![Action::Transfer { deposit }]
                && tx.encoding() == transfer_encoding(
                    signer_id@, signer_pk@, nonce, block_hash@, receiver_id@, deposit),
        },
{
    let key = match parse_public_key(signer_pk) {
        Some(k) => k,
        None => return Err(TransferError::InvalidPublicKeyEncoding),
    };
    let hash = match parse_block_hash(block_hash) {
        Some(h) => h,
        None => return Err(TransferError::InvalidBlockReference),
    };
    if !account_id_is_valid(signer_id) || !account_id_is_valid(receiver_id) {
        return Err(TransferError::InvalidAccountId);
    }
    proof {
        reveal_strlit("ed25519:");
        reveal_strlit("secp256k1:");
        if key is Secp256k1 {
            assert(signer_pk@[0] == "secp256k1:"@[0]);
            assert(!"ed25519:"@.is_prefix_of(signer_pk@));
        }
    }
    let actions = vec![Action::Transfer { deposit }];
    let tx = UnsignedTransaction {
        signer_id: signer_id.to_string(),
        signer_public_key: key,
        nonce,
        receiver_id: receiver_id.to_string(),
        block_hash: hash,
        actions,
    };
    proof {
        let a = tx.actions@;
        assert(a.drop_last() =~= Seq::<Action>::empty());
        assert(actions_encoding(a.drop_last()) =~= Seq::<u8>::empty());
        assert(actions_encoding(a) =~= a[0].encoding());
        assert(tx.encoding() =~= transfer_encoding(
            signer_id@, signer_pk@, nonce, block_hash@, receiver_id@, deposit));
    }
    Ok(tx)
}

} // verus!
