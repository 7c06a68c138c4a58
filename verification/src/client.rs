//! What a run asks of the ledger, and in which order.

use crate::error::{AssignmentError, DecodeFailure};
use crate::helper::{
    check_new_user, new_user_of, outcome_view, texts_of, NewUserData, NewUserDataView,
    SignatureRecord, TransactionRecord,
};
use solana_sdk::pubkey::{ParsePubkeyError, Pubkey};
use solana_sdk::signature::{ParseSignatureError, Signature};
use std::str::FromStr;
use vstd::prelude::*;

verus! {

/// The address of the token mint whose new users are reported.
pub const PUBKEY: &'static str = "CKaKtYvz6dKPyMvYq9Rh3UBrnNqYZAyd7iF4hJtjUvks";

/// Where the ledger service is reached.
pub const RPC_URL: &'static str = "https://api.mainnet-beta.solana.com";

/// How many signatures one run asks for.
pub const SIGNATURE_LIMIT: usize = 1000;

/// How settled a block must be for the ledger to report it.
#[derive(Clone, Copy, Debug, PartialEq, Eq, Structural)]
pub enum Commitment {
    Processed,
    Confirmed,
    Finalized,
}

/// How settled the blocks of a run must be.
pub const COMMITMENT: Commitment = Commitment::Confirmed;

/// The request for the latest signatures of an address.
#[derive(Clone, Copy, Debug, PartialEq, Eq)]
pub struct SignatureQuery {
    /// The 32 bytes of the address.
    pub address: [u8; 32],
    /// The signature before which the list is to start, if any.
    pub before: Option<[u8; 64]>,
    /// The signature at which the list is to stop, if any.
    pub until: Option<[u8; 64]>,
    /// The largest number of signatures wanted.
    pub limit: usize,
    pub commitment: Commitment,
}

/// How the ledger is to write a transaction out.
#[derive(Clone, Copy, Debug, PartialEq, Eq, Structural)]
pub enum Encoding {
    Binary,
    Base64,
    Base58,
    Json,
    JsonParsed,
}

/// The request for one transaction.
#[derive(Clone, Copy, Debug, PartialEq, Eq)]
pub struct TransactionQuery {
    /// The 64 bytes of the transaction's signature.
    pub signature: [u8; 64],
    pub encoding: Encoding,
}

/// What `<solana_sdk::pubkey::Pubkey as FromStr>::from_str` makes of a text:
/// the 32 bytes of the public key that the base58 text stands for, or why it
/// stands for none.
pub uninterp spec fn address_of_text(text: Seq<char>) -> Result<Seq<u8>, DecodeFailure>;

/// What `<solana_sdk::signature::Signature as FromStr>::from_str` makes of a
/// text: the 64 bytes of the signature that the base58 text stands for, or
/// why it stands for none.
pub uninterp spec fn signature_of_text(text: Seq<char>) -> Result<Seq<u8>, DecodeFailure>;

/// `<solana_sdk::pubkey::Pubkey as FromStr>::from_str`, the key handed out as
/// its bytes. Not proved: that the outcome depends on the characters of
/// `text` alone.
#[verifier::external_body]
fn decode_address(text: &str) -> (decoded: Result<[u8; 32], DecodeFailure>)
    ensures
        match decoded {
            Ok(bytes) => address_of_text(text@) == Ok::<Seq<u8>, DecodeFailure>(bytes@),
            Err(failure) => address_of_text(text@) == Err::<Seq<u8>, DecodeFailure>(failure),
        },
{
    match Pubkey::from_str(text) {
        Ok(key) => Ok(key.to_bytes()),
        Err(ParsePubkeyError::WrongSize) => Err(DecodeFailure::WrongSize),
        Err(ParsePubkeyError::Invalid) => Err(DecodeFailure::Invalid),
    }
}

/// `<solana_sdk::signature::Signature as FromStr>::from_str`, the signature
/// handed out as its bytes. Not proved: that the outcome depends on the
/// characters of `text` alone.
#[verifier::external_body]
fn decode_signature(text: &str) -> (decoded: Result<[u8; 64], DecodeFailure>)
    ensures
        match decoded {
            Ok(bytes) => signature_of_text(text@) == Ok::<Seq<u8>, DecodeFailure>(bytes@),
            Err(failure) => signature_of_text(text@) == Err::<Seq<u8>, DecodeFailure>(failure),
        },
{
    match Signature::from_str(text) {
        Ok(signature) => Ok(signature.into()),
        Err(ParseSignatureError::WrongSize) => Err(DecodeFailure::WrongSize),
        Err(ParseSignatureError::Invalid) => Err(DecodeFailure::Invalid),
    }
}

/// The bytes of a decoded key or signature, as a sequence.
pub open spec fn decoded_view<const N: usize>(decoded: Result<[u8; N], DecodeFailure>) -> Result<
    Seq<u8>,
    DecodeFailure,
> {
    match decoded {
        Ok(bytes) => Ok(bytes@),
        Err(failure) => Err(failure),
    }
}

/// `query` is what a run asks first, given what its address decodes to: the
/// latest signatures of that address, from the newest on and with no
/// signature to stop at, at most `SIGNATURE_LIMIT` of them, from confirmed
/// blocks; or the error of an address that is no public key.
pub open spec fn is_query_for(
    address: Result<Seq<u8>, DecodeFailure>,
    query: Result<SignatureQuery, AssignmentError>,
) -> bool {
    match address {
        Ok(bytes) => query matches Ok(query) && query.address@ == bytes && query.before is None
            && query.until is None && query.limit == SIGNATURE_LIMIT && query.commitment
            == Commitment::Confirmed,
        Err(failure) => query matches Err(error) && error == AssignmentError::PubkeyFromStrError(
            failure,
        ),
    }
}

/// The request for signatures, from the address as it was decoded.
pub fn query_from(address: Result<[u8; 32], DecodeFailure>) -> (query: Result<
    SignatureQuery,
    AssignmentError,
>)
    ensures
        is_query_for(decoded_view(address), query),
{
    match address {
        Ok(address) => Ok(
            SignatureQuery {
                address,
                before: None,
                until: None,
                limit: SIGNATURE_LIMIT,
                commitment: COMMITMENT,
            },
        ),
        Err(failure) => Err(AssignmentError::PubkeyFromStrError(failure)),
    }
}

/// The request for the signatures of the address that `address` is the
/// base58 text of.
pub fn signature_query_for(address: &str) -> (query: Result<SignatureQuery, AssignmentError>)
    ensures
        is_query_for(address_of_text(address@), query),
{
    query_from(decode_address(address))
}

/// The request that a run starts with: the one for the signatures of the
/// token mint.
pub fn signature_query() -> (query: Result<SignatureQuery, AssignmentError>)
    ensures
        is_query_for(address_of_text(PUBKEY@), query),
{
    signature_query_for(PUBKEY)
}

/// The signatures of a list of records, in order.
pub open spec fn signatures_of(records: Seq<SignatureRecord>) -> Seq<Seq<char>> {
    records.map_values(|record: SignatureRecord| record.signature@)
}

/// The walk through the signatures of a run: their transactions are asked
/// for one after the other, in order, and the first failure ends the walk.
pub struct Walk {
    signatures: Vec<String>,
    position: usize,
}

/// A walk that waits for the transaction of one signature.
pub struct Pending {
    signature: [u8; 64],
    rest: Walk,
}

/// What a walk does next.
pub enum Step {
    /// Ask the ledger for the transaction of the signature that `Pending`
    /// holds, and hand it to `Pending::receive`.
    Fetch(Pending),
    /// Every transaction has been seen.
    Finished,
}

impl Walk {
    #[verifier::type_invariant]
    spec fn in_bounds(self) -> bool {
        self.position <= self.signatures@.len()
    }

    /// The signatures whose transactions are still to be asked for.
    pub closed spec fn pending(self) -> Seq<Seq<char>> {
        texts_of(self.signatures@).skip(self.position as int)
    }

    /// Starts a walk through the signatures of `records`.
    pub fn begin(records: &Vec<SignatureRecord>) -> (walk: Walk)
        ensures
            walk.pending() == signatures_of(records@),
    {
        let mut signatures: Vec<String> = Vec::new();
        let mut index: usize = 0;
        while index < records.len()
            invariant
                index <= records.len(),
                signatures@.len() == index,
                forall|i: int| 0 <= i < index ==> #[trigger] signatures@[i] == records@[i].signature,
            decreases records.len() - index,
        {
            signatures.push(records[index].signature.clone());
            index += 1;
        }
        let walk = Walk { signatures, position: 0 };
        assert(walk.pending() =~= signatures_of(records@));
        walk
    }

    /// What comes next, given what the first signature that is left decodes
    /// to: nothing where no signature is left, else the request for the
    /// transaction of that signature, or the error of a text that is no
    /// signature, which ends the walk.
    pub open spec fn is_step_after(
        self,
        decoded: Result<Seq<u8>, DecodeFailure>,
        next: Result<Step, AssignmentError>,
    ) -> bool {
        if self.pending().len() == 0 {
            next matches Ok(Step::Finished)
        } else {
            match decoded {
                Ok(bytes) => next matches Ok(Step::Fetch(pending)) && pending.signature()@ == bytes
                    && pending.rest().pending() == self.pending().drop_first(),
                Err(failure) => next matches Err(error) && error
                    == AssignmentError::SignatureFromStrError(failure),
            }
        }
    }

    /// The step of a walk whose first signature was decoded as `decoded`.
    pub fn step_with(self, decoded: Result<[u8; 64], DecodeFailure>) -> (next: Result<
        Step,
        AssignmentError,
    >)
        ensures
            self.is_step_after(decoded_view(decoded), next),
    {
        proof {
            use_type_invariant(&self);
        }
        if self.position >= self.signatures.len() {
            return Ok(Step::Finished);
        }
        let ghost before = self.pending();
        match decoded {
            Ok(signature) => {
                let rest = Walk { signatures: self.signatures, position: self.position + 1 };
                assert(rest.pending() =~= before.drop_first());
                Ok(Step::Fetch(Pending { signature, rest }))
            },
            Err(failure) => Err(AssignmentError::SignatureFromStrError(failure)),
        }
    }

    /// What comes next: nothing where no signature is left, else the request
    /// for the transaction of the first that is left. A signature that is no
    /// signature ends the walk with an error.
    pub fn step(self) -> (next: Result<Step, AssignmentError>)
        ensures
            self.pending().len() == 0 ==> next matches Ok(Step::Finished),
            self.pending().len() > 0 ==> self.is_step_after(
                signature_of_text(self.pending()[0]),
                next,
            ),
    {
        proof {
            use_type_invariant(&self);
        }
        if self.position >= self.signatures.len() {
            return Ok(Step::Finished);
        }
        let decoded = decode_signature(self.signatures[self.position].as_str());
        self.step_with(decoded)
    }
}

impl Pending {
    /// The walk that goes on after this transaction.
    pub closed spec fn rest(self) -> Walk {
        self.rest
    }

    /// The 64 bytes of the signature whose transaction is awaited.
    pub closed spec fn signature(self) -> [u8; 64] {
        self.signature
    }

    /// The request that the walk waits on: the transaction of its signature,
    /// with the parts of the transaction parsed.
    pub fn query(&self) -> (query: TransactionQuery)
        ensures
            query.signature == self.signature(),
            query.encoding == Encoding::JsonParsed,
    {
        TransactionQuery { signature: self.signature, encoding: Encoding::JsonParsed }
    }

    /// Takes the news that the ledger did not return the transaction: the walk
    /// ends with the error of a failed request.
    pub fn fail(self) -> (error: AssignmentError)
        ensures
            error == AssignmentError::RpcClientError,
    {
        AssignmentError::RpcClientError
    }

    /// Takes the transaction that the ledger returned: says whether it shows
    /// a new user, and hands back the walk to go on with. A transaction that
    /// cannot be read ends the walk with its error.
    pub fn receive(self, transaction: &TransactionRecord) -> (outcome: Result<
        (Option<NewUserData>, Walk),
        AssignmentError,
    >)
        ensures
            match outcome {
                Ok((user, walk)) => outcome_view(Ok(user)) == new_user_of(transaction@) && walk
                    == self.rest(),
                Err(error) => new_user_of(transaction@) == Err::<
                    Option<NewUserDataView>,
                    AssignmentError,
                >(error),
            },
    {
        match check_new_user(transaction) {
            Ok(user) => Ok((user, self.rest)),
            Err(error) => Err(error),
        }
    }
}

} // verus!
