use vstd::prelude::*;

verus! {

/// A transaction identifier: the 32 bytes of the hash, as four 64-bit
/// little-endian words.
#[derive(Clone, Copy, PartialEq, Eq, Structural, Debug)]
pub struct Txid {
    pub w0: u64,
    pub w1: u64,
    pub w2: u64,
    pub w3: u64,
}

/// A reference to one output of one transaction.
#[derive(Clone, Copy, PartialEq, Eq, Structural, Debug)]
pub struct OutPoint {
    pub txid: Txid,
    pub vout: u32,
}

/// A specific byte offset within a specific transaction output; pins the
/// location of an inscription.
#[derive(Clone, Copy, PartialEq, Eq, Structural, Debug)]
pub struct SatPoint {
    pub outpoint: OutPoint,
    pub offset: u64,
}

/// The identifier of an inscription: the transaction that revealed it and
/// the index of the inscription within that transaction.
#[derive(Clone, Copy, PartialEq, Eq, Structural, Debug)]
pub struct InscriptionId {
    pub txid: Txid,
    pub index: u32,
}

/// A fee rate in millisatoshis per virtual byte, so that fractional
/// satoshi-per-vbyte rates are carried exactly.
#[derive(Clone, Copy, PartialEq, Eq, Structural, Debug)]
pub struct FeeRate {
    pub millisats_per_vb: u64,
}

/// What the user asked to send: a raw location, an inscription by
/// identifier, or a plain amount of satoshis with no inscription or rune
/// semantics.
#[derive(Clone, Copy, PartialEq, Eq, Structural, Debug)]
pub enum Outgoing {
    SatPoint(SatPoint),
    InscriptionId(InscriptionId),
    Amount(u64),
}

/// Why a raw satpoint target was rejected.
#[derive(Clone, Copy, PartialEq, Eq, Structural, Debug)]
pub enum InvalidTargetReason {
    /// The satpoint coincides with an inscription's location; inscriptions
    /// must be sent by inscription identifier.
    InscriptionLocation,
    /// The satpoint's output carries rune balances and may not be sent by
    /// satpoint.
    RunicOutput,
}

/// Every way a send request can fail, by the stage that failed.
#[derive(Clone, PartialEq, Eq, Debug)]
pub enum SendError {
    /// Mutually exclusive options were supplied together: a plain-amount
    /// send combined with coin control or explicit outputs.
    InvalidRequest,
    /// The requested satpoint target is not a spendable target.
    InvalidTarget(InvalidTargetReason),
    /// The inscription identifier does not resolve to a known satpoint.
    NotFound(InscriptionId),
    /// The node refused to lock the protected outputs.
    LockFailed,
    /// The transaction builder could not assemble a valid transaction;
    /// carries the builder's message unchanged.
    SelectionFailed(String),
    /// The node refused to sign the transaction; carries the node's
    /// message unchanged.
    SigningFailed(String),
    /// The node refused to relay the transaction or to perform the direct
    /// transfer; carries the node's message unchanged.
    BroadcastFailed(String),
}

/// The identifier of the transaction broadcast on success: the sole
/// externally observable result of a completed send.
#[derive(Clone, Copy, PartialEq, Eq, Structural, Debug)]
pub struct Output {
    pub transaction: Txid,
}

} // verus!
