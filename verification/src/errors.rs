use vstd::prelude::*;

verus! {

/// The ways a bridge operation can fail.  Every failure leaves the asset
/// ledger store exactly as it was before the call: an operation either fully
/// commits or has no effect at all.
#[derive(Clone, Copy, PartialEq, Eq, Structural, Debug)]
pub enum Error {
    /// No record matches the asset: `send` and `lock` found no ownership
    /// record for the key, or `unlock` found no pending transfer to reverse.
    NFTNotFound,
    /// An ownership record exists but names a different owner than the caller.
    NotOwner,
    /// The outbound channel refused to deliver the message; nothing was
    /// committed, so the caller may retry the whole `send` from scratch.
    FailedToSendXCM,
    /// The outbound message could not be constructed because this module has
    /// no instance index on the host ledger, so the asset cannot be given a
    /// destination-scoped identity.
    InvalidDestination,
    /// The metadata exceeds 1024 bytes, or the metadata URI exceeds 256 bytes.
    MetadataTooLong,
}

} // verus!
