//! A cross-chain bridge for unique, non-divisible assets.
//!
//! An asset recorded on the local ledger can be sent to a remote ledger by
//! locking it here, emitting an outbound message that carries the asset's
//! identity and metadata, and later either confirming receipt on the remote
//! side or rolling the transfer back.  The bridge keeps the asset from ever
//! being owned on both sides at once: for every asset it holds at most one of
//! an ownership record and a pending-transfer record.
//!
//! The host ledger's authentication, its transactional execution engine and
//! the message transport are collaborators, not part of this crate: the
//! transport is injected as an [`pallet::OutboundChannel`] and the embedder
//! authenticates callers before invoking the privileged operations.

pub mod errors;
pub mod events;
pub mod location;
pub mod encoding;
pub mod message;
pub mod store;
pub mod pallet;
pub mod laws;
