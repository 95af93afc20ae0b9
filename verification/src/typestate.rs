//! Capability markers shared by every context type.
//!
//! Each capability (signing, encryption, delegation) is tracked by one of a
//! closed family of zero-sized marker types that parameterise the builder
//! and context types. A marker is a static proof: an operation gated on
//! `Signing` cannot be called, or even name-checked, on a context whose
//! marker is `NoSigning` or `MaybeSigning`. The `check_*` operations on a
//! finished context are the only way to turn a `Maybe*` marker into the
//! terminal "can" or "cannot" marker, and they decide by the provider's
//! *returned* attribute word alone.
use vstd::prelude::*;

verus! {

/// Signing was not requested, or the provider did not grant it.
pub struct NoSigning;

/// Signing was requested; not yet confirmed by a finished handshake.
pub struct MaybeSigning;

/// The finished handshake confirmed the integrity capability.
pub struct Signing;

/// Signing was explicitly refused by the caller (this also drops the
/// mutual-authentication requirement on the SSPI backend).
pub struct DeniedSigning;

/// Encryption was not requested, or the provider did not grant it.
pub struct NoEncryption;

/// Encryption was requested; not yet confirmed by a finished handshake.
pub struct MaybeEncryption;

/// The finished handshake confirmed the confidentiality capability.
pub struct Encryption;

/// Delegation was not requested, or the provider did not grant it.
pub struct NoDelegation;

/// Delegation was offered; not yet confirmed by a finished handshake.
pub struct MaybeDelegation;

/// The finished handshake confirmed the delegation capability.
pub struct Delegation;

pub trait SigningSealed {}

impl SigningSealed for NoSigning {}

impl SigningSealed for MaybeSigning {}

impl SigningSealed for Signing {}

impl SigningSealed for DeniedSigning {}

pub trait UnfinishedSigningSealed {}

impl UnfinishedSigningSealed for NoSigning {}

impl UnfinishedSigningSealed for MaybeSigning {}

impl UnfinishedSigningSealed for DeniedSigning {}

pub trait EncryptionSealed {}

impl EncryptionSealed for NoEncryption {}

impl EncryptionSealed for MaybeEncryption {}

impl EncryptionSealed for Encryption {}

pub trait UnfinishedEncryptionSealed {}

impl UnfinishedEncryptionSealed for NoEncryption {}

impl UnfinishedEncryptionSealed for MaybeEncryption {}

pub trait DelegationSealed {}

impl DelegationSealed for NoDelegation {}

impl DelegationSealed for MaybeDelegation {}

impl DelegationSealed for Delegation {}

pub trait UnfinishedDelegationSealed {}

impl UnfinishedDelegationSealed for NoDelegation {}

impl UnfinishedDelegationSealed for MaybeDelegation {}

/// Signing markers that may appear on a finished context.
pub trait SigningState: SigningSealed {}

impl SigningState for NoSigning {}

impl SigningState for MaybeSigning {}

impl SigningState for Signing {}

impl SigningState for DeniedSigning {}

/// Signing markers that may appear before the handshake has finished
/// (the capability cannot have been confirmed yet).
pub trait UnfinishedSigningState: SigningState + UnfinishedSigningSealed {}

impl UnfinishedSigningState for NoSigning {}

impl UnfinishedSigningState for MaybeSigning {}

impl UnfinishedSigningState for DeniedSigning {}

/// Encryption markers that may appear on a finished context.
pub trait EncryptionState: EncryptionSealed {}

impl EncryptionState for NoEncryption {}

impl EncryptionState for MaybeEncryption {}

impl EncryptionState for Encryption {}

/// Encryption markers that may appear before the handshake has finished.
pub trait UnfinishedEncryptionState: EncryptionState + UnfinishedEncryptionSealed {}

impl UnfinishedEncryptionState for NoEncryption {}

impl UnfinishedEncryptionState for MaybeEncryption {}

/// Delegation markers that may appear on a finished context.
pub trait DelegationState: DelegationSealed {}

impl DelegationState for NoDelegation {}

impl DelegationState for MaybeDelegation {}

impl DelegationState for Delegation {}

/// Delegation markers that may appear before the handshake has finished.
pub trait UnfinishedDelegationState: DelegationState + UnfinishedDelegationSealed {}

impl UnfinishedDelegationState for NoDelegation {}

impl UnfinishedDelegationState for MaybeDelegation {}

/// Markers that may parameterise a builder, before any handshake round.
pub trait PreAuthState {}

impl PreAuthState for NoSigning {}

impl PreAuthState for MaybeSigning {}

impl PreAuthState for DeniedSigning {}

impl PreAuthState for NoEncryption {}

impl PreAuthState for MaybeEncryption {}

impl PreAuthState for NoDelegation {}

impl PreAuthState for MaybeDelegation {}

} // verus!
