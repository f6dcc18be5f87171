//! Gas units, and the tables of what the native functions cost, with the
//! all-zero tables the natives are set up with.

use vstd::prelude::*;

verus! {

/// Unit of (external) gas; a type-level tag only.
pub struct GasUnit;

/// Unit of gas currency; a type-level tag only.
pub struct Octa;

/// Unit of the abstract size of a Move value; a type-level tag only.
pub struct AbstractValueUnit;

/// An amount of internal gas.
pub type InternalGas = u64;

/// The costs of the BLS12-381 signature natives.
#[derive(Debug, Clone, Copy)]
pub struct Bls12381GasParameters {
    pub base: InternalGas,
    pub per_pairing: InternalGas,
    pub per_msg: InternalGas,
    pub per_byte: InternalGas,
    pub per_pubkey_deserialize: InternalGas,
    pub per_pubkey_aggregate: InternalGas,
    pub per_pubkey_subgroup_check: InternalGas,
    pub per_sig_verify: InternalGas,
    pub per_sig_deserialize: InternalGas,
    pub per_sig_aggregate: InternalGas,
    pub per_sig_subgroup_check: InternalGas,
    pub per_proof_of_possession_verify: InternalGas,
}

impl Bls12381GasParameters {
    /// Every cost is zero.
    pub open spec fn is_zero(&self) -> bool {
        self.base == 0
        && self.per_pairing == 0
        && self.per_msg == 0
        && self.per_byte == 0
        && self.per_pubkey_deserialize == 0
        && self.per_pubkey_aggregate == 0
        && self.per_pubkey_subgroup_check == 0
        && self.per_sig_verify == 0
        && self.per_sig_deserialize == 0
        && self.per_sig_aggregate == 0
        && self.per_sig_subgroup_check == 0
        && self.per_proof_of_possession_verify == 0
    }

    pub fn zeros() -> (r: Bls12381GasParameters)
        ensures
            r.is_zero(),
    {
        Bls12381GasParameters { base: 0, per_pairing: 0, per_msg: 0, per_byte: 0, per_pubkey_deserialize: 0, per_pubkey_aggregate: 0, per_pubkey_subgroup_check: 0, per_sig_verify: 0, per_sig_deserialize: 0, per_sig_aggregate: 0, per_sig_subgroup_check: 0, per_proof_of_possession_verify: 0 }
    }
}

/// The costs of the Ed25519 signature natives.
#[derive(Debug, Clone, Copy)]
pub struct Ed25519GasParameters {
    pub base: InternalGas,
    pub per_pubkey_deserialize: InternalGas,
    pub per_pubkey_small_order_check: InternalGas,
    pub per_sig_deserialize: InternalGas,
    pub per_sig_strict_verify: InternalGas,
    pub per_msg_hashing_base: InternalGas,
    pub per_msg_byte_hashing: InternalGas,
}

impl Ed25519GasParameters {
    /// Every cost is zero.
    pub open spec fn is_zero(&self) -> bool {
        self.base == 0
        && self.per_pubkey_deserialize == 0
        && self.per_pubkey_small_order_check == 0
        && self.per_sig_deserialize == 0
        && self.per_sig_strict_verify == 0
        && self.per_msg_hashing_base == 0
        && self.per_msg_byte_hashing == 0
    }

    pub fn zeros() -> (r: Ed25519GasParameters)
        ensures
            r.is_zero(),
    {
        Ed25519GasParameters { base: 0, per_pubkey_deserialize: 0, per_pubkey_small_order_check: 0, per_sig_deserialize: 0, per_sig_strict_verify: 0, per_msg_hashing_base: 0, per_msg_byte_hashing: 0 }
    }
}

/// The costs of the secp256k1 signature natives.
#[derive(Debug, Clone, Copy)]
pub struct Secp256k1GasParameters {
    pub base: InternalGas,
    pub ecdsa_recover: InternalGas,
}

impl Secp256k1GasParameters {
    /// Every cost is zero.
    pub open spec fn is_zero(&self) -> bool {
        self.base == 0
        && self.ecdsa_recover == 0
    }

    pub fn zeros() -> (r: Secp256k1GasParameters)
        ensures
            r.is_zero(),
    {
        Secp256k1GasParameters { base: 0, ecdsa_recover: 0 }
    }
}

/// The costs of `type_of`.
#[derive(Debug, Clone, Copy)]
pub struct TypeOfGasParameters {
    pub base: InternalGas,
    pub unit: InternalGas,
}

impl TypeOfGasParameters {
    /// Every cost is zero.
    pub open spec fn is_zero(&self) -> bool {
        self.base == 0
        && self.unit == 0
    }

    pub fn zeros() -> (r: TypeOfGasParameters)
        ensures
            r.is_zero(),
    {
        TypeOfGasParameters { base: 0, unit: 0 }
    }
}

/// The costs of `name_of_type`.
#[derive(Debug, Clone, Copy)]
pub struct TypeNameGasParameters {
    pub base: InternalGas,
    pub unit: InternalGas,
}

impl TypeNameGasParameters {
    /// Every cost is zero.
    pub open spec fn is_zero(&self) -> bool {
        self.base == 0
        && self.unit == 0
    }

    pub fn zeros() -> (r: TypeNameGasParameters)
        ensures
            r.is_zero(),
    {
        TypeNameGasParameters { base: 0, unit: 0 }
    }
}

/// The costs of `from_bytes`.
#[derive(Debug, Clone, Copy)]
pub struct FromBytesGasParameters {
    pub base: InternalGas,
    pub unit: InternalGas,
}

impl FromBytesGasParameters {
    /// Every cost is zero.
    pub open spec fn is_zero(&self) -> bool {
        self.base == 0
        && self.unit == 0
    }

    pub fn zeros() -> (r: FromBytesGasParameters)
        ensures
            r.is_zero(),
    {
        FromBytesGasParameters { base: 0, unit: 0 }
    }
}

/// The costs of `request_publish`.
#[derive(Debug, Clone, Copy)]
pub struct RequestPublishGasParameters {
    pub base: InternalGas,
    pub unit: InternalGas,
}

impl RequestPublishGasParameters {
    /// Every cost is zero.
    pub open spec fn is_zero(&self) -> bool {
        self.base == 0
        && self.unit == 0
    }

    pub fn zeros() -> (r: RequestPublishGasParameters)
        ensures
            r.is_zero(),
    {
        RequestPublishGasParameters { base: 0, unit: 0 }
    }
}

/// The cost of `balance`.
#[derive(Debug, Clone, Copy)]
pub struct BalanceGasParameters {
    pub base: InternalGas,
}

impl BalanceGasParameters {
    /// Every cost is zero.
    pub open spec fn is_zero(&self) -> bool {
        self.base == 0
    }

    pub fn zeros() -> (r: BalanceGasParameters)
        ensures
            r.is_zero(),
    {
        BalanceGasParameters { base: 0 }
    }
}

/// The cost of `transfer`.
#[derive(Debug, Clone, Copy)]
pub struct TransferGasParameters {
    pub base: InternalGas,
}

impl TransferGasParameters {
    /// Every cost is zero.
    pub open spec fn is_zero(&self) -> bool {
        self.base == 0
    }

    pub fn zeros() -> (r: TransferGasParameters)
        ensures
            r.is_zero(),
    {
        TransferGasParameters { base: 0 }
    }
}

/// The costs of the signature natives.
#[derive(Debug, Clone, Copy)]
pub struct SignatureGasParameters {
    pub bls12381: Bls12381GasParameters,
    pub ed25519: Ed25519GasParameters,
    pub secp256k1: Secp256k1GasParameters,
}

impl SignatureGasParameters {
    /// Every cost is zero.
    pub open spec fn is_zero(&self) -> bool {
        self.bls12381.is_zero()
        && self.ed25519.is_zero()
        && self.secp256k1.is_zero()
    }

    pub fn zeros() -> (r: SignatureGasParameters)
        ensures
            r.is_zero(),
    {
        SignatureGasParameters { bls12381: Bls12381GasParameters::zeros(), ed25519: Ed25519GasParameters::zeros(), secp256k1: Secp256k1GasParameters::zeros() }
    }
}

/// The costs of the type-info natives.
#[derive(Debug, Clone, Copy)]
pub struct TypeInfoGasParameters {
    pub type_of: TypeOfGasParameters,
    pub name_of_type: TypeNameGasParameters,
}

impl TypeInfoGasParameters {
    /// Every cost is zero.
    pub open spec fn is_zero(&self) -> bool {
        self.type_of.is_zero()
        && self.name_of_type.is_zero()
    }

    pub fn zeros() -> (r: TypeInfoGasParameters)
        ensures
            r.is_zero(),
    {
        TypeInfoGasParameters { type_of: TypeOfGasParameters::zeros(), name_of_type: TypeNameGasParameters::zeros() }
    }
}

/// The costs of the utility natives.
#[derive(Debug, Clone, Copy)]
pub struct UtilGasParameters {
    pub from_bytes: FromBytesGasParameters,
}

impl UtilGasParameters {
    /// Every cost is zero.
    pub open spec fn is_zero(&self) -> bool {
        self.from_bytes.is_zero()
    }

    pub fn zeros() -> (r: UtilGasParameters)
        ensures
            r.is_zero(),
    {
        UtilGasParameters { from_bytes: FromBytesGasParameters::zeros() }
    }
}

/// The costs of the code-publishing natives.
#[derive(Debug, Clone, Copy)]
pub struct CodeGasParameters {
    pub request_publish: RequestPublishGasParameters,
}

impl CodeGasParameters {
    /// Every cost is zero.
    pub open spec fn is_zero(&self) -> bool {
        self.request_publish.is_zero()
    }

    pub fn zeros() -> (r: CodeGasParameters)
        ensures
            r.is_zero(),
    {
        CodeGasParameters { request_publish: RequestPublishGasParameters::zeros() }
    }
}

/// The costs of the Nova natives.
#[derive(Debug, Clone, Copy)]
pub struct NativeGasParameters {
    pub signature: SignatureGasParameters,
    pub type_info: TypeInfoGasParameters,
    pub util: UtilGasParameters,
    pub code: CodeGasParameters,
}

impl NativeGasParameters {
    /// Every cost is zero.
    pub open spec fn is_zero(&self) -> bool {
        self.signature.is_zero()
        && self.type_info.is_zero()
        && self.util.is_zero()
        && self.code.is_zero()
    }

    pub fn zeros() -> (r: NativeGasParameters)
        ensures
            r.is_zero(),
    {
        NativeGasParameters { signature: SignatureGasParameters::zeros(), type_info: TypeInfoGasParameters::zeros(), util: UtilGasParameters::zeros(), code: CodeGasParameters::zeros() }
    }
}

/// The costs of the bank natives.
#[derive(Debug, Clone, Copy)]
pub struct BankGasParameters {
    pub balance: BalanceGasParameters,
    pub transfer: TransferGasParameters,
}

impl BankGasParameters {
    /// Every cost is zero.
    pub open spec fn is_zero(&self) -> bool {
        self.balance.is_zero()
        && self.transfer.is_zero()
    }

    pub fn zeros() -> (r: BankGasParameters)
        ensures
            r.is_zero(),
    {
        BankGasParameters { balance: BalanceGasParameters::zeros(), transfer: TransferGasParameters::zeros() }
    }
}

/// The costs of the kernel standard library natives.
#[derive(Debug, Clone, Copy)]
pub struct KernelStdlibGasParameters {
    pub bank: BankGasParameters,
}

impl KernelStdlibGasParameters {
    /// Every cost is zero.
    pub open spec fn is_zero(&self) -> bool {
        self.bank.is_zero()
    }

    pub fn zeros() -> (r: KernelStdlibGasParameters)
        ensures
            r.is_zero(),
    {
        KernelStdlibGasParameters { bank: BankGasParameters::zeros() }
    }
}

/// The cost of `canonicalize_address`.
#[derive(Debug, Clone, Copy)]
pub struct CanonicalizeAddressGasParameters {
    pub base: InternalGas,
}

/// The cost of `humanize_address`.
#[derive(Debug, Clone, Copy)]
pub struct HumanizeAddressGasParameters {
    pub base: InternalGas,
}

/// The costs of the address natives.
#[derive(Debug, Clone, Copy)]
pub struct AddressGasParameters {
    pub canonicalize_address: CanonicalizeAddressGasParameters,
    pub humanize_address: HumanizeAddressGasParameters,
}

/// The cost of `get_block_info_internal`.
#[derive(Debug, Clone, Copy)]
pub struct GetBlockInfoGasParameters {
    pub base_cost: InternalGas,
}

/// The costs of the block natives.
#[derive(Debug, Clone, Copy)]
pub struct BlockGasParameters {
    pub get_block_info: GetBlockInfoGasParameters,
}

} // verus!
