//! Checks on the arguments of a script or entry function call: the signers
//! come from the message's senders, the other arguments must be of types a
//! transaction may pass, and an address argument must not name a table.

use crate::bcs_format::{bcs_decode_address, be_bytes_u128};
use crate::table_meta::data_cache::TableMetaResolver;
use crate::table_meta::TableMetaType;
use crate::text::str_eq;
use crate::vm_error::VMStatus;
use crate::vm_status::{
    BAD_MAGIC, FAILED_TO_DESERIALIZE_ARGUMENT, INVALID_MAIN_FUNCTION_SIGNATURE,
    NUMBER_OF_ARGUMENTS_MISMATCH, NUMBER_OF_SIGNER_ARGUMENTS_MISMATCH, VMError,
};
use vstd::prelude::*;

verus! {

/// A parameter type of a loaded Move function, as argument checks see it.
#[derive(Debug)]
pub enum ParamType {
    Bool,
    U8,
    U64,
    U128,
    Address,
    Signer,
    Vector(Box<ParamType>),
    /// A struct type, or an instantiation of one, with its full name
    /// (`<module address>::<module>::<struct>`); `None` where the type could
    /// not be found.
    Struct(Option<String>),
    Reference(Box<ParamType>),
    MutableReference(Box<ParamType>),
    TyParam(u16),
}

/// The one struct a transaction may pass as an argument.
pub open spec fn allowed_struct(name: Seq<char>) -> bool {
    name == "0x1::string::String"@
}

/// Whether a transaction may pass an argument of type `ty`: a primitive, the
/// allowed struct, or a vector of such.
pub open spec fn valid_txn_arg(ty: ParamType) -> bool
    decreases ty,
{
    match ty {
        ParamType::Bool | ParamType::U8 | ParamType::U64 | ParamType::U128
        | ParamType::Address => true,
        ParamType::Vector(inner) => valid_txn_arg(*inner),
        ParamType::Struct(name) => match name {
            Some(n) => allowed_struct(n@),
            None => false,
        },
        _ => false,
    }
}

/// Whether `ty` is a signer or a reference to one.
pub open spec fn is_signer_param(ty: ParamType) -> bool {
    match ty {
        ParamType::Signer => true,
        ParamType::Reference(inner) => *inner is Signer,
        _ => false,
    }
}

/// The number of signer parameters among the first `n` of `params`.
pub open spec fn signer_count(params: Seq<ParamType>, n: int) -> nat
    decreases n,
{
    if n <= 0 {
        0
    } else {
        signer_count(params, n - 1) + if is_signer_param(params[n - 1]) {
            1nat
        } else {
            0nat
        }
    }
}

/// The plain content of a list of byte vectors.
pub open spec fn blobs_view(v: Seq<Vec<u8>>) -> Seq<Seq<u8>> {
    v.map_values(|b: Vec<u8>| b@)
}

/// What argument validation comes to: the combined arguments, or the status
/// code it fails with.
pub open spec fn combined_args(senders: Seq<u128>, args: Seq<Seq<u8>>, params: Seq<ParamType>) -> Result<
    Seq<Seq<u8>>,
    u64,
> {
    let count = signer_count(params, params.len() as int);
    if exists|i: int| count <= i < params.len() && !valid_txn_arg(#[trigger] params[i]) {
        Err(INVALID_MAIN_FUNCTION_SIGNATURE)
    } else if count + args.len() != params.len() {
        Err(NUMBER_OF_ARGUMENTS_MISMATCH)
    } else if count == 0 {
        Ok(args)
    } else if senders.len() != count {
        Err(NUMBER_OF_SIGNER_ARGUMENTS_MISMATCH)
    } else {
        Ok(senders.map_values(|s: u128| be_bytes_u128(s)) + args)
    }
}

/// A call that passes validation gets exactly one argument per parameter,
/// and without signer parameters the arguments are the transaction's own.
pub proof fn lemma_combined_args_fill_params(senders: Seq<u128>, args: Seq<Seq<u8>>, params: Seq<ParamType>)
    ensures
        combined_args(senders, args, params) matches Ok(all) ==> all.len() == params.len(),
        combined_args(senders, args, params) matches Ok(all) ==> all.subrange(
            all.len() - args.len(),
            all.len() as int,
        ) == args,
{
    if let Ok(all) = combined_args(senders, args, params) {
        let count = signer_count(params, params.len() as int);
        if count == 0 {
            assert(all.subrange(0, all.len() as int) =~= args);
        } else {
            let signers = senders.map_values(|s: u128| be_bytes_u128(s));
            assert(all == signers + args);
            assert(all.subrange(all.len() - args.len(), all.len() as int) =~= args);
        }
    }
}

/// A vector is a type a transaction may pass exactly when its elements'
/// type is (so `vector<vector<u8>>` is, since `vector<u8>` is).
pub proof fn lemma_vector_arg_valid_iff_element(t: ParamType)
    ensures
        valid_txn_arg(ParamType::Vector(Box::new(t))) == valid_txn_arg(t),
{
}

proof fn lemma_signer_count_update(params: Seq<ParamType>, i: int, t: ParamType, n: int)
    requires
        0 <= i < params.len(),
        n <= params.len(),
        !is_signer_param(params[i]),
        !is_signer_param(t),
    ensures
        signer_count(params.update(i, t), n) == signer_count(params, n),
    decreases n,
{
    if n > 0 {
        lemma_signer_count_update(params, i, t, n - 1);
    }
}

/// Taking a parameter that is not a signer as a vector of its type changes
/// nothing in how a call's arguments are validated: the call is accepted
/// (with the same arguments) or refused (with the same code) as before.
pub proof fn lemma_vector_param_validates_alike(
    senders: Seq<u128>,
    args: Seq<Seq<u8>>,
    params: Seq<ParamType>,
    i: int,
)
    requires
        0 <= i < params.len(),
        !is_signer_param(params[i]),
    ensures
        combined_args(senders, args, params.update(i, ParamType::Vector(Box::new(params[i]))))
            == combined_args(senders, args, params),
{
    let t = ParamType::Vector(Box::new(params[i]));
    let q = params.update(i, t);
    lemma_signer_count_update(params, i, t, params.len() as int);
    let count = signer_count(params, params.len() as int);
    assert(valid_txn_arg(q[i]) == valid_txn_arg(params[i]));
    assert((exists|j: int| count <= j < q.len() && !valid_txn_arg(#[trigger] q[j])) == (exists|j: int|
        count <= j < params.len() && !valid_txn_arg(#[trigger] params[j]))) by {
        if exists|j: int| count <= j < q.len() && !valid_txn_arg(#[trigger] q[j]) {
            let j = choose|j: int| count <= j < q.len() && !valid_txn_arg(#[trigger] q[j]);
            assert(!valid_txn_arg(params[j]));
        }
        if exists|j: int| count <= j < params.len() && !valid_txn_arg(#[trigger] params[j]) {
            let j = choose|j: int| count <= j < params.len() && !valid_txn_arg(#[trigger] params[j]);
            assert(!valid_txn_arg(q[j]));
        }
    }
}

fn is_signer_type(ty: &ParamType) -> (r: bool)
    ensures
        r == is_signer_param(*ty),
{
    match ty {
        ParamType::Signer => true,
        ParamType::Reference(inner) => match **inner {
            ParamType::Signer => true,
            _ => false,
        },
        _ => false,
    }
}

/// Whether a transaction may pass an argument of type `typ`.
pub fn is_valid_txn_arg(typ: &ParamType) -> (r: bool)
    ensures
        r == valid_txn_arg(*typ),
    decreases typ,
{
    match typ {
        ParamType::Bool | ParamType::U8 | ParamType::U64 | ParamType::U128
        | ParamType::Address => true,
        ParamType::Vector(inner) => is_valid_txn_arg(inner),
        ParamType::Struct(name) => match name {
            Some(n) => str_eq(n.as_str(), "0x1::string::String"),
            None => false,
        },
        ParamType::Signer | ParamType::Reference(_) | ParamType::MutableReference(_)
        | ParamType::TyParam(_) => false,
    }
}

/// `MoveValue::Signer(address).simple_serialize()` of `move_core_types`.
/// Claimed, as its source shows: a signer serializes as its address, and an
/// address (16 bytes) as those bytes in order; it never fails.
#[verifier::external_body]
fn serialize_signer(address: u128) -> (r: Option<Vec<u8>>)
    ensures
        r is Some,
        r matches Some(bytes) ==> bytes@ == be_bytes_u128(address),
{
    move_core_types::value::MoveValue::Signer(
        move_core_types::account_address::AccountAddress::new(address.to_be_bytes()),
    ).simple_serialize()
}

/// Validates a call's arguments and puts the signers in front of them.
/// Every signer parameter (a signer or a reference to one) is counted; the
/// parameters after that many must be of types a transaction may pass. The
/// arguments given must fill the other parameters. Without signer
/// parameters the arguments are used as they are; otherwise there must be
/// one sender per signer, and the senders (as signer values) come first.
pub fn validate_combine_signer_and_txn_args(
    senders: Vec<u128>,
    args: Vec<Vec<u8>>,
    params: &Vec<ParamType>,
) -> (r: Result<Vec<Vec<u8>>, VMStatus>)
    ensures
        match combined_args(senders@, blobs_view(args@), params@) {
            Ok(all) => r matches Ok(v) && blobs_view(v@) == all,
            Err(code) => r == Err::<Vec<Vec<u8>>, VMStatus>(VMStatus::Error(code)),
        },
{
    let mut signer_param_cnt: usize = 0;
    let mut i: usize = 0;
    // find all signer params
    while i < params.len()
        invariant
            i <= params.len(),
            signer_param_cnt == signer_count(params@, i as int),
            signer_param_cnt <= i,
        decreases params.len() - i,
    {
        if is_signer_type(&params[i]) {
            signer_param_cnt = signer_param_cnt + 1;
        }
        i = i + 1;
    }
    // validate all non-signer params
    let mut j: usize = signer_param_cnt;
    while j < params.len()
        invariant
            signer_param_cnt == signer_count(params@, params@.len() as int),
            signer_param_cnt <= j <= params.len(),
            forall|k: int| signer_param_cnt <= k < j ==> valid_txn_arg(#[trigger] params@[k]),
        decreases params.len() - j,
    {
        if !is_valid_txn_arg(&params[j]) {
            return Err(VMStatus::Error(INVALID_MAIN_FUNCTION_SIGNATURE));
        }
        j = j + 1;
    }
    if args.len() != params.len() - signer_param_cnt {
        return Err(VMStatus::Error(NUMBER_OF_ARGUMENTS_MISMATCH));
    }
    // if the function doesn't take signers, the transaction's arguments are
    // used as they are; otherwise the senders must match the signers, and
    // come in front of the arguments
    if signer_param_cnt == 0 {
        return Ok(args);
    }
    if senders.len() != signer_param_cnt {
        return Err(VMStatus::Error(NUMBER_OF_SIGNER_ARGUMENTS_MISMATCH));
    }
    let mut combined: Vec<Vec<u8>> = Vec::new();
    let mut k: usize = 0;
    while k < senders.len()
        invariant
            k <= senders.len(),
            combined@.len() == k,
            forall|j: int| 0 <= j < k ==> (#[trigger] combined@[j])@ == be_bytes_u128(senders@[j]),
        decreases senders.len() - k,
    {
        let bytes = serialize_signer(senders[k]).unwrap();
        combined.push(bytes);
        k = k + 1;
    }
    proof {
        assert(blobs_view(combined@) =~= senders@.map_values(|s: u128| be_bytes_u128(s)));
    }
    let mut args = args;
    let ghost prefix = blobs_view(combined@);
    let ghost rest = blobs_view(args@);
    combined.append(&mut args);
    proof {
        assert(blobs_view(combined@) =~= prefix + rest);
    }
    Ok(combined)
}

/// The check on one argument: an address argument must decode as an
/// address, reading the stored table metadata for it must not fail, and an
/// address with a stored table owner (a table's handle) is refused. Other
/// arguments pass.
pub open spec fn address_arg_check<S: TableMetaResolver>(remote: &S, ty: ParamType, bytes: Seq<u8>) -> Result<
    (),
    u64,
> {
    if !(ty is Address) {
        Ok(())
    } else if bytes.len() != 16 {
        Err(FAILED_TO_DESERIALIZE_ARGUMENT)
    } else {
        match remote.table_meta(
            choose|a: u128| #[trigger] be_bytes_u128(a) == bytes,
            TableMetaType::Owner,
        ) {
            Err(_) => Err(FAILED_TO_DESERIALIZE_ARGUMENT),
            Ok(Some(_)) => Err(BAD_MAGIC),
            Ok(None) => Ok(()),
        }
    }
}

/// The checks on the first `n` arguments, in order; the first failure is reported.
pub open spec fn address_args_check<S: TableMetaResolver>(
    remote: &S,
    types: Seq<ParamType>,
    args: Seq<Seq<u8>>,
    n: int,
) -> Result<(), u64>
    decreases n,
{
    if n <= 0 {
        Ok(())
    } else {
        match address_args_check(remote, types, args, n - 1) {
            Err(code) => Err(code),
            Ok(()) => address_arg_check(remote, types[n - 1], args[n - 1]),
        }
    }
}

/// Once an argument check fails, the checks over longer prefixes fail the same way.
pub proof fn lemma_address_args_check_stops<S: TableMetaResolver>(
    remote: &S,
    types: Seq<ParamType>,
    args: Seq<Seq<u8>>,
    k: int,
    m: int,
)
    requires
        0 <= k <= m,
        address_args_check(remote, types, args, k) is Err,
    ensures
        address_args_check(remote, types, args, m) == address_args_check(remote, types, args, k),
    decreases m,
{
    if m > k {
        lemma_address_args_check_stops(remote, types, args, k, m - 1);
    }
}

/// An address argument passes its check exactly when it is the 16-byte
/// encoding of an address whose stored owner metadata reads as none (an
/// address that is not a table's handle); any other argument passes.
proof fn lemma_address_arg_passes_iff<S: TableMetaResolver>(remote: &S, ty: ParamType, bytes: Seq<u8>)
    ensures
        address_arg_check(remote, ty, bytes) is Ok <==> (ty is Address ==> exists|b: u128|
            #[trigger] be_bytes_u128(b) == bytes && remote.table_meta(b, TableMetaType::Owner) == Ok::<
                Option<Seq<u8>>,
                VMError,
            >(None)),
{
    if ty is Address {
        if bytes.len() == 16 {
            crate::bcs_format::lemma_be_bytes_u128_onto(bytes);
            let c = choose|a: u128| #[trigger] be_bytes_u128(a) == bytes;
            if exists|b: u128|
                #[trigger] be_bytes_u128(b) == bytes && remote.table_meta(b, TableMetaType::Owner)
                    == Ok::<Option<Seq<u8>>, VMError>(None) {
                let b = choose|b: u128|
                    #[trigger] be_bytes_u128(b) == bytes && remote.table_meta(b, TableMetaType::Owner)
                        == Ok::<Option<Seq<u8>>, VMError>(None);
                crate::bcs_format::lemma_be_bytes_u128_injective(b, c);
            }
        } else {
            assert forall|b: u128| #[trigger] be_bytes_u128(b) != bytes by {
                assert(be_bytes_u128(b).len() == 16);
            }
        }
    }
}

/// The argument checks over the first `n` arguments pass exactly when every
/// address argument among them, wherever it stands, is the 16-byte encoding
/// of an address that is not a table's handle (its stored owner metadata
/// reads as none).
pub proof fn lemma_address_args_pass_iff<S: TableMetaResolver>(
    remote: &S,
    types: Seq<ParamType>,
    args: Seq<Seq<u8>>,
    n: int,
)
    requires
        0 <= n <= types.len(),
        n <= args.len(),
    ensures
        address_args_check(remote, types, args, n) is Ok <==> forall|j: int|
            0 <= j < n && (#[trigger] types[j]) is Address ==> exists|b: u128|
                #[trigger] be_bytes_u128(b) == args[j] && remote.table_meta(b, TableMetaType::Owner)
                    == Ok::<Option<Seq<u8>>, VMError>(None),
    decreases n,
{
    if n > 0 {
        lemma_address_args_pass_iff(remote, types, args, n - 1);
        lemma_address_arg_passes_iff(remote, types[n - 1], args[n - 1]);
    }
}

/// An address argument that is a table's handle is refused with
/// `BAD_MAGIC` when every address argument before it passes, wherever it
/// stands among the arguments checked.
pub proof fn lemma_table_address_refused<S: TableMetaResolver>(
    remote: &S,
    types: Seq<ParamType>,
    args: Seq<Seq<u8>>,
    n: int,
    i: int,
    a: u128,
)
    requires
        0 <= i < n <= types.len(),
        n <= args.len(),
        types[i] is Address,
        be_bytes_u128(a) == args[i],
        remote.table_meta(a, TableMetaType::Owner) matches Ok(Some(_)),
        forall|j: int|
            0 <= j < i && (#[trigger] types[j]) is Address ==> exists|b: u128|
                #[trigger] be_bytes_u128(b) == args[j] && remote.table_meta(b, TableMetaType::Owner)
                    == Ok::<Option<Seq<u8>>, VMError>(None),
    ensures
        address_args_check(remote, types, args, n) == Err::<(), u64>(BAD_MAGIC),
{
    lemma_address_args_pass_iff(remote, types, args, i);
    let c = choose|x: u128| #[trigger] be_bytes_u128(x) == args[i];
    crate::bcs_format::lemma_be_bytes_u128_injective(a, c);
    assert(args[i].len() == 16);
    assert(address_args_check(remote, types, args, i + 1) == Err::<(), u64>(BAD_MAGIC));
    lemma_address_args_check_stops(remote, types, args, i + 1, n);
}

/// An address argument that is not 16 bytes long, or whose table metadata
/// cannot be read, is refused with `FAILED_TO_DESERIALIZE_ARGUMENT` when
/// every address argument before it passes.
pub proof fn lemma_unreadable_address_refused<S: TableMetaResolver>(
    remote: &S,
    types: Seq<ParamType>,
    args: Seq<Seq<u8>>,
    n: int,
    i: int,
)
    requires
        0 <= i < n <= types.len(),
        n <= args.len(),
        types[i] is Address,
        args[i].len() != 16 || exists|a: u128|
            #[trigger] be_bytes_u128(a) == args[i] && remote.table_meta(a, TableMetaType::Owner) is Err,
        forall|j: int|
            0 <= j < i && (#[trigger] types[j]) is Address ==> exists|b: u128|
                #[trigger] be_bytes_u128(b) == args[j] && remote.table_meta(b, TableMetaType::Owner)
                    == Ok::<Option<Seq<u8>>, VMError>(None),
    ensures
        address_args_check(remote, types, args, n) == Err::<(), u64>(FAILED_TO_DESERIALIZE_ARGUMENT),
{
    lemma_address_args_pass_iff(remote, types, args, i);
    if args[i].len() == 16 {
        let a = choose|a: u128|
            #[trigger] be_bytes_u128(a) == args[i] && remote.table_meta(a, TableMetaType::Owner) is Err;
        let c = choose|x: u128| #[trigger] be_bytes_u128(x) == args[i];
        crate::bcs_format::lemma_be_bytes_u128_injective(a, c);
    }
    assert(address_args_check(remote, types, args, i + 1) == Err::<(), u64>(
        FAILED_TO_DESERIALIZE_ARGUMENT,
    ));
    lemma_address_args_check_stops(remote, types, args, i + 1, n);
}

/// A parameter type wrapped in any number of vectors.
pub open spec fn vector_of(t: ParamType, depth: nat) -> ParamType
    decreases depth,
{
    if depth == 0 {
        t
    } else {
        ParamType::Vector(Box::new(vector_of(t, (depth - 1) as nat)))
    }
}

/// However deeply vectors are nested, the type is one a transaction may
/// pass exactly when its innermost element type is.
pub proof fn lemma_nested_vector_arg_valid(t: ParamType, depth: nat)
    ensures
        valid_txn_arg(vector_of(t, depth)) == valid_txn_arg(t),
    decreases depth,
{
    if depth > 0 {
        lemma_nested_vector_arg_valid(t, (depth - 1) as nat);
        lemma_vector_arg_valid_iff_element(vector_of(t, (depth - 1) as nat));
    }
}

/// Whether `addr` is a table's handle: it has stored owner metadata. A
/// failed read is reported as `FAILED_TO_DESERIALIZE_ARGUMENT`.
pub fn is_table_addr<S: TableMetaResolver>(remote: &S, addr: u128) -> (r: Result<bool, VMError>)
    ensures
        match remote.table_meta(addr, TableMetaType::Owner) {
            Err(_) => r matches Err(e) && e.major_status == FAILED_TO_DESERIALIZE_ARGUMENT
                && e.message is None,
            Ok(v) => r == Ok::<bool, VMError>(v is Some),
        },
{
    let owner = match remote.get_table_meta(&addr, TableMetaType::Owner) {
        Ok(o) => o,
        Err(_) => {
            return Err(VMError::new(FAILED_TO_DESERIALIZE_ARGUMENT));
        },
    };
    match owner {
        Some(_) => Ok(true),
        None => Ok(false),
    }
}

/// Checks the address arguments of a call, pairing `types` with
/// `serialized_args` in order: each must decode as an address, and must not
/// be a table's handle (`BAD_MAGIC`).
pub fn check_args_address<S: TableMetaResolver>(
    remote: &S,
    types: &Vec<ParamType>,
    serialized_args: &Vec<Vec<u8>>,
) -> (r: Result<(), VMError>)
    ensures
        match address_args_check(
            remote,
            types@,
            blobs_view(serialized_args@),
            if types@.len() < serialized_args@.len() {
                types@.len() as int
            } else {
                serialized_args@.len() as int
            },
        ) {
            Ok(()) => r is Ok,
            Err(code) => r matches Err(e) && e.major_status == code && e.message is None,
        },
{
    let n = if types.len() < serialized_args.len() {
        types.len()
    } else {
        serialized_args.len()
    };
    let ghost args = blobs_view(serialized_args@);
    let mut i: usize = 0;
    while i < n
        invariant
            n <= types.len(),
            n <= serialized_args.len(),
            n == if types@.len() < serialized_args@.len() {
                types@.len() as int
            } else {
                serialized_args@.len() as int
            },
            args == blobs_view(serialized_args@),
            i <= n,
            address_args_check(remote, types@, args, i as int) == Ok::<(), u64>(()),
        decreases n - i,
    {
        proof {
            if address_args_check(remote, types@, args, i + 1) is Err {
                lemma_address_args_check_stops(remote, types@, args, i + 1, n as int);
            }
        }
        if let ParamType::Address = &types[i] {
            let bytes = serialized_args[i].as_slice();
            assert(args[i as int] == bytes@);
            match bcs_decode_address(bytes) {
                Some(addr) => {
                    proof {
                        let c = choose|a: u128| #[trigger] be_bytes_u128(a) == bytes@;
                        crate::bcs_format::lemma_be_bytes_u128_injective(addr, c);
                        assert(address_args_check(remote, types@, args, i + 1) == address_arg_check(
                            remote,
                            types@[i as int],
                            args[i as int],
                        ));
                    }
                    if is_table_addr(remote, addr)? {
                        return Err(VMError::new(BAD_MAGIC));
                    }
                },
                None => {
                    return Err(VMError::new(FAILED_TO_DESERIALIZE_ARGUMENT));
                },
            }
        }
        i = i + 1;
    }
    Ok(())
}

} // verus!
