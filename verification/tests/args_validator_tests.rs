use novavm::args_validator::{
    check_args_address, is_table_addr, is_valid_txn_arg, validate_combine_signer_and_txn_args,
    ParamType,
};
use novavm::table_meta::data_cache::TableMetaResolver;
use novavm::table_meta::TableMetaType;
use novavm::vm_error::VMStatus;
use novavm::vm_status::{
    VMError, BAD_MAGIC, FAILED_TO_DESERIALIZE_ARGUMENT, INVALID_MAIN_FUNCTION_SIGNATURE,
    NUMBER_OF_ARGUMENTS_MISMATCH, NUMBER_OF_SIGNER_ARGUMENTS_MISMATCH, STORAGE_ERROR,
};

/// Table 0x10 is registered; reading 0xee fails.
struct Tables;

impl TableMetaResolver for Tables {
    fn get_table_meta(&self, handle: &u128, meta: TableMetaType) -> Result<Option<Vec<u8>>, VMError> {
        if *handle == 0xee {
            return Err(VMError::new(STORAGE_ERROR));
        }
        if *handle == 0x10 && meta == TableMetaType::Owner {
            return Ok(Some(1u128.to_be_bytes().to_vec()));
        }
        Ok(None)
    }
}

fn string_type() -> ParamType {
    ParamType::Struct(Some("0x1::string::String".to_string()))
}

#[test]
fn valid_txn_arg_types() {
    assert!(is_valid_txn_arg(&ParamType::U64));
    assert!(is_valid_txn_arg(&ParamType::Vector(Box::new(ParamType::Address))));
    assert!(is_valid_txn_arg(&string_type()));
    assert!(is_valid_txn_arg(&ParamType::Vector(Box::new(string_type()))));
    assert!(!is_valid_txn_arg(&ParamType::Struct(Some("0x1::coin::Coin".to_string()))));
    assert!(!is_valid_txn_arg(&ParamType::Struct(None)));
    assert!(!is_valid_txn_arg(&ParamType::Signer));
    assert!(!is_valid_txn_arg(&ParamType::TyParam(0)));
    assert!(!is_valid_txn_arg(&ParamType::MutableReference(Box::new(ParamType::U8))));
}

#[test]
fn signers_come_first() {
    let params = vec![
        ParamType::Reference(Box::new(ParamType::Signer)),
        ParamType::U64,
    ];
    let args = validate_combine_signer_and_txn_args(vec![0x0102], vec![vec![5; 8]], &params)
        .unwrap();
    let mut signer = vec![0u8; 14];
    signer.extend_from_slice(&[1, 2]);
    assert_eq!(args, vec![signer, vec![5; 8]]);
}

#[test]
fn without_signers_arguments_pass_as_they_are() {
    let params = vec![ParamType::Bool];
    let args = validate_combine_signer_and_txn_args(vec![7], vec![vec![1]], &params).unwrap();
    assert_eq!(args, vec![vec![1]]);
}

#[test]
fn argument_errors() {
    let bad_type = vec![ParamType::Signer, ParamType::TyParam(0)];
    assert_eq!(
        validate_combine_signer_and_txn_args(vec![1], vec![vec![]], &bad_type).unwrap_err(),
        VMStatus::Error(INVALID_MAIN_FUNCTION_SIGNATURE)
    );
    let params = vec![ParamType::Signer, ParamType::U8];
    assert_eq!(
        validate_combine_signer_and_txn_args(vec![1], vec![], &params).unwrap_err(),
        VMStatus::Error(NUMBER_OF_ARGUMENTS_MISMATCH)
    );
    assert_eq!(
        validate_combine_signer_and_txn_args(vec![1, 2], vec![vec![3]], &params).unwrap_err(),
        VMStatus::Error(NUMBER_OF_SIGNER_ARGUMENTS_MISMATCH)
    );
}

#[test]
fn address_arguments_must_not_be_tables() {
    let types = vec![ParamType::U8, ParamType::Address];
    let plain = vec![vec![1], 0x20u128.to_be_bytes().to_vec()];
    assert!(check_args_address(&Tables, &types, &plain).is_ok());

    let table = vec![vec![1], 0x10u128.to_be_bytes().to_vec()];
    assert_eq!(check_args_address(&Tables, &types, &table).unwrap_err().major_status, BAD_MAGIC);

    let short = vec![vec![1], vec![1, 2, 3]];
    assert_eq!(
        check_args_address(&Tables, &types, &short).unwrap_err().major_status,
        FAILED_TO_DESERIALIZE_ARGUMENT
    );

    let unreadable = vec![vec![1], 0xeeu128.to_be_bytes().to_vec()];
    assert_eq!(
        check_args_address(&Tables, &types, &unreadable).unwrap_err().major_status,
        FAILED_TO_DESERIALIZE_ARGUMENT
    );

    assert!(is_table_addr(&Tables, 0x10).unwrap());
    assert!(!is_table_addr(&Tables, 0x11).unwrap());
}
