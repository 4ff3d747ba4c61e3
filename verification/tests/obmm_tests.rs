use memlink::{
    ObmmError, ObmmExportFlags, ObmmMemDesc, OwnershipSetter, ToObmmResult, UbPrivData,
    OBMM_INVALID_MEMID, prot,
};

#[test]
fn test_priv_data_flags() {
    let priv_data = UbPrivData::OCHIP() | UbPrivData::CACHEABLE();
    assert!(priv_data.contains(UbPrivData::OCHIP()));
    assert!(priv_data.contains(UbPrivData::CACHEABLE()));
    assert!(!priv_data.is_empty());
}

#[test]
fn test_export_flags() {
    let flags = ObmmExportFlags::ALLOWMMAP() | ObmmExportFlags::REMOTENUMA();
    assert!(flags.contains(ObmmExportFlags::ALLOWMMAP()));
    assert!(flags.contains(ObmmExportFlags::REMOTENUMA()));
}

#[test]
fn test_ownership_builder() {
    let setter = OwnershipSetter::new(3).range(0x1000, 0x2000).read_write();

    assert_eq!(setter.fd, 3);
    assert_eq!(setter.start, Some(0x1000));
    assert_eq!(setter.end, Some(0x2000));
    assert_eq!(setter.prot, prot::READWRITE);
}

#[test]
fn test_ownership_builder_chaining() {
    let setter = OwnershipSetter::new(5).range(0x1000, 0x2000).read_only();

    assert_eq!(setter.prot, prot::READ);

    let setter = OwnershipSetter::new(5).range(0x1000, 0x2000).no_access();

    assert_eq!(setter.prot, prot::NONE);
}

#[test]
fn test_prot_constants() {
    assert_eq!(prot::NONE, 0);
    assert_eq!(prot::READ, 1);
    assert_eq!(prot::WRITE, 2);
    assert_eq!(prot::READWRITE, 3);
}

#[test]
fn test_ownership_apply_args() {
    let args = OwnershipSetter::new(3)
        .range(0x1000, 0x2000)
        .write_only()
        .apply_args()
        .unwrap();
    assert_eq!(args, (3, 0x1000, 0x2000, prot::WRITE));

    assert!(matches!(
        OwnershipSetter::new(3).apply_args(),
        Err(ObmmError::InvalidInput("start address not set"))
    ));
}

#[test]
fn test_mem_desc_defaults() {
    let desc: ObmmMemDesc<UbPrivData> = ObmmMemDesc::new();
    assert_eq!(desc.addr, 0);
    assert_eq!(desc.length, 0);
    assert_eq!(desc.priv_len, 0);
    assert!(desc.priv_data.is_empty());
    assert_eq!(OBMM_INVALID_MEMID, 0);
}

#[test]
fn test_obmm_error_messages() {
    assert_eq!(
        ObmmError::ExportFailed(-1).message(),
        "Memory export failed with code: -1"
    );
    assert_eq!(ObmmError::InvalidMemId.message(), "Invalid memory ID");
    assert_eq!(
        ObmmError::InvalidInput("end address not set").message(),
        "Invalid input: end address not set"
    );
}

#[test]
fn test_to_obmm_result_conversions() {
    let ok: Result<(), ObmmError> = 0i32.to_obmm_result(ObmmError::ExportFailed);
    assert!(ok.is_ok());
    let err: Result<(), ObmmError> = (-5i32).to_obmm_result(ObmmError::ExportFailed);
    assert_eq!(err, Err(ObmmError::ExportFailed(-5)));

    let ok: Result<u64, ObmmError> = 7u64.to_obmm_result(ObmmError::QueryFailed);
    assert_eq!(ok, Ok(7));
    let err: Result<u64, ObmmError> = 0u64.to_obmm_result(ObmmError::QueryFailed);
    assert_eq!(err, Err(ObmmError::QueryFailed(0)));
}
