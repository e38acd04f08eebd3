use hetu::error::HetuError;

type Result<T> = std::result::Result<T, HetuError>;

#[test]
fn hetu_not_impl_error() {
    let res = return_hetu_not_impl_error().unwrap_err();
    assert_eq!(
        res.to_string(),
        "This feature is not implemented: Create Table"
    );
}

fn return_hetu_not_impl_error() -> Result<()> {
    // Expect the '?' to work
    let _bar = Err(HetuError::NotImplemented(String::from("Create Table")))?;
    Ok(())
}

#[test]
fn hetu_data_fusion_error() {
    let res = return_hetu_data_fusion_error().unwrap_err();
    assert_eq!(
        res.to_string(),
        "Data fusion error: This feature is not implemented: show tables"
    )
}

fn return_hetu_data_fusion_error() -> Result<()> {
    // Expect the '?' to work
    let _bar = Err(HetuError::DataFusionError(String::from(
        "This feature is not implemented: show tables",
    )))?;
    Ok(())
}

#[test]
fn every_variant_has_its_line() {
    assert_eq!(
        HetuError::IoError("broken pipe".to_string()).to_string(),
        "IO error: broken pipe"
    );
    assert_eq!(
        HetuError::Internal("x".to_string()).to_string(),
        "Internal error: x. This was likely caused by a bug in Hetu's code and we would welcome that you file an bug report in our issue tracker"
    );
    assert_eq!(
        HetuError::External("s3".to_string()).to_string(),
        "External error: s3"
    );
    assert_eq!(HetuError::NotImplemented(String::new()).to_string(), "This feature is not implemented: ");
}

#[test]
fn internal_err_wraps_its_description() {
    let r: Result<()> = hetu::error::internal_err("lost track of {}".to_string());
    assert_eq!(r, Err(HetuError::Internal("lost track of {}".to_string())));
}
