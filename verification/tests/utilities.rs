use zutils::bq::bq_params_from_network;
use zutils::bq::credential_search_order;
use zutils::bq::DefaultCredentialSource;
use zutils::bq::default_credentials_file;
use zutils::bq::involved_query;
use zutils::bq::BqNetwork;
use zutils::bq::Location;
use zutils::errors::UtilError;
use zutils::utils::relative_home_path_str;
use zutils::utils::remove_suffix;
use zutils::utils::string_or_empty_from_u8;

#[test]
fn test_valid_utf8_decodes() {
    assert_eq!(string_or_empty_from_u8(b"hello"), "hello");
    assert_eq!(string_or_empty_from_u8(b""), "");
}

#[test]
fn test_invalid_utf8_gets_placeholder() {
    assert_eq!(string_or_empty_from_u8(&[0xff, 0xfe]), "<not_representable>");
}

#[test]
fn test_remove_suffix() {
    assert_eq!(remove_suffix("archive.tar", ".tar"), "archive");
    assert_eq!(remove_suffix("archive.tar", ".zip"), "archive.tar");
    assert_eq!(remove_suffix("x", "longer-than-input"), "x");
    assert_eq!(remove_suffix("abc", ""), "abc");
}

#[test]
fn test_relative_home_path_ends_with_value() {
    match relative_home_path_str("workdir/notes.txt") {
        Ok(p) => assert!(p.ends_with("/workdir/notes.txt")),
        Err(e) => assert_eq!(e, UtilError::EnvironmentFailure),
    }
}

#[test]
fn test_location_table_name() {
    let loc = Location::new("proj", "dataset");
    assert_eq!(loc.table_name("transactions"), "proj.dataset.transactions");
}

#[test]
fn test_network_locations() {
    let testnet = bq_params_from_network(&BqNetwork::Testnet).unwrap();
    assert_eq!(testnet.project_id, "prj-c-data-analytics-3xs14wez");
    assert_eq!(testnet.dataset_id, "ds_zq1_testnet");
    let mainnet = bq_params_from_network(&BqNetwork::Mainnet).unwrap();
    assert_eq!(mainnet.dataset_id, "ds_zq1_mainnet");
}

#[test]
fn test_default_credentials_file() {
    assert_eq!(
        default_credentials_file("/home/me"),
        "/home/me/.config/gcloud/application_default_credentials.json"
    );
}

#[test]
fn test_involved_query_template() {
    let table = "p.d.transactions";
    let address = "00ab";
    let expected = format!(
        "SELECT id,SAFE_CONVERT_BYTES_TO_STRING(data), SAFE_CONVERT_BYTES_TO_STRING(code),receipt,to_addr, from_addr_zil FROM `{table}` WHERE SAFE_CONVERT_BYTES_TO_STRING(data) LIKE '%{address}%' OR from_addr_zil = '0x{address}' OR receipt LIKE '%{address}%' OR SAFE_CONVERT_BYTES_TO_STRING(code) LIKE '%{address}%' ORDER BY block,offset_in_block ASC"
    );
    assert_eq!(involved_query(table, address), expected);
}

#[test]
fn test_credential_search_order() {
    let both = credential_search_order(
        &Some("/tmp/creds.json".to_string()),
        &Some("/home/me".to_string()),
    );
    assert_eq!(
        both,
        vec![
            (
                DefaultCredentialSource::EnvVar,
                Some("/tmp/creds.json".to_string())
            ),
            (
                DefaultCredentialSource::DefaultSecretsFile,
                Some("/home/me/.config/gcloud/application_default_credentials.json".to_string())
            ),
            (DefaultCredentialSource::MetadataServer, None),
        ]
    );
    let neither = credential_search_order(&None, &None);
    assert_eq!(neither, vec![(DefaultCredentialSource::MetadataServer, None)]);
}

#[test]
fn test_error_descriptions() {
    assert_eq!(UtilError::NotFound.describe(), "resource not found");
    assert_eq!(UtilError::StructureMismatch.describe(), "structure mismatch");
    assert_eq!(UtilError::ExecutionFailure.describe(), "execution failure");
    assert_eq!(UtilError::IoFailure.describe(), "i/o failure");
    assert_eq!(
        UtilError::EnvironmentFailure.describe(),
        "environment lookup failure"
    );
}
