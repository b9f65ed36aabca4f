use omada_backup::helpers::{parse_file_name_from_content_disposition, select_backup_file_name};

#[test]
fn parses_plain_file_name() {
    let parsed = parse_file_name_from_content_disposition(Some("attachment; fileName=Backup_2024.cfg"));
    assert_eq!(parsed.as_deref(), Some("Backup_2024.cfg"));
}

#[test]
fn percent_decoding_applies() {
    let parsed = parse_file_name_from_content_disposition(Some("attachment; fileName=%E4%B8%AD.cfg"));
    assert_eq!(parsed.as_deref(), Some("中.cfg"));
}

#[test]
fn percent_decoding_applies_to_spaces() {
    let parsed = parse_file_name_from_content_disposition(Some("attachment; fileName=a%20b.cfg"));
    assert_eq!(parsed.as_deref(), Some("a b.cfg"));
}

#[test]
fn missing_header_gives_default() {
    assert!(parse_file_name_from_content_disposition(None).is_none());
    assert_eq!(select_backup_file_name(None, None), "Omada_Backup.cfg");
}

#[test]
fn empty_header_gives_default() {
    assert!(parse_file_name_from_content_disposition(Some("")).is_none());
    assert_eq!(select_backup_file_name(Some(""), None), "Omada_Backup.cfg");
}

#[test]
fn token_is_case_sensitive() {
    let parsed = parse_file_name_from_content_disposition(Some("attachment; filename=lowercase.cfg"));
    assert!(parsed.is_none());
    assert_eq!(
        select_backup_file_name(Some("attachment; filename=lowercase.cfg"), None),
        "Omada_Backup.cfg"
    );
}

#[test]
fn header_without_token_gives_default() {
    assert_eq!(select_backup_file_name(Some("attachment"), None), "Omada_Backup.cfg");
}

#[test]
fn explicit_output_path_overrides_server_name() {
    let name = select_backup_file_name(
        Some("attachment; fileName=server.cfg"),
        Some("custom.bin".to_string()),
    );
    assert_eq!(name, "custom.bin");
}

#[test]
fn server_name_used_without_override() {
    let name = select_backup_file_name(Some("attachment; fileName=server.cfg"), None);
    assert_eq!(name, "server.cfg");
}

#[test]
fn everything_after_first_token_is_kept() {
    let parsed =
        parse_file_name_from_content_disposition(Some("attachment; fileName=a; fileName=b"));
    assert_eq!(parsed.as_deref(), Some("a; fileName=b"));
}
