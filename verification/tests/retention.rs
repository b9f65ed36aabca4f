use omada_backup::omada_client::BackupRetention;

#[test]
fn wire_values_match_table() {
    assert_eq!(BackupRetention::SettingsOnly.wire_value(), "-1");
    assert_eq!(BackupRetention::Days7.wire_value(), "7");
    assert_eq!(BackupRetention::Days30.wire_value(), "30");
    assert_eq!(BackupRetention::Days60.wire_value(), "60");
    assert_eq!(BackupRetention::Days90.wire_value(), "90");
    assert_eq!(BackupRetention::Days180.wire_value(), "180");
}
