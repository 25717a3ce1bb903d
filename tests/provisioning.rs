use load_tests::provisioning::device_config;

#[test]
fn device_config_holds_every_entry() {
    let c = device_config("00aa11bb", "/creds/credentials.zip", "gw.example.com:443", "/meta/00aa11bb");
    assert_eq!(c.get_from(Some("tls"), "server"), Some("https://gw.example.com:443"));
    assert_eq!(c.get_from(Some("provision"), "server"), Some("https://gw.example.com:443"));
    assert_eq!(c.get_from(Some("provision"), "provision_path"), Some("/creds/credentials.zip"));
    assert_eq!(c.get_from(Some("provision"), "primary_ecu_serial"), Some("00aa11bb"));
    assert_eq!(c.get_from(Some("pacman"), "type"), Some("none"));
    assert_eq!(c.get_from(Some("storage"), "path"), Some("/meta/00aa11bb"));
    assert_eq!(c.get_from(Some("storage"), "type"), Some("sqlite"));
    assert_eq!(c.sections().filter(|s| s.is_some()).count(), 4);
    assert_eq!(c.general_section().len(), 0);
}
