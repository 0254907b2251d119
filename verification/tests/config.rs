use bellini::config::Config;
use bellini::config::InternalIps;

#[test]
fn test_internal_ip_display() {
    let internal_ips = InternalIps::new(vec![
        "169.254.0.0/16".to_owned(),
        "192.168.0.0/16".to_owned(),
        "fc00:0:0:0:0:0:0:0/7".to_owned(),
        "127.0.0.1/32".to_owned(),
        "10.0.0.0/8".to_owned(),
        "172.16.0.0/12".to_owned(),
    ]);
    assert_eq!(
        internal_ips.to_joined_string(),
        "169.254.0.0/16,192.168.0.0/16,fc00:0:0:0:0:0:0:0/7,127.0.0.1/32,10.0.0.0/8,172.16.0.0/12"
    );
}

#[test]
fn default_fields_take_fixed_values() {
    let c = Config::default();
    assert_eq!(c.enable_stats, false);
    assert_eq!(c.materialize_config_to, "/etc/suricata/bellini.yaml");
    assert_eq!(c.exe_path, "/usr/local/bin/suricata");
    assert_eq!(c.alert_path, "/tmp/suricata.alerts");
    assert_eq!(c.rule_path, "/etc/suricata/custom.rules");
    assert_eq!(c.suriata_config_path, "/etc/suricata");
    assert_eq!(c.max_pending_packets, 800);
    assert_eq!(
        c.internal_ips.to_joined_string(),
        "169.254.0.0/16,192.168.0.0/16,fc00:0:0:0:0:0:0:0/7,127.0.0.1/32,10.0.0.0/8,172.16.0.0/12"
    );
}

#[test]
fn default_exe_takes_a_non_empty_environment_value() {
    let c = Config::default_with_exe(Some("/opt/ids/suricata".to_owned()));
    assert_eq!(c.exe_path, "/opt/ids/suricata");
    assert_eq!(c.rule_path, "/etc/suricata/custom.rules");
}

#[test]
fn default_exe_falls_back_when_absent_or_empty() {
    let absent = Config::default_with_exe(None);
    assert_eq!(absent.exe_path, "/usr/local/bin/suricata");
    let empty = Config::default_with_exe(Some(String::new()));
    assert_eq!(empty.exe_path, "/usr/local/bin/suricata");
}
