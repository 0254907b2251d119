use bellini::config::Config;
use bellini::config::InternalIps;

fn default_with_pending(max_pending_packets: u16) -> Config {
    let mut c = Config::default();
    c.max_pending_packets = max_pending_packets;
    c
}

#[test]
fn render_substitutes_the_default_values() {
    let text = Config::default().render();
    assert!(text.contains("/etc/suricata/custom.rules"));
    assert!(text.contains("/tmp/suricata.alerts"));
    assert!(text.contains("suricata-config-dir: /etc/suricata\n"));
    assert!(text.contains(
        "169.254.0.0/16,192.168.0.0/16,fc00:0:0:0:0:0:0:0/7,127.0.0.1/32,10.0.0.0/8,172.16.0.0/12"
    ));
    assert!(text.contains("enabled: false"));
    assert!(text.contains("max-pending-packets: 800\n"));
}

#[test]
fn render_is_exactly_the_bound_document() {
    let mut c = Config::default();
    c.rule_path = "/r/custom.rules".to_owned();
    c.alert_path = "/a/suricata.alerts".to_owned();
    c.suriata_config_path = "/s/conf".to_owned();
    c.internal_ips = InternalIps::new(vec!["10.0.0.0/8".to_owned(), "127.0.0.1/32".to_owned()]);
    c.enable_stats = true;
    c.max_pending_packets = 65535;
    let expected = "%YAML 1.1\n---\nrule-files:\n  - /r/custom.rules\noutputs:\n  - unix-socket:\n      filename: /a/suricata.alerts\nsuricata-config-dir: /s/conf\nvars:\n  address-groups:\n    HOME_NET: \"[10.0.0.0/8,127.0.0.1/32]\"\nstats:\n  enabled: true\nmax-pending-packets: 65535\n";
    assert_eq!(c.render(), expected);
}

#[test]
fn boundary_pending_packet_values_render_exactly() {
    let low = default_with_pending(0).render();
    assert!(low.contains("max-pending-packets: 0\n"));
    let high = default_with_pending(65535).render();
    assert!(high.contains("max-pending-packets: 65535\n"));
}
