//! The configuration data model: the internal network ranges and the
//! aggregate of settings the external tool is configured with.

use vstd::prelude::*;

use crate::text::bool_str;
use crate::text::dec_rep;
use crate::text::join_commas;
use crate::text::join_with_commas;
use crate::text::spec_bool_str;
use crate::text::u16_dec_string;

verus! {

/// An ordered list of CIDR-notation range strings naming the networks the
/// external tool treats as internal. The order is kept exactly as given,
/// because the list is serialized verbatim into the rendered document; no
/// syntax of the individual ranges is checked here.
pub struct InternalIps(Vec<String>);

impl View for InternalIps {
    type V = Seq<Seq<char>>;

    closed spec fn view(&self) -> Seq<Seq<char>> {
        self.0.deep_view()
    }
}

impl InternalIps {
    /// Wraps the given ranges, in the given order.
    pub fn new(ips: Vec<String>) -> (r: Self)
        ensures
            r@ == ips.deep_view(),
    {
        InternalIps(ips)
    }

    /// The comma-joined textual form of the ranges: elements in their
    /// original order, joined with `,`, with no surrounding whitespace.
    pub fn to_joined_string(&self) -> (r: String)
        ensures
            r@ == join_commas(self@),
    {
        join_with_commas(&self.0)
    }
}

/// Configuration options for the external tool. All path fields are opaque
/// strings here: nothing checks that they exist or are reachable, since the
/// tool itself resolves them when it loads the rendered file.
pub struct Config {
    /// Whether statistics should be enabled (output) by the tool.
    pub enable_stats: bool,
    /// Path where the rendered configuration will be materialized to.
    pub materialize_config_to: String,
    /// Path where the tool's executable lives.
    pub exe_path: String,
    /// Path where the alert socket should reside at.
    pub alert_path: String,
    /// Path where the detection rules reside at.
    pub rule_path: String,
    /// Directory where auxiliary tool configuration resides at.
    pub suriata_config_path: String,
    /// Internal ranges to use for the tool's home-network variable.
    pub internal_ips: InternalIps,
    /// Packets the tool may queue before it blocks further ingestion.
    pub max_pending_packets: u16,
}

/// The fixed executable path used when no environment override is given.
pub open spec fn spec_fallback_exe() -> Seq<char> {
    "/usr/local/bin/suricata"@
}

/// The executable path that default construction derives from an optional
/// environment value: the value itself when it is present and non-empty,
/// the fixed fallback path otherwise.
pub open spec fn spec_exe_for(env_exe: Option<Seq<char>>) -> Seq<char> {
    match env_exe {
        Option::Some(e) => if e.len() > 0 {
            e
        } else {
            spec_fallback_exe()
        },
        Option::None => spec_fallback_exe(),
    }
}

/// The fixed default list of internal ranges, in its fixed order: six
/// well-known link-local, private, unique-local and loopback ranges. Each
/// element is a single range with no embedded comma, so the comma-joined
/// form reads back unambiguously as six ranges.
pub open spec fn spec_default_internal_ips() -> Seq<Seq<char>> {
    seq![
        "169.254.0.0/16"@,
        "192.168.0.0/16"@,
        "fc00:0:0:0:0:0:0:0/7"@,
        "127.0.0.1/32"@,
        "10.0.0.0/8"@,
        "172.16.0.0/12"@,
    ]
}

impl Config {
    /// Builds the default model, deriving the executable path from the given
    /// optional environment value. The caller reads the environment variable
    /// and passes its value here, so that each model is a pure function of
    /// that one input; every other field takes its fixed default.
    pub fn default_with_exe(env_exe: Option<String>) -> (c: Config)
        ensures
            c.enable_stats == false,
            c.materialize_config_to@ == "/etc/suricata/bellini.yaml"@,
            c.exe_path@ == spec_exe_for(env_exe.deep_view()),
            c.alert_path@ == "/tmp/suricata.alerts"@,
            c.rule_path@ == "/etc/suricata/custom.rules"@,
            c.suriata_config_path@ == "/etc/suricata"@,
            c.internal_ips@ == spec_default_internal_ips(),
            c.max_pending_packets == 800,
    {
        let exe_path: String = match env_exe {
            Option::Some(e) => {
                if e.as_str().is_empty() {
                    "/usr/local/bin/suricata".to_owned()
                } else {
                    e
                }
            },
            Option::None => "/usr/local/bin/suricata".to_owned(),
        };
        let mut ips: Vec<String> = Vec::new();
        ips.push("169.254.0.0/16".to_owned());
        ips.push("192.168.0.0/16".to_owned());
        ips.push("fc00:0:0:0:0:0:0:0/7".to_owned());
        ips.push("127.0.0.1/32".to_owned());
        ips.push("10.0.0.0/8".to_owned());
        ips.push("172.16.0.0/12".to_owned());
        proof {
            assert(ips.deep_view() =~~= spec_default_internal_ips());
        }
        Config {
            enable_stats: false,
            materialize_config_to: "/etc/suricata/bellini.yaml".to_owned(),
            exe_path,
            alert_path: "/tmp/suricata.alerts".to_owned(),
            rule_path: "/etc/suricata/custom.rules".to_owned(),
            suriata_config_path: "/etc/suricata".to_owned(),
            internal_ips: InternalIps::new(ips),
            max_pending_packets: 800,
        }
    }
}

impl Default for Config {
    /// The default model with no environment override: every field takes its
    /// fixed default value.
    fn default() -> (c: Config)
        ensures
            c.enable_stats == false,
            c.materialize_config_to@ == "/etc/suricata/bellini.yaml"@,
            c.exe_path@ == spec_fallback_exe(),
            c.alert_path@ == "/tmp/suricata.alerts"@,
            c.rule_path@ == "/etc/suricata/custom.rules"@,
            c.suriata_config_path@ == "/etc/suricata"@,
            c.internal_ips@ == spec_default_internal_ips(),
            c.max_pending_packets == 800,
    {
        Config::default_with_exe(Option::None)
    }
}

} // verus!
