//! Rendering of a [`crate::config::Config`] into the external tool's
//! configuration document: a fixed document shape with six named slots,
//! filled by plain string substitution. Rendering only reads the model and
//! never fails; writing the result to disk is the surrounding program's job.

use vstd::prelude::*;

use crate::config::Config;
use crate::text::bool_str;
use crate::text::dec_rep;
use crate::text::join_commas;
use crate::text::spec_bool_str;
use crate::text::u16_dec_string;

verus! {

/// The rendered document for the six substitution values, in the document's
/// fixed slot order: rule file, alert socket, tool configuration directory,
/// comma-joined home-network ranges, statistics flag, and the pending-packet
/// bound. Everything around the slots is fixed text.
pub open spec fn spec_rendered(
    rules: Seq<char>,
    alerts: Seq<char>,
    suricata_config_path: Seq<char>,
    internal_ips: Seq<char>,
    stats: Seq<char>,
    max_pending_packets: Seq<char>,
) -> Seq<char> {
    "%YAML 1.1\n---\nrule-files:\n  - "@ + rules
        + "\noutputs:\n  - unix-socket:\n      filename: "@ + alerts
        + "\nsuricata-config-dir: "@ + suricata_config_path
        + "\nvars:\n  address-groups:\n    HOME_NET: \"["@ + internal_ips
        + "]\"\nstats:\n  enabled: "@ + stats
        + "\nmax-pending-packets: "@ + max_pending_packets + "\n"@
}

/// The document a given model renders to.
pub open spec fn spec_render_of(c: Config) -> Seq<char> {
    spec_rendered(
        c.rule_path@,
        c.alert_path@,
        c.suriata_config_path@,
        join_commas(c.internal_ips@),
        spec_bool_str(c.enable_stats),
        dec_rep(c.max_pending_packets as int),
    )
}

impl Config {
    /// Renders the model into the configuration document: the fixed document
    /// text with the six substitution values derived from the model bound
    /// into their slots.
    pub fn render(&self) -> (r: String)
        ensures
            r@ == spec_render_of(*self),
    {
        let internal_ips = self.internal_ips.to_joined_string();
        let stats = bool_str(self.enable_stats);
        let max_pending_packets = u16_dec_string(self.max_pending_packets);
        let mut r = String::new();
        r.append("%YAML 1.1\n---\nrule-files:\n  - ");
        r.append(self.rule_path.as_str());
        r.append("\noutputs:\n  - unix-socket:\n      filename: ");
        r.append(self.alert_path.as_str());
        r.append("\nsuricata-config-dir: ");
        r.append(self.suriata_config_path.as_str());
        r.append("\nvars:\n  address-groups:\n    HOME_NET: \"[");
        r.append(internal_ips.as_str());
        r.append("]\"\nstats:\n  enabled: ");
        r.append(stats);
        r.append("\nmax-pending-packets: ");
        r.append(max_pending_packets.as_str());
        r.append("\n");
        proof {
            assert(r@ =~= spec_render_of(*self));
        }
        r
    }
}

} // verus!
