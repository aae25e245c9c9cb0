use vstd::prelude::*;

verus! {

/// Settings of the background state monitor.
#[derive(Clone)]
pub struct MonitorConfig {
    pub process_name: String,
    /// Time between two checks, in milliseconds.
    pub interval_ms: u64,
}

impl Default for MonitorConfig {
    /// Watches `tool_service` every three seconds.
    fn default() -> (r: Self)
        ensures
            r.process_name@ == "tool_service"@,
            r.interval_ms == 3000,
    {
        MonitorConfig { process_name: "tool_service".to_owned(), interval_ms: 3000 }
    }
}

/// The resource file whose presence the monitor checks.
pub const MONITORED_RESOURCE: &'static str = "releases/uf_product_config.ini";

} // verus!
