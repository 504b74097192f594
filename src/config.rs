use vstd::prelude::*;

verus! {

/// Port of the data-plane listener unless told otherwise.
pub const DEFAULT_API_PORT: u16 = 9001;

/// Port of the control-plane listener unless told otherwise.
pub const DEFAULT_ORCHESTRATOR_PORT: u16 = 3001;

/// The two ports the agent listens on.
pub struct ServiceConfig {
    pub api_port: u16,
    pub orchestrator_port: u16,
}

impl Default for ServiceConfig {
    fn default() -> (c: ServiceConfig)
        ensures
            c.api_port == DEFAULT_API_PORT,
            c.orchestrator_port == DEFAULT_ORCHESTRATOR_PORT,
    {
        ServiceConfig { api_port: DEFAULT_API_PORT, orchestrator_port: DEFAULT_ORCHESTRATOR_PORT }
    }
}

} // verus!
