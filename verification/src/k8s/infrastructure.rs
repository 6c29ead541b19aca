//! What a Helm install of the runner chart is made of: chart values, the
//! release bundle of value and file settings, and the node runtime spec
//! both are derived from.

pub mod assets;
pub mod chart_values;
pub mod helm;
pub mod runtime_spec;
