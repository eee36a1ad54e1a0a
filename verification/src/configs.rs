//! The configuration that connectors are built from. Values are made once at
//! start-up and handed to the component that needs them.

use vstd::prelude::*;

verus! {

/// Where one connector's API lives.
#[derive(Clone, Debug, PartialEq, Eq)]
pub struct ConnectorParams {
    pub base_url: String,
}

/// The configuration of every connector.
#[derive(Clone, Debug, PartialEq, Eq)]
pub struct Connectors {
    pub monei: ConnectorParams,
    pub nordea: ConnectorParams,
}

/// The unit in which a connector takes amounts.
#[derive(Clone, Copy, Debug, PartialEq, Eq, Structural)]
pub enum CurrencyUnit {
    /// Major units, such as euros.
    Base,
    /// Minor units, such as cents.
    Minor,
}

} // verus!
