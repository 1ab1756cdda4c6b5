//! Structs representing node configuration data of the LDF (LIN Description
//! File). The timing parameters are carried as configuration only; the
//! protocol core does not enforce them.

use crate::frame::diagnostic::ProductId;
use crate::frame::transport::NAD;
use vstd::prelude::*;

verus! {

/// The minimum time between a diagnostic request and the slave response,
/// in milliseconds. The specification default is 50 ms.
#[derive(Copy, Clone, Debug, PartialEq, Eq)]
pub struct P2Min(pub u32);

impl Default for P2Min {
    fn default() -> (r: P2Min)
        ensures
            r.0 == 50,
    {
        P2Min(50)
    }
}

/// The minimum time between consecutive transport frames, in milliseconds.
/// The specification default is 0 ms.
#[derive(Copy, Clone, Debug, PartialEq, Eq)]
pub struct STMin(pub u32);

impl Default for STMin {
    fn default() -> (r: STMin)
        ensures
            r.0 == 0,
    {
        STMin(0)
    }
}

/// The timeout for transmitting a transport PDU, in milliseconds. The
/// specification default is 1000 ms.
#[derive(Copy, Clone, Debug, PartialEq, Eq)]
pub struct NAsTimeout(pub u32);

impl Default for NAsTimeout {
    fn default() -> (r: NAsTimeout)
        ensures
            r.0 == 1000,
    {
        NAsTimeout(1000)
    }
}

/// The timeout for receiving a transport PDU, in milliseconds. The
/// specification default is 1000 ms.
#[derive(Copy, Clone, Debug, PartialEq, Eq)]
pub struct NCrTimeout(pub u32);

impl Default for NCrTimeout {
    fn default() -> (r: NCrTimeout)
        ensures
            r.0 == 1000,
    {
        NCrTimeout(1000)
    }
}

/// Holds the most important node attributes.
#[derive(Copy, Clone, Debug, PartialEq, Eq)]
pub struct NodeAttributes {
    pub configured_nad: NAD,
    pub initial_nad: NAD,
    pub product_id: ProductId,
    pub p2_min: P2Min,
    pub st_min: STMin,
    pub n_as_timeout: NAsTimeout,
    pub n_cr_timeout: NCrTimeout,
}

impl NodeAttributes {
    /// Node attributes with the given addresses and product identification,
    /// and the specification defaults for the four timing parameters.
    pub fn with_default_timing(
        configured_nad: NAD,
        initial_nad: NAD,
        product_id: ProductId,
    ) -> (r: NodeAttributes)
        ensures
            r.configured_nad == configured_nad,
            r.initial_nad == initial_nad,
            r.product_id == product_id,
            r.p2_min.0 == 50,
            r.st_min.0 == 0,
            r.n_as_timeout.0 == 1000,
            r.n_cr_timeout.0 == 1000,
    {
        NodeAttributes {
            configured_nad,
            initial_nad,
            product_id,
            p2_min: P2Min::default(),
            st_min: STMin::default(),
            n_as_timeout: NAsTimeout::default(),
            n_cr_timeout: NCrTimeout::default(),
        }
    }
}

} // verus!
