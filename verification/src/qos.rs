//! Quality-of-service levels for subscribe and publish requests.

use vstd::prelude::*;

verus! {

/// The three MQTT quality-of-service levels.  `AtMostOnce` deliveries are
/// never acknowledged by the broker; the other two levels are.
#[derive(Clone, Copy, PartialEq, Eq, Structural, Debug)]
pub enum QualityOfService {
    AtMostOnce,
    AtLeastOnce,
    ExactlyOnce,
}

} // verus!
