//! Tanks and their alarm states.

use vstd::prelude::*;
use vstd::string::*;
use crate::text::{left_justified, pad_right};

verus! {

/// Width of a product label and of a header line.
pub const LABEL_WIDTH: usize = 20;

/// An alarm condition reported for a tank.
#[derive(Clone, Copy, Debug, PartialEq, Eq, Structural)]
pub enum Warning {
    HighWaterAlarm,
    HighWaterWarning,
}

impl Warning {
    /// The text printed for the warning.
    pub open spec fn label(self) -> Seq<char> {
        match self {
            Warning::HighWaterAlarm => "HIGH WATER ALARM"@,
            Warning::HighWaterWarning => "HIGH WATER WARNING"@,
        }
    }

    /// The text printed for the warning.
    pub fn to_string(&self) -> (r: String)
        ensures
            r@ == self.label(),
    {
        match self {
            Warning::HighWaterAlarm => String::from_str("HIGH WATER ALARM"),
            Warning::HighWaterWarning => String::from_str("HIGH WATER WARNING"),
        }
    }
}

/// The printed form of a tank's gauge readings: liquid volume, temperature
/// compensated volume and ullage in whole gallons; height in inches, water in
/// gallons and temperature in degrees, each with two decimals.
#[derive(Debug)]
pub struct Gauge {
    pub volume: String,
    pub tc_volume: String,
    pub ullage: String,
    pub height: String,
    pub water: String,
    pub temp: String,
}

/// A tank of the station: its product label, gauge readings and warnings,
/// the first of which is the tank's primary status.
#[derive(Debug)]
pub struct Tank {
    pub product: String,
    pub gauge: Gauge,
    pub warnings: Vec<Warning>,
}

impl Tank {
    /// A tank whose product label is left-justified to the label width.
    pub fn new(product: &str, gauge: Gauge, warnings: Vec<Warning>) -> (r: Tank)
        ensures
            r.product@ == pad_right(product@, LABEL_WIDTH as nat),
            r.gauge == gauge,
            r.warnings@ == warnings@,
    {
        Tank { product: left_justified(product, LABEL_WIDTH), gauge, warnings }
    }
}

} // verus!
