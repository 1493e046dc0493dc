//! Predictive guard: forecasts a network instability level from a simulated
//! metric and logs the corrective action the forecast calls for.

use vstd::prelude::*;
use vstd::string::StrSliceExecFns;
use vstd::string::StringSliceAdditionalSpecFns;

use crate::bytes;
use crate::FIXED_TIMESTAMP;

verus! {

/// The stand-in network metric the forecast is derived from; a production
/// system would read live indicators instead.
pub const SIMULATED_METRIC: u32 = 75;

/// Configuration constants fixed when the module is assembled into a runtime.
pub struct Config {
    /// The threshold above which a corrective action is triggered.
    pub instability_threshold: u32,
    /// Default predictive parameters (as a byte vector).
    pub default_predictive_params: Vec<u8>,
}

/// Events recorded for the runtime's subscribers.
pub enum Event {
    /// A prediction was triggered: (predicted instability level, corrective
    /// action).
    PredictionTriggered(u32, Vec<u8>),
}

#[derive(PartialEq, Eq, Structural, Clone, Copy, Debug)]
pub enum Error {
    /// The prediction input is invalid.
    InvalidInput,
    /// Corrective action failed to execute.
    CorrectiveActionFailed,
}

/// The instability level the analysis forecasts: half the simulated metric.
pub open spec fn predicted_instability() -> u32 {
    SIMULATED_METRIC / 2
}

/// The corrective action a forecast calls for: fees are buffered above the
/// threshold, nothing is done at or below it.
pub open spec fn corrective_action(predicted: u32, threshold: u32) -> Seq<u8> {
    if predicted > threshold {
        "Increase fee buffer".spec_bytes()
    } else {
        "No action required".spec_bytes()
    }
}

/// The module's state: the current model parameters, the append-only history
/// of predictions (timestamp, level, action, parameters), and the events.
pub struct Pallet {
    pub config: Config,
    pub prediction_parameters: Vec<u8>,
    pub prediction_history: Vec<(u64, u32, Vec<u8>, Vec<u8>)>,
    pub events: Vec<Event>,
}

impl Pallet {
    /// A fresh module with everything at its storage default.
    pub fn new(config: Config) -> (p: Pallet)
        ensures
            p.config == config,
            p.prediction_parameters@ == Seq::<u8>::empty(),
            p.prediction_history@ == Seq::<(u64, u32, Vec<u8>, Vec<u8>)>::empty(),
            p.events@ == Seq::<Event>::empty(),
    {
        Pallet {
            config,
            prediction_parameters: Vec::new(),
            prediction_history: Vec::new(),
            events: Vec::new(),
        }
    }

    /// Forecasts the network's instability level by smoothing the simulated
    /// metric. Always succeeds.
    pub fn analyze_network(&self) -> (r: Result<u32, Error>)
        ensures
            r == Ok::<u32, Error>(predicted_instability()),
    {
        let simulated_metric: u32 = SIMULATED_METRIC;
        Ok(simulated_metric / 2)
    }

    /// Triggers a prediction: the forecast level and the corrective action
    /// it calls for are logged together with the default model parameters,
    /// and recorded as a `PredictionTriggered` event. Always succeeds.
    pub fn trigger_prediction(&mut self) -> (r: Result<(), Error>)
        ensures
            r == Ok::<(), Error>(()),
            final(self).config == old(self).config,
            final(self).prediction_parameters == old(self).prediction_parameters,
            final(self).prediction_history@.len() == old(self).prediction_history@.len() + 1,
            (forall|i: int|
                0 <= i < old(self).prediction_history@.len()
                    ==> #[trigger] final(self).prediction_history@[i] == old(
                    self,
                ).prediction_history@[i]),
            ({
                let entry = final(self).prediction_history@.last();
                &&& entry.0 == FIXED_TIMESTAMP
                &&& entry.1 == predicted_instability()
                &&& entry.2@ == corrective_action(
                    predicted_instability(),
                    old(self).config.instability_threshold,
                )
                &&& entry.3@ == old(self).config.default_predictive_params@
            }),
            final(self).events@.len() == old(self).events@.len() + 1,
            (forall|i: int|
                0 <= i < old(self).events@.len() ==> #[trigger] final(self).events@[i] == old(
                    self,
                ).events@[i]),
            final(self).events@.last() matches Event::PredictionTriggered(level, action)
                && level == predicted_instability() && action@ == corrective_action(
                predicted_instability(),
                old(self).config.instability_threshold,
            ),
    {
        let predicted = match self.analyze_network() {
            Ok(v) => v,
            Err(_) => {
                return Err(Error::InvalidInput);
            },
        };
        let action: Vec<u8> = if predicted > self.config.instability_threshold {
            "Increase fee buffer".as_bytes_vec()
        } else {
            "No action required".as_bytes_vec()
        };
        let logged_action = bytes::clone_bytes(&action);
        let logged_params = bytes::clone_bytes(&self.config.default_predictive_params);
        self.prediction_history.push((
            FIXED_TIMESTAMP,
            predicted,
            logged_action,
            logged_params,
        ));
        self.events.push(Event::PredictionTriggered(predicted, action));
        Ok(())
    }

    /// Replaces the predictive model parameters, as a governance decision.
    ///
    /// Fails leaving the state unchanged when the new parameters are empty.
    pub fn update_prediction_parameters(&mut self, new_params: Vec<u8>) -> (r: Result<(), Error>)
        ensures
            final(self).config == old(self).config,
            new_params@.len() == 0 ==> {
                &&& r == Err::<(), Error>(Error::InvalidInput)
                &&& *final(self) == *old(self)
            },
            new_params@.len() > 0 ==> {
                &&& r == Ok::<(), Error>(())
                &&& final(self).prediction_parameters == new_params
                &&& final(self).prediction_history == old(self).prediction_history
                &&& final(self).events == old(self).events
            },
    {
        if new_params.is_empty() {
            return Err(Error::InvalidInput);
        }
        self.prediction_parameters = new_params;
        Ok(())
    }
}

} // verus!
