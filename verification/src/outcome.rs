//! Yields as the driver sees them, their classification, and the ways an
//! advance can end.

use vstd::prelude::*;
use crate::constants::{
    AUTOMATIC_TX_OUTPUT, AUTOMATIC_TX_REPORT, MANUAL_RX_ACCEPTED, MANUAL_RX_REJECTED,
    MANUAL_TX_EXCEPTION, RESPONSE_ADVANCE_STATE, RESPONSE_INSPECT_STATE,
};

verus! {

/// How an advance ends when the protocol runs to completion. `Rejected` and
/// `Exception` are completions, not errors.
#[derive(Clone, Copy, Debug, PartialEq, Eq, Structural)]
pub enum YieldManualReason {
    Accepted,
    Rejected,
    Exception,
}

/// Why an advance was aborted. Where a yield is at fault, its reason code is
/// carried along.
#[derive(Clone, Copy, Debug, PartialEq, Eq, Structural)]
pub enum AdvanceError {
    /// The lambda-state working file could not be created.
    IoError,
    /// The yield does not fit the protocol at this point.
    ProtocolViolation(u16),
    /// A generic request arrived for which no callback is registered.
    UnknownCallback(u16),
    /// The handler that was invoked for the yield failed.
    HandlerFailure(u16),
}

/// The two classes of yield.
#[derive(Clone, Copy, Debug, PartialEq, Eq, Structural)]
pub enum YieldClass {
    Automatic,
    Manual,
}

/// The category under which a response is sent to the machine.
#[derive(Clone, Copy, Debug, PartialEq, Eq, Structural)]
pub enum ResponseCategory {
    Advance,
    Inspect,
}

/// What a yield asks of the driver.
#[derive(Clone, Copy, Debug, PartialEq, Eq, Structural)]
pub enum YieldKind {
    /// Automatic: a report for the report handler.
    Report,
    /// Automatic: an output for the output handler.
    Output,
    /// Automatic, with any other reason: for a registered callback, if there is one.
    OtherAutomatic,
    /// Manual: the input was accepted.
    Accepted,
    /// Manual: the input was rejected.
    Rejected,
    /// Manual: the input raised an exception.
    Exception,
    /// Manual, with any other reason: a generic request for a registered callback.
    GenericIo,
}

/// One suspend point of the machine.
#[derive(Debug, PartialEq, Eq)]
pub struct YieldEvent {
    pub class: YieldClass,
    pub reason: u16,
    pub data: Vec<u8>,
}

/// A [`YieldEvent`] with its data as a sequence.
pub struct YieldEventView {
    pub class: YieldClass,
    pub reason: u16,
    pub data: Seq<u8>,
}

impl View for YieldEvent {
    type V = YieldEventView;

    open spec fn view(&self) -> YieldEventView {
        YieldEventView { class: self.class, reason: self.reason, data: self.data@ }
    }
}

/// The kind of a yield of the given class and reason.
pub open spec fn kind_of(class: YieldClass, reason: u16) -> YieldKind {
    match class {
        YieldClass::Automatic => if reason == AUTOMATIC_TX_REPORT {
            YieldKind::Report
        } else if reason == AUTOMATIC_TX_OUTPUT {
            YieldKind::Output
        } else {
            YieldKind::OtherAutomatic
        },
        YieldClass::Manual => if reason == MANUAL_RX_ACCEPTED {
            YieldKind::Accepted
        } else if reason == MANUAL_RX_REJECTED {
            YieldKind::Rejected
        } else if reason == MANUAL_TX_EXCEPTION {
            YieldKind::Exception
        } else {
            YieldKind::GenericIo
        },
    }
}

/// The outcome that a manual yield of this kind ends the advance with.
pub open spec fn outcome_of(kind: YieldKind) -> Option<YieldManualReason> {
    match kind {
        YieldKind::Accepted => Some(YieldManualReason::Accepted),
        YieldKind::Rejected => Some(YieldManualReason::Rejected),
        YieldKind::Exception => Some(YieldManualReason::Exception),
        _ => None,
    }
}

/// The category of the response to a generic request raised under `reason`.
pub open spec fn category_of(reason: u16) -> Option<ResponseCategory> {
    if reason == RESPONSE_ADVANCE_STATE {
        Some(ResponseCategory::Advance)
    } else if reason == RESPONSE_INSPECT_STATE {
        Some(ResponseCategory::Inspect)
    } else {
        None
    }
}

/// Whether a yield is the one that must open an advance: the machine, halted
/// by hand, says that it is ready for input.
pub open spec fn is_initial_accept(class: YieldClass, reason: u16) -> bool {
    class == YieldClass::Manual && reason == MANUAL_RX_ACCEPTED
}

/// Classifies a yield by its class and reason.
pub fn classify(class: YieldClass, reason: u16) -> (kind: YieldKind)
    ensures
        kind == kind_of(class, reason),
{
    match class {
        YieldClass::Automatic => {
            if reason == AUTOMATIC_TX_REPORT {
                YieldKind::Report
            } else if reason == AUTOMATIC_TX_OUTPUT {
                YieldKind::Output
            } else {
                YieldKind::OtherAutomatic
            }
        },
        YieldClass::Manual => {
            if reason == MANUAL_RX_ACCEPTED {
                YieldKind::Accepted
            } else if reason == MANUAL_RX_REJECTED {
                YieldKind::Rejected
            } else if reason == MANUAL_TX_EXCEPTION {
                YieldKind::Exception
            } else {
                YieldKind::GenericIo
            }
        },
    }
}

/// Maps the kind of a manual yield to the outcome of the advance: `Some` for
/// the three kinds that end it, `None` for every other kind.
pub fn terminal_outcome(kind: YieldKind) -> (outcome: Option<YieldManualReason>)
    ensures
        outcome == outcome_of(kind),
{
    match kind {
        YieldKind::Accepted => Some(YieldManualReason::Accepted),
        YieldKind::Rejected => Some(YieldManualReason::Rejected),
        YieldKind::Exception => Some(YieldManualReason::Exception),
        _ => None,
    }
}

/// Picks the category of the response to a generic request: `Advance` for the
/// advance-state reason, `Inspect` for the inspect-state reason, and none for
/// any other.
pub fn response_category(reason: u16) -> (category: Option<ResponseCategory>)
    ensures
        category == category_of(reason),
{
    if reason == RESPONSE_ADVANCE_STATE {
        Some(ResponseCategory::Advance)
    } else if reason == RESPONSE_INSPECT_STATE {
        Some(ResponseCategory::Inspect)
    } else {
        None
    }
}

/// The class that a command code stands for, if it stands for one.
pub fn class_of_command(code: u8) -> (class: Option<YieldClass>)
    ensures
        class == (if code == crate::constants::YIELD_AUTOMATIC {
            Some(YieldClass::Automatic)
        } else if code == crate::constants::YIELD_MANUAL {
            Some(YieldClass::Manual)
        } else {
            None::<YieldClass>
        }),
{
    if code == crate::constants::YIELD_AUTOMATIC {
        Some(YieldClass::Automatic)
    } else if code == crate::constants::YIELD_MANUAL {
        Some(YieldClass::Manual)
    } else {
        None
    }
}

} // verus!
