//! The persisted form of a configuration: a structured record of four named
//! fields. Turning bytes into a record and back is left to the encoding
//! library in use; what a record must hold is decided here.
use crate::params::RollingFnParams;
use crate::window::{ClosedWindow, Duration};
use vstd::prelude::*;

verus! {

/// A structured record as it was read or is to be written. A field that the
/// record does not hold is `None`.
#[derive(Clone, Copy, Debug, PartialEq, Eq)]
pub struct Record {
    pub window_size: Option<Duration>,
    pub min_periods: Option<usize>,
    pub closed_window: Option<ClosedWindow>,
    /// Absent in records written before rolling functions had parameters.
    pub fn_params: Option<RollingFnParams>,
}

/// The fields of a record. Their names are part of the persisted form and
/// stay as they are; their order in a record carries no meaning.
#[derive(Clone, Copy, Debug, PartialEq, Eq, Structural, Hash)]
pub enum RecordField {
    WindowSize,
    MinPeriods,
    ClosedWindow,
    FnParams,
}

/// Why a record could not be decoded.
#[derive(Clone, Copy, Debug, PartialEq, Eq, Structural)]
pub enum DecodeError {
    /// The record lacks a required field; `missing` is the first such field.
    MalformedRecord { missing: RecordField },
}

impl RecordField {
    /// The name under which the field is persisted.
    pub open spec fn persisted_name(self) -> Seq<char> {
        match self {
            RecordField::WindowSize => "window_size"@,
            RecordField::MinPeriods => "min_periods"@,
            RecordField::ClosedWindow => "closed_window"@,
            RecordField::FnParams => "fn_params"@,
        }
    }

    /// A record may lack the field and still be decoded.
    pub open spec fn is_optional(self) -> bool {
        self == RecordField::FnParams
    }

    /// The name under which the field is written and looked up.
    pub fn name(self) -> (name: &'static str)
        ensures
            name@ == self.persisted_name(),
    {
        match self {
            RecordField::WindowSize => "window_size",
            RecordField::MinPeriods => "min_periods",
            RecordField::ClosedWindow => "closed_window",
            RecordField::FnParams => "fn_params",
        }
    }
}

impl Record {
    /// The record holds the field.
    pub open spec fn has(&self, field: RecordField) -> bool {
        match field {
            RecordField::WindowSize => self.window_size.is_some(),
            RecordField::MinPeriods => self.min_periods.is_some(),
            RecordField::ClosedWindow => self.closed_window.is_some(),
            RecordField::FnParams => self.fn_params.is_some(),
        }
    }

    /// The first of the required fields that the record lacks, in the order
    /// `window_size`, `min_periods`, `closed_window`.
    pub open spec fn first_missing(&self) -> Option<RecordField> {
        if self.window_size.is_none() {
            Some(RecordField::WindowSize)
        } else if self.min_periods.is_none() {
            Some(RecordField::MinPeriods)
        } else if self.closed_window.is_none() {
            Some(RecordField::ClosedWindow)
        } else {
            None
        }
    }

    /// The three required fields are present. `fn_params` is not required.
    pub open spec fn is_complete(&self) -> bool {
        &&& self.window_size.is_some()
        &&& self.min_periods.is_some()
        &&& self.closed_window.is_some()
    }

    /// The canonical parameters that the record stands for: those it holds,
    /// or `NoParams` where it holds none.
    pub open spec fn params(&self) -> RollingFnParams {
        match self.fn_params {
            Some(p) => p,
            None => RollingFnParams::NoParams,
        }
    }

    /// The required field whose absence makes the record malformed, if any.
    pub fn missing_field(&self) -> (missing: Option<RecordField>)
        ensures
            missing == self.first_missing(),
            missing.is_none() <==> self.is_complete(),
            missing matches Some(field) ==> !field.is_optional() && !self.has(field),
    {
        if self.window_size.is_none() {
            Some(RecordField::WindowSize)
        } else if self.min_periods.is_none() {
            Some(RecordField::MinPeriods)
        } else if self.closed_window.is_none() {
            Some(RecordField::ClosedWindow)
        } else {
            None
        }
    }
}

/// No two fields are persisted under the same name.
pub proof fn lemma_field_names_differ(a: RecordField, b: RecordField)
    requires
        a != b,
    ensures
        a.persisted_name() != b.persisted_name(),
{
    reveal_strlit("window_size");
    reveal_strlit("min_periods");
    reveal_strlit("closed_window");
    reveal_strlit("fn_params");
    assert("window_size"@.len() == 11 && "window_size"@[0] == 'w');
    assert("min_periods"@.len() == 11 && "min_periods"@[0] == 'm');
    assert("closed_window"@.len() == 13);
    assert("fn_params"@.len() == 9);
}

/// A record is complete exactly when every field it lacks is optional.
pub proof fn lemma_complete_iff_only_optional_missing(record: Record)
    ensures
        record.is_complete() <==> (forall|field: RecordField|
            record.has(field) || field.is_optional()),
        record.is_complete() <==> record.first_missing().is_none(),
{
    if forall|field: RecordField| record.has(field) || field.is_optional() {
        assert(record.has(RecordField::WindowSize) || RecordField::WindowSize.is_optional());
        assert(record.has(RecordField::MinPeriods) || RecordField::MinPeriods.is_optional());
        assert(record.has(RecordField::ClosedWindow) || RecordField::ClosedWindow.is_optional());
    }
}

} // verus!
