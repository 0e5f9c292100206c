//! The configuration of a rolling aggregation over a dynamic window: its
//! construction, its equality and its persisted form.
use crate::params::{canonical_form, DynArgs, RollingFnParams};
use crate::record::{DecodeError, Record};
use crate::window::{ClosedWindow, Duration};
use vstd::prelude::*;

verus! {

/// What a rolling aggregation over a time-based window is run with. Once
/// built it is a value: nothing changes it, and the payload it may share with
/// other configurations is never written to.
#[derive(Clone, Debug)]
pub struct RollingOptionsDynamicWindow {
    /// The length of the window.
    pub window_size: Duration,
    /// Amount of elements in the window that should be filled before computing a result.
    pub min_periods: usize,
    /// Which side windows should be closed.
    pub closed_window: ClosedWindow,
    /// Optional parameters for the rolling function
    pub fn_params: DynArgs,
}

impl RollingOptionsDynamicWindow {
    /// The parameters of the rolling function in canonical form.
    pub open spec fn canonical_params(&self) -> RollingFnParams {
        canonical_form(self.fn_params)
    }

    /// What `==` means on configurations: the window, the minimum and the
    /// closure policy are identical, and the parameters have the same
    /// canonical form.
    pub open spec fn equals(&self, other: RollingOptionsDynamicWindow) -> bool {
        &&& self.window_size == other.window_size
        &&& self.min_periods == other.min_periods
        &&& self.closed_window == other.closed_window
        &&& self.canonical_params() == other.canonical_params()
    }

    /// The record that persists this configuration: all four fields are
    /// present, and the parameters stand in canonical form.
    pub open spec fn record(&self) -> Record {
        Record {
            window_size: Some(self.window_size),
            min_periods: Some(self.min_periods),
            closed_window: Some(self.closed_window),
            fn_params: Some(self.canonical_params()),
        }
    }

    /// `record` can be decoded and `self` is what it decodes to, up to the
    /// handle that holds the payload.
    pub open spec fn decodes(&self, record: Record) -> bool {
        &&& record.is_complete()
        &&& record.window_size == Some(self.window_size)
        &&& record.min_periods == Some(self.min_periods)
        &&& record.closed_window == Some(self.closed_window)
        &&& record.params() == self.canonical_params()
    }

    /// Builds a configuration from its parts. Nothing is validated: whether
    /// `min_periods` fits the window is for the consumer to decide.
    pub fn new(
        window_size: Duration,
        min_periods: usize,
        closed_window: ClosedWindow,
        fn_params: DynArgs,
    ) -> (options: RollingOptionsDynamicWindow)
        ensures
            options.window_size == window_size,
            options.min_periods == min_periods,
            options.closed_window == closed_window,
            options.fn_params == fn_params,
    {
        RollingOptionsDynamicWindow { window_size, min_periods, closed_window, fn_params }
    }

    /// Encodes the configuration as a record of four fields. The payload is
    /// never written as it is: the record holds its canonical form.
    pub fn serialize(&self) -> (record: Record)
        ensures
            record == self.record(),
    {
        let rolling_fn_params = RollingFnParams::from_dyn_args(&self.fn_params);
        Record {
            window_size: Some(self.window_size),
            min_periods: Some(self.min_periods),
            closed_window: Some(self.closed_window),
            fn_params: Some(rolling_fn_params),
        }
    }

    /// Decodes a record. A record without one of `window_size`, `min_periods`
    /// and `closed_window` is malformed, and the error names the first of
    /// them that is missing. A record without `fn_params` stands for a
    /// configuration without parameters; otherwise the payload is rebuilt
    /// from the canonical form that the record holds.
    pub fn deserialize(record: &Record) -> (res: Result<RollingOptionsDynamicWindow, DecodeError>)
        ensures
            res.is_ok() <==> record.is_complete(),
            match record.first_missing() {
                Some(missing) => res == Err::<RollingOptionsDynamicWindow, DecodeError>(
                    (DecodeError::MalformedRecord { missing }),
                ),
                None => res matches Ok(options) && options.decodes(*record),
            },
    {
        if let Some(missing) = record.missing_field() {
            return Err(DecodeError::MalformedRecord { missing });
        }
        let window_size = record.window_size.unwrap();
        let min_periods = record.min_periods.unwrap();
        let closed_window = record.closed_window.unwrap();
        let fn_params = match record.fn_params {
            Some(params) => params.to_dyn_args(),
            None => None,
        };
        Ok(RollingOptionsDynamicWindow { window_size, min_periods, closed_window, fn_params })
    }
}

impl PartialEq for RollingOptionsDynamicWindow {
    /// Two configurations are equal when their window, their minimum and
    /// their closure policy are, and their parameters have the same canonical
    /// form. The payloads themselves are not compared.
    fn eq(&self, other: &Self) -> (r: bool) {
        self.window_size == other.window_size
            && self.min_periods == other.min_periods
            && self.closed_window == other.closed_window
            && RollingFnParams::from_dyn_args(&self.fn_params)
                == RollingFnParams::from_dyn_args(&other.fn_params)
    }
}

impl vstd::std_specs::cmp::PartialEqSpecImpl for RollingOptionsDynamicWindow {
    open spec fn obeys_eq_spec() -> bool {
        true
    }

    open spec fn eq_spec(&self, other: &Self) -> bool {
        self.equals(*other)
    }
}

/// Every configuration equals itself.
pub proof fn lemma_eq_reflexive(a: RollingOptionsDynamicWindow)
    ensures
        a.equals(a),
{
}

/// Equality does not depend on the side a configuration stands on.
pub proof fn lemma_eq_symmetric(a: RollingOptionsDynamicWindow, b: RollingOptionsDynamicWindow)
    ensures
        a.equals(b) == b.equals(a),
{
}

/// Two configurations that equal a third equal each other.
pub proof fn lemma_eq_transitive(
    a: RollingOptionsDynamicWindow,
    b: RollingOptionsDynamicWindow,
    c: RollingOptionsDynamicWindow,
)
    requires
        a.equals(b),
        b.equals(c),
    ensures
        a.equals(c),
{
}

/// Two configurations with the same window, minimum and closure policy, whose
/// payloads are both absent or hold the same parameters, are equal whichever
/// handles hold the payloads.
pub proof fn lemma_eq_ignores_handle(a: RollingOptionsDynamicWindow, b: RollingOptionsDynamicWindow)
    requires
        a.window_size == b.window_size,
        a.min_periods == b.min_periods,
        a.closed_window == b.closed_window,
        a.fn_params.is_some() == b.fn_params.is_some(),
        a.fn_params.is_some() ==> *a.fn_params.unwrap() == *b.fn_params.unwrap(),
    ensures
        a.equals(b),
{
}

/// A record without `fn_params` decodes to a configuration without payload,
/// whose parameters have the canonical form `NoParams`.
pub proof fn lemma_decode_without_params(record: Record, options: RollingOptionsDynamicWindow)
    requires
        record.fn_params.is_none(),
        options.decodes(record),
    ensures
        options.canonical_params() == RollingFnParams::NoParams,
        options.fn_params.is_none(),
{
}

/// Whatever a record decodes to encodes as that record again, with
/// `fn_params` filled in where the record had none.
pub proof fn lemma_decode_then_encode(record: Record, options: RollingOptionsDynamicWindow)
    requires
        options.decodes(record),
    ensures
        options.record() == (Record { fn_params: Some(record.params()), ..record }),
        record.fn_params.is_some() ==> options.record() == record,
{
}

/// The record of a configuration can be decoded, and whatever it decodes to
/// equals the configuration.
pub proof fn lemma_encode_then_decode(
    options: RollingOptionsDynamicWindow,
    decoded: RollingOptionsDynamicWindow,
)
    requires
        decoded.decodes(options.record()),
    ensures
        options.record().is_complete(),
        decoded.equals(options),
{
}

/// Two configurations that decode the same record are equal.
pub proof fn lemma_decoding_is_unique(
    record: Record,
    a: RollingOptionsDynamicWindow,
    b: RollingOptionsDynamicWindow,
)
    requires
        a.decodes(record),
        b.decodes(record),
    ensures
        a.equals(b),
{
}

} // verus!
