//! Parameters of a rolling function, in their two forms.
//!
//! At run time a configuration holds a shared, optional [`ParamPayload`]: the
//! value the aggregation kernels consume. Whenever the parameters cross a
//! boundary (they are compared or persisted) they are first brought into
//! [`RollingFnParams`], a closed set of plain values.
use std::sync::Arc;
use vstd::prelude::*;

verus! {

/// How a quantile that falls between two observations is resolved.
#[derive(Clone, Copy, Debug, PartialEq, Eq, Structural, Hash)]
pub enum QuantileInterpolOptions {
    Nearest,
    Lower,
    Higher,
    Midpoint,
    Linear,
}

/// Parameters of a rolling quantile.
#[derive(Clone, Copy, Debug, PartialEq, Eq, Structural, Hash)]
pub struct RollingQuantileParams {
    /// The quantile fraction, as the bit pattern of its binary64 encoding.
    pub prob_bits: u64,
    pub interpol: QuantileInterpolOptions,
}

/// Parameters of a rolling variance or standard deviation.
#[derive(Clone, Copy, Debug, PartialEq, Eq, Structural, Hash)]
pub struct RollingVarParams {
    /// Delta degrees of freedom.
    pub ddof: u8,
}

/// The parameter value that the aggregation kernels consume: one shape per
/// rolling function that takes extra parameters.
#[derive(Clone, Copy, Debug, PartialEq, Eq, Structural, Hash)]
pub enum ParamPayload {
    Quantile(RollingQuantileParams),
    Var(RollingVarParams),
}

/// The payload as a configuration holds it: shared among the configurations
/// derived from one another, and absent where the rolling function runs on
/// its defaults.
pub type DynArgs = Option<Arc<ParamPayload>>;

/// The canonical form of a rolling function's parameters: the only form that
/// is compared or persisted.
#[derive(Clone, Copy, Debug, PartialEq, Eq, Structural, Hash)]
pub enum RollingFnParams {
    /// No extra parameters: the rolling function runs on its defaults.
    NoParams,
    Quantile(RollingQuantileParams),
    Var(RollingVarParams),
}

/// The canonical form of a payload. It looks at what the payload holds, never
/// at which handle holds it.
pub open spec fn canonical_form(args: DynArgs) -> RollingFnParams {
    match args {
        None => RollingFnParams::NoParams,
        Some(payload) => match *payload {
            ParamPayload::Quantile(q) => RollingFnParams::Quantile(q),
            ParamPayload::Var(v) => RollingFnParams::Var(v),
        },
    }
}

/// What a payload rebuilt from a canonical form holds; `None` where it is
/// absent.
pub open spec fn payload_of(params: RollingFnParams) -> Option<ParamPayload> {
    match params {
        RollingFnParams::NoParams => None,
        RollingFnParams::Quantile(q) => Some(ParamPayload::Quantile(q)),
        RollingFnParams::Var(v) => Some(ParamPayload::Var(v)),
    }
}

impl RollingFnParams {
    /// Brings an optional payload into canonical form: an absent payload
    /// becomes `NoParams`, a present one the variant of its shape with its
    /// scalar fields copied out.
    pub fn from_dyn_args(args: &DynArgs) -> (params: RollingFnParams)
        ensures
            params == canonical_form(*args),
            args.is_none() ==> params == RollingFnParams::NoParams,
    {
        match args {
            None => RollingFnParams::NoParams,
            Some(payload) => match **payload {
                ParamPayload::Quantile(q) => RollingFnParams::Quantile(q),
                ParamPayload::Var(v) => RollingFnParams::Var(v),
            },
        }
    }

    /// Builds a fresh shared payload that carries the same scalar fields;
    /// `NoParams` gives no payload at all.
    pub fn to_dyn_args(&self) -> (args: DynArgs)
        ensures
            match args {
                Some(payload) => payload_of(*self) == Some(*payload),
                None => payload_of(*self).is_none(),
            },
            canonical_form(args) == *self,
            args.is_none() <==> *self == RollingFnParams::NoParams,
    {
        match *self {
            RollingFnParams::NoParams => None,
            RollingFnParams::Quantile(q) => Some(Arc::new(ParamPayload::Quantile(q))),
            RollingFnParams::Var(v) => Some(Arc::new(ParamPayload::Var(v))),
        }
    }
}

/// Rebuilding a payload from a canonical form and bringing it back into
/// canonical form gives the form one started from.
pub proof fn lemma_canonical_round_trip(params: RollingFnParams, args: DynArgs)
    requires
        match args {
            Some(payload) => payload_of(params) == Some(*payload),
            None => payload_of(params).is_none(),
        },
    ensures
        canonical_form(args) == params,
{
}

/// The canonical form loses nothing: what a payload rebuilt from it holds is
/// what the payload it was taken from holds.
pub proof fn lemma_rebuilt_payload_is_equivalent(args: DynArgs)
    ensures
        match args {
            Some(payload) => payload_of(canonical_form(args)) == Some(*payload),
            None => payload_of(canonical_form(args)).is_none(),
        },
{
}

/// Two payloads that hold the same parameters have the same canonical form,
/// whichever handles hold them; so have two absent payloads.
pub proof fn lemma_canonical_ignores_handle(a: DynArgs, b: DynArgs)
    requires
        a.is_some() == b.is_some(),
        a.is_some() ==> *a.unwrap() == *b.unwrap(),
    ensures
        canonical_form(a) == canonical_form(b),
{
}

/// A present payload never has the canonical form `NoParams`, and an absent
/// one always has.
pub proof fn lemma_no_params_iff_absent(args: DynArgs)
    ensures
        canonical_form(args) == RollingFnParams::NoParams <==> args.is_none(),
{
}

} // verus!
