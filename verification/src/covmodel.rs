//! Validation of covariance-model parameters.
//!
//! A covariance model is built from its raw parameters (`var`, `len_scale`,
//! `nugget` and, for Matérn, `nu`). The parameters are checked in a fixed
//! order and the first one that is out of range is the one reported. The
//! comparisons themselves are floating-point and are made by the caller;
//! this module decides, from their outcomes, whether the model is accepted
//! and which parameter is blamed.

use vstd::prelude::*;

verus! {

/// The family of a covariance model.
#[derive(Clone, Copy, Debug, PartialEq, Eq, Structural)]
pub enum ModelKind {
    Gaussian,
    Exponential,
    Matern,
}

/// The parameter that made a covariance model invalid.
#[derive(Clone, Copy, Debug, PartialEq, Eq, Structural)]
pub enum InvalidParam {
    /// `var < 0`.
    Var,
    /// `len_scale <= 0`.
    LenScale,
    /// `nugget < 0`.
    Nugget,
    /// `nu` is not a number or `nu <= 0` (Matérn only).
    Nu,
}

/// The outcome of each parameter's range comparison.
#[derive(Clone, Copy, Debug, PartialEq, Eq, Structural)]
pub struct ParamChecks {
    /// `var < 0`.
    pub var_negative: bool,
    /// `len_scale <= 0`.
    pub len_scale_not_positive: bool,
    /// `nugget < 0`.
    pub nugget_negative: bool,
    /// `nu` is NaN or `nu <= 0`; only consulted for a Matérn model.
    pub nu_not_positive: bool,
}

/// Whether a model of family `kind` whose range comparisons came out as
/// `checks` is accepted, and otherwise the first invalid parameter in the
/// order `var`, `len_scale`, `nugget`, `nu`.
pub open spec fn param_verdict(kind: ModelKind, checks: ParamChecks) -> Result<(), InvalidParam> {
    if checks.var_negative {
        Err(InvalidParam::Var)
    } else if checks.len_scale_not_positive {
        Err(InvalidParam::LenScale)
    } else if checks.nugget_negative {
        Err(InvalidParam::Nugget)
    } else if kind == ModelKind::Matern && checks.nu_not_positive {
        Err(InvalidParam::Nu)
    } else {
        Ok(())
    }
}

/// The verdict blames a parameter only if its own check failed and every
/// parameter before it (in the order `var`, `len_scale`, `nugget`, `nu`)
/// passed, `nu` only for a Matérn model; with no failed check it accepts.
pub proof fn lemma_verdict_blames_first_failed_check(kind: ModelKind, checks: ParamChecks)
    ensures
        param_verdict(kind, checks) == Err::<(), InvalidParam>(InvalidParam::Var)
            <==> checks.var_negative,
        param_verdict(kind, checks) == Err::<(), InvalidParam>(InvalidParam::LenScale)
            <==> !checks.var_negative && checks.len_scale_not_positive,
        param_verdict(kind, checks) == Err::<(), InvalidParam>(InvalidParam::Nugget)
            <==> !checks.var_negative && !checks.len_scale_not_positive && checks.nugget_negative,
        param_verdict(kind, checks) == Err::<(), InvalidParam>(InvalidParam::Nu)
            <==> !checks.var_negative && !checks.len_scale_not_positive && !checks.nugget_negative
            && kind == ModelKind::Matern && checks.nu_not_positive,
        param_verdict(kind, checks) is Ok <==> !checks.var_negative
            && !checks.len_scale_not_positive && !checks.nugget_negative && !(kind
            == ModelKind::Matern && checks.nu_not_positive),
{
}

/// Decides whether a model of family `kind` is accepted, given the
/// outcomes of its parameters' range comparisons, and otherwise which
/// parameter is reported: the model is accepted exactly when no comparison
/// failed (`nu` counting for Matérn only), and otherwise the first failing
/// parameter in the order `var`, `len_scale`, `nugget`, `nu` is reported.
pub fn check_params(kind: ModelKind, checks: ParamChecks) -> (res: Result<(), InvalidParam>)
    ensures
        res == param_verdict(kind, checks),
        res is Ok <==> !checks.var_negative && !checks.len_scale_not_positive
            && !checks.nugget_negative && !(kind == ModelKind::Matern && checks.nu_not_positive),
        res == Err::<(), InvalidParam>(InvalidParam::Var) <==> checks.var_negative,
        res == Err::<(), InvalidParam>(InvalidParam::LenScale) <==> !checks.var_negative
            && checks.len_scale_not_positive,
        res == Err::<(), InvalidParam>(InvalidParam::Nugget) <==> !checks.var_negative
            && !checks.len_scale_not_positive && checks.nugget_negative,
        res == Err::<(), InvalidParam>(InvalidParam::Nu) <==> !checks.var_negative
            && !checks.len_scale_not_positive && !checks.nugget_negative && kind
            == ModelKind::Matern && checks.nu_not_positive,
{
    if checks.var_negative {
        return Err(InvalidParam::Var);
    }
    if checks.len_scale_not_positive {
        return Err(InvalidParam::LenScale);
    }
    if checks.nugget_negative {
        return Err(InvalidParam::Nugget);
    }
    match kind {
        ModelKind::Matern => {
            if checks.nu_not_positive {
                return Err(InvalidParam::Nu);
            }
        },
        _ => {},
    }
    Ok(())
}

} // verus!
