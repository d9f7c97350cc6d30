//! The command line's decisions: which stage a selector names and which
//! parameters the optional arguments stand for.

use vstd::prelude::*;
use crate::error::DenoiseError;
use crate::params::DenoiseParams;
use crate::variant::UsingShader;

verus! {

/// The stage that a selector names, if it names one.
pub open spec fn shader_type_spec(name: Seq<char>) -> Option<UsingShader> {
    if name == "fragment"@ {
        Some(UsingShader::Fragment)
    } else if name == "compute"@ {
        Some(UsingShader::Compute)
    } else {
        None
    }
}

/// Reads a stage selector: `fragment` or `compute`. Anything else is an
/// argument error.
pub fn parse_shader_type(name: &str) -> (r: Result<UsingShader, DenoiseError>)
    ensures
        match shader_type_spec(name@) {
            Some(stage) => r == Ok::<UsingShader, DenoiseError>(stage),
            None => r == Err::<UsingShader, DenoiseError>(DenoiseError::InvalidArgument),
        },
{
    let given = String::from_str(name);
    if given == String::from_str("fragment") {
        Ok(UsingShader::Fragment)
    } else if given == String::from_str("compute") {
        Ok(UsingShader::Compute)
    } else {
        Err(DenoiseError::InvalidArgument)
    }
}

/// The parameters that the three optional arguments stand for, if they are
/// given all together or not at all.
pub open spec fn params_spec(sigma: Option<u32>, k_sigma: Option<u32>, threshold: Option<u32>)
    -> Option<DenoiseParams> {
    match (sigma, k_sigma, threshold) {
        (None, None, None) => Some(DenoiseParams::default_spec()),
        (Some(sigma), Some(k_sigma), Some(threshold)) => Some(
            DenoiseParams { sigma, k_sigma, threshold },
        ),
        _ => None,
    }
}

/// Chooses the filter's parameters: the defaults where none of the three is
/// given, the given ones where all three are, and an argument error where
/// only some are.
pub fn choose_params(sigma: Option<u32>, k_sigma: Option<u32>, threshold: Option<u32>) -> (r:
    Result<DenoiseParams, DenoiseError>)
    ensures
        match params_spec(sigma, k_sigma, threshold) {
            Some(params) => r == Ok::<DenoiseParams, DenoiseError>(params),
            None => r == Err::<DenoiseParams, DenoiseError>(DenoiseError::InvalidArgument),
        },
{
    match (sigma, k_sigma, threshold) {
        (None, None, None) => Ok(DenoiseParams::default()),
        (Some(sigma), Some(k_sigma), Some(threshold)) => Ok(
            DenoiseParams::new(sigma, k_sigma, threshold),
        ),
        _ => Err(DenoiseError::InvalidArgument),
    }
}

} // verus!
