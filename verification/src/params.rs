//! The filter's parameters and the parameter block that a kernel reads.

use vstd::prelude::*;

verus! {

/// Bit pattern of the default spatial deviation, 7.0.
pub const DEFAULT_SIGMA: u32 = 0x40E0_0000;

/// Bit pattern of the default radius multiplier, 3.0.
pub const DEFAULT_K_SIGMA: u32 = 0x4040_0000;

/// Bit pattern of the default edge threshold, 0.195.
pub const DEFAULT_THRESHOLD: u32 = 0x3E47_AE14;

/// Bit pattern of positive infinity, the largest pattern that is a number.
pub const POSITIVE_INFINITY: u32 = 0x7F80_0000;

/// Whether an IEEE 754 single-precision bit pattern stands for a number
/// greater than zero: the sign bit is clear, the pattern is not that of zero,
/// and it is not a NaN.
pub open spec fn is_positive_bits(bits: u32) -> bool {
    0 < bits <= POSITIVE_INFINITY
}

/// The filter's parameters, each held as the bit pattern of an IEEE 754
/// single-precision number.
#[derive(Debug, Clone, Copy, PartialEq, Eq, Structural)]
pub struct DenoiseParams {
    /// Standard deviation of the spatial Gaussian.
    pub sigma: u32,
    /// Multiplier that turns `sigma` into the radius of the support.
    pub k_sigma: u32,
    /// Standard deviation of the range Gaussian: the edge sensitivity.
    pub threshold: u32,
}

impl DenoiseParams {
    /// All three parameters are greater than zero.
    pub open spec fn well_formed(self) -> bool {
        &&& is_positive_bits(self.sigma)
        &&& is_positive_bits(self.k_sigma)
        &&& is_positive_bits(self.threshold)
    }

    /// The default parameters: sigma 7.0, multiplier 3.0, threshold 0.195.
    pub open spec fn default_spec() -> DenoiseParams {
        DenoiseParams {
            sigma: DEFAULT_SIGMA,
            k_sigma: DEFAULT_K_SIGMA,
            threshold: DEFAULT_THRESHOLD,
        }
    }

    /// Parameters from the bit patterns of the three numbers.
    pub fn new(sigma: u32, k_sigma: u32, threshold: u32) -> (params: Self)
        ensures
            params == (DenoiseParams { sigma, k_sigma, threshold }),
    {
        Self { sigma, k_sigma, threshold }
    }

    /// Tells whether all three parameters are greater than zero. The filter
    /// itself does not check: on other parameters its output is undefined.
    pub fn is_well_formed(&self) -> (ok: bool)
        ensures
            ok == self.well_formed(),
    {
        0 < self.sigma && self.sigma <= POSITIVE_INFINITY && 0 < self.k_sigma && self.k_sigma
            <= POSITIVE_INFINITY && 0 < self.threshold && self.threshold <= POSITIVE_INFINITY
    }
}

impl Default for DenoiseParams {
    fn default() -> (params: Self)
        ensures
            params == DenoiseParams::default_spec(),
            params.well_formed(),
    {
        Self { sigma: DEFAULT_SIGMA, k_sigma: DEFAULT_K_SIGMA, threshold: DEFAULT_THRESHOLD }
    }
}

/// The per-invocation parameter block of a kernel: five 32-bit words.
#[derive(Debug, Clone, Copy, PartialEq, Eq, Structural)]
pub struct ShaderParams {
    pub width: u32,
    pub height: u32,
    pub sigma: u32,
    pub k_sigma: u32,
    pub threshold: u32,
}

impl ShaderParams {
    /// The words of the block, in the order the kernel declares them.
    pub open spec fn words_spec(self) -> Seq<u32> {
        seq![self.width, self.height, self.sigma, self.k_sigma, self.threshold]
    }

    /// The block for an image of the given size.
    pub fn new(width: u32, height: u32, denoise_parameters: DenoiseParams) -> (params: Self)
        ensures
            params == (ShaderParams {
                width,
                height,
                sigma: denoise_parameters.sigma,
                k_sigma: denoise_parameters.k_sigma,
                threshold: denoise_parameters.threshold,
            }),
    {
        Self {
            width,
            height,
            sigma: denoise_parameters.sigma,
            k_sigma: denoise_parameters.k_sigma,
            threshold: denoise_parameters.threshold,
        }
    }

    /// The words of the block, in the order the kernel declares them.
    pub fn words(&self) -> (words: [u32; 5])
        ensures
            words@ == self.words_spec(),
    {
        let words = [self.width, self.height, self.sigma, self.k_sigma, self.threshold];
        assert(words@ =~= self.words_spec());
        words
    }
}

} // verus!
