//! Pipeline configuration and its validation.
//!
//! A configuration is checked once, before the pipeline runs; the pipeline
//! itself is never invoked on an invalid one. Every reason for rejection is
//! its own fault value, and validation reports the first one in a fixed
//! order.

use vstd::prelude::*;
use crate::math::{FB_DIM_LIMIT, SCALE, WORLD_LIMIT};
use crate::math::lemma_mul_bound;
use crate::quantizer::RAMP_LEN_LIMIT;

verus! {

/// Everything the pipeline needs to know for a session: framebuffer size,
/// projection parameters, output grid size, and the glyph ramp.
///
/// The focal lengths are fixed-point reciprocals of the tangent of half the
/// field of view per axis (a 90 degree field of view is
/// [`SCALE`](crate::math::SCALE)); the clip distances are fixed point too.
pub struct Config {
    pub width: usize,
    pub height: usize,
    pub focal_x: i64,
    pub focal_y: i64,
    pub near: i64,
    pub far: i64,
    pub out_rows: usize,
    pub out_cols: usize,
    pub ramp: Vec<u8>,
}

/// A reason a configuration is rejected.
#[derive(Clone, Copy, PartialEq, Eq, Structural, Debug)]
pub enum ConfigError {
    /// Framebuffer width or height is zero.
    ZeroFramebuffer,
    /// Framebuffer width or height exceeds [`FB_DIM_LIMIT`].
    FramebufferTooLarge,
    /// Output grid rows or columns is zero.
    ZeroGrid,
    /// Output grid rows exceed the framebuffer height, or columns its width.
    GridTooLarge,
    /// The glyph ramp is empty.
    EmptyRamp,
    /// The glyph ramp is longer than [`RAMP_LEN_LIMIT`].
    RampTooLong,
    /// A ramp glyph is not plain ASCII.
    RampNotAscii,
    /// A focal length is out of `(0, WORLD_LIMIT]`.
    InvalidFocal,
    /// The clip planes do not satisfy `0 < near < far <= WORLD_LIMIT`, or
    /// they are so close together that the depth entries of the perspective
    /// matrix would leave the fixed-point range.
    InvalidClipPlanes,
}

impl Config {
    /// A configuration the pipeline may run with.
    pub open spec fn valid(self) -> bool {
        &&& 1 <= self.width <= FB_DIM_LIMIT
        &&& 1 <= self.height <= FB_DIM_LIMIT
        &&& 1 <= self.out_cols <= self.width
        &&& 1 <= self.out_rows <= self.height
        &&& 1 <= self.ramp@.len() <= RAMP_LEN_LIMIT
        &&& forall|i: int| 0 <= i < self.ramp@.len() ==> self.ramp@[i] < 0x80
        &&& 0 < self.focal_x <= WORLD_LIMIT
        &&& 0 < self.focal_y <= WORLD_LIMIT
        &&& 0 < self.near < self.far <= WORLD_LIMIT
        &&& (self.far + self.near) * SCALE <= (self.far - self.near) * WORLD_LIMIT
        &&& 2 * self.far * self.near <= (self.far - self.near) * WORLD_LIMIT
    }

    /// The outcome of validation: the first failed check in a fixed order,
    /// or nothing.
    pub open spec fn validate_spec(self) -> Result<(), ConfigError> {
        if self.width < 1 || self.height < 1 {
            Err(ConfigError::ZeroFramebuffer)
        } else if self.width > FB_DIM_LIMIT || self.height > FB_DIM_LIMIT {
            Err(ConfigError::FramebufferTooLarge)
        } else if self.out_cols < 1 || self.out_rows < 1 {
            Err(ConfigError::ZeroGrid)
        } else if self.out_cols > self.width || self.out_rows > self.height {
            Err(ConfigError::GridTooLarge)
        } else if self.ramp@.len() < 1 {
            Err(ConfigError::EmptyRamp)
        } else if self.ramp@.len() > RAMP_LEN_LIMIT {
            Err(ConfigError::RampTooLong)
        } else if exists|i: int| 0 <= i < self.ramp@.len() && self.ramp@[i] >= 0x80 {
            Err(ConfigError::RampNotAscii)
        } else if self.focal_x < 1 || self.focal_x > WORLD_LIMIT || self.focal_y < 1
            || self.focal_y > WORLD_LIMIT {
            Err(ConfigError::InvalidFocal)
        } else if self.near < 1 || self.far <= self.near || self.far > WORLD_LIMIT
            || (self.far + self.near) * SCALE > (self.far - self.near) * WORLD_LIMIT
            || 2 * self.far * self.near > (self.far - self.near) * WORLD_LIMIT {
            Err(ConfigError::InvalidClipPlanes)
        } else {
            Ok(())
        }
    }

    /// Checks the configuration: nothing exactly when every rule of
    /// [`Config::valid`] holds, otherwise the first failure in the order of
    /// [`Config::validate_spec`].
    #[verifier::loop_isolation(false)]
    pub fn validate(&self) -> (r: Result<(), ConfigError>)
        ensures
            r == self.validate_spec(),
            r is Ok <==> self.valid(),
    {
        if self.width < 1 || self.height < 1 {
            return Err(ConfigError::ZeroFramebuffer);
        }
        if self.width > FB_DIM_LIMIT || self.height > FB_DIM_LIMIT {
            return Err(ConfigError::FramebufferTooLarge);
        }
        if self.out_cols < 1 || self.out_rows < 1 {
            return Err(ConfigError::ZeroGrid);
        }
        if self.out_cols > self.width || self.out_rows > self.height {
            return Err(ConfigError::GridTooLarge);
        }
        if self.ramp.len() < 1 {
            return Err(ConfigError::EmptyRamp);
        }
        if self.ramp.len() > RAMP_LEN_LIMIT {
            return Err(ConfigError::RampTooLong);
        }
        let mut i: usize = 0;
        while i < self.ramp.len()
            invariant
                i <= self.ramp@.len(),
                forall|j: int| 0 <= j < i ==> self.ramp@[j] < 0x80,
            decreases self.ramp@.len() - i,
        {
            if self.ramp[i] >= 0x80 {
                proof {
                    assert(self.ramp@[i as int] >= 0x80);
                }
                return Err(ConfigError::RampNotAscii);
            }
            i = i + 1;
        }
        if self.focal_x < 1 || self.focal_x > WORLD_LIMIT || self.focal_y < 1
            || self.focal_y > WORLD_LIMIT {
            return Err(ConfigError::InvalidFocal);
        }
        if self.near < 1 || self.far <= self.near || self.far > WORLD_LIMIT {
            return Err(ConfigError::InvalidClipPlanes);
        }
        proof {
            lemma_mul_bound((self.far + self.near) as int, SCALE as int, 2 * WORLD_LIMIT as int,
                SCALE as int);
            lemma_mul_bound((self.far - self.near) as int, WORLD_LIMIT as int, WORLD_LIMIT as int,
                WORLD_LIMIT as int);
            lemma_mul_bound(self.far as int, self.near as int, WORLD_LIMIT as int,
                WORLD_LIMIT as int);
            lemma_mul_bound(2 * self.far as int, self.near as int, 2 * WORLD_LIMIT as int,
                WORLD_LIMIT as int);
        }
        if (self.far + self.near) * SCALE > (self.far - self.near) * WORLD_LIMIT {
            return Err(ConfigError::InvalidClipPlanes);
        }
        if 2 * self.far * self.near > (self.far - self.near) * WORLD_LIMIT {
            return Err(ConfigError::InvalidClipPlanes);
        }
        Ok(())
    }
}

} // verus!
