use vstd::prelude::*;

verus! {

/// The integer settings of a render: image size, samples per pixel and the
/// bounce limit of each path.
#[derive(Clone, Copy, Debug, PartialEq, Eq, Structural)]
pub struct RenderConfig {
    pub image_width: u32,
    pub image_height: u32,
    pub samples_per_pixel: u32,
    pub max_depth: u32,
}

/// A setting that would make a render meaningless.
#[derive(Clone, Copy, Debug, PartialEq, Eq, Structural)]
pub enum ConfigError {
    ZeroWidth,
    ZeroHeight,
    ZeroSamples,
}

impl RenderConfig {
    /// Every setting usable: a non-empty image and at least one sample per
    /// pixel. Any bounce limit is allowed; zero renders black.
    pub open spec fn wf(&self) -> bool {
        self.image_width > 0 && self.image_height > 0 && self.samples_per_pixel > 0
    }

    /// Checks the settings. The width is checked first, then the height,
    /// then the sample count.
    pub fn new(image_width: u32, image_height: u32, samples_per_pixel: u32, max_depth: u32) -> (r:
        Result<RenderConfig, ConfigError>)
        ensures
            r is Ok <==> (image_width > 0 && image_height > 0 && samples_per_pixel > 0),
            r is Ok ==> r->Ok_0.wf() && r->Ok_0 == (RenderConfig {
                image_width,
                image_height,
                samples_per_pixel,
                max_depth,
            }),
            image_width == 0 ==> r == Err::<RenderConfig, ConfigError>(ConfigError::ZeroWidth),
            (image_width > 0 && image_height == 0) ==> r == Err::<RenderConfig, ConfigError>(
                ConfigError::ZeroHeight,
            ),
            (image_width > 0 && image_height > 0 && samples_per_pixel == 0) ==> r == Err::<
                RenderConfig,
                ConfigError,
            >(ConfigError::ZeroSamples),
    {
        if image_width == 0 {
            Err(ConfigError::ZeroWidth)
        } else if image_height == 0 {
            Err(ConfigError::ZeroHeight)
        } else if samples_per_pixel == 0 {
            Err(ConfigError::ZeroSamples)
        } else {
            Ok(RenderConfig { image_width, image_height, samples_per_pixel, max_depth })
        }
    }

    /// The number of pixels, `width * height`.
    pub fn pixel_count(&self) -> (r: u64)
        ensures
            r == self.image_width as int * self.image_height as int,
    {
        assert(self.image_width as int * self.image_height as int <= u32::MAX as int
            * u32::MAX as int) by (nonlinear_arith);
        self.image_width as u64 * self.image_height as u64
    }
}

} // verus!
