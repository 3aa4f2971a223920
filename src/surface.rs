use vstd::prelude::*;

verus! {

/// Width and height of a drawable area or an image, in pixels.
#[derive(Clone, Copy, Debug, PartialEq, Eq, Structural)]
pub struct Extent {
    pub width: u32,
    pub height: u32,
}

impl Extent {
    pub fn new(width: u32, height: u32) -> (r: Extent)
        ensures
            r.width == width,
            r.height == height,
    {
        Extent { width, height }
    }

    /// Both sides lie within `[lo, hi]`, side by side.
    pub open spec fn within(self, lo: Extent, hi: Extent) -> bool {
        &&& lo.width <= self.width <= hi.width
        &&& lo.height <= self.height <= hi.height
    }
}

/// What a presentation surface supports, as read from it.
///
/// Pixel formats and alpha-compositing modes are codes chosen by the caller
/// (the caller maps them back to its own values); their order is the order
/// in which the surface reports them.
#[derive(Clone, Debug)]
pub struct Capabilities {
    pub formats: Vec<u32>,
    pub alpha_modes: Vec<u32>,
    pub min_image_count: u32,
    pub max_image_count: Option<u32>,
    pub min_extent: Extent,
    pub max_extent: Extent,
}

/// The parameters a swap chain is built with. Image usage is always the
/// surface's whole supported set, so it is not carried here.
#[derive(Clone, Copy, Debug, PartialEq, Eq, Structural)]
pub struct SwapConfig {
    pub format: u32,
    pub image_count: u32,
    pub alpha: u32,
    pub extent: Extent,
}

/// Why a swap chain configuration cannot be chosen.
#[derive(Clone, Copy, Debug, PartialEq, Eq, Structural)]
pub enum ConfigError {
    /// The surface reports no pixel format: fatal, retrying cannot help.
    NoFormat,
    /// The surface reports no alpha-compositing mode: fatal as well.
    NoAlphaMode,
    /// The requested size lies outside the surface's supported extents.
    /// The caller may query the size again and retry.
    UnsupportedDimensions,
}

/// The configuration that `choose_config` picks when it succeeds.
pub open spec fn chosen_config(caps: Capabilities, requested: Extent) -> SwapConfig
    recommends
        caps.formats@.len() > 0,
        caps.alpha_modes@.len() > 0,
{
    SwapConfig {
        format: caps.formats@[0],
        image_count: caps.min_image_count,
        alpha: caps.alpha_modes@[0],
        extent: requested,
    }
}

/// Chooses the parameters of a first swap chain: the first supported format,
/// the minimum image count, the first alpha mode, and the requested size.
pub fn choose_config(caps: &Capabilities, requested: Extent) -> (r: Result<SwapConfig, ConfigError>)
    ensures
        caps.formats@.len() == 0 <==> r == Err::<SwapConfig, ConfigError>(ConfigError::NoFormat),
        caps.formats@.len() > 0 && caps.alpha_modes@.len() == 0 <==> r == Err::<
            SwapConfig,
            ConfigError,
        >(ConfigError::NoAlphaMode),
        caps.formats@.len() > 0 && caps.alpha_modes@.len() > 0 && !requested.within(
            caps.min_extent,
            caps.max_extent,
        ) <==> r == Err::<SwapConfig, ConfigError>(ConfigError::UnsupportedDimensions),
        r is Ok <==> (caps.formats@.len() > 0 && caps.alpha_modes@.len() > 0 && requested.within(
            caps.min_extent,
            caps.max_extent,
        )),
        r is Ok ==> r->Ok_0 == chosen_config(*caps, requested),
{
    if caps.formats.len() == 0 {
        return Err(ConfigError::NoFormat);
    }
    if caps.alpha_modes.len() == 0 {
        return Err(ConfigError::NoAlphaMode);
    }
    let lo = caps.min_extent;
    let hi = caps.max_extent;
    if requested.width < lo.width || requested.width > hi.width || requested.height < lo.height
        || requested.height > hi.height {
        return Err(ConfigError::UnsupportedDimensions);
    }
    Ok(SwapConfig {
        format: caps.formats[0],
        image_count: caps.min_image_count,
        alpha: caps.alpha_modes[0],
        extent: requested,
    })
}

/// The configuration a rebuild asks for: the same parameters at a new size.
pub open spec fn recreated(config: SwapConfig, size: Extent) -> SwapConfig {
    SwapConfig { extent: size, ..config }
}

/// Derives the configuration of a rebuilt swap chain from the current one.
pub fn recreate_config(config: SwapConfig, size: Extent) -> (r: SwapConfig)
    ensures
        r == recreated(config, size),
{
    SwapConfig { extent: size, ..config }
}

/// Rebuilding twice in a row at the same size asks both times for the same
/// configuration, and in particular for the same image count and format as
/// the chain it started from.
pub proof fn lemma_rebuild_idempotent(config: SwapConfig, size: Extent)
    ensures
        recreated(recreated(config, size), size) == recreated(config, size),
        recreated(recreated(config, size), size).image_count == config.image_count,
        recreated(recreated(config, size), size).format == config.format,
        recreated(config, size).image_count == config.image_count,
        recreated(config, size).format == config.format,
{
}

} // verus!
