//! What a MIPI-DSI panel is brought up with, and in which order.
use vstd::prelude::*;

verus! {

/// Colour format of the pixels streamed to the panel over DPI.
#[derive(Clone, Copy, Debug, PartialEq, Eq, Structural)]
pub enum PixelFormat {
    Rgb565,
    Rgb888,
}

/// Number of bits that one pixel of the given format occupies.
pub open spec fn format_bits(format: PixelFormat) -> u32 {
    match format {
        PixelFormat::Rgb565 => 16,
        PixelFormat::Rgb888 => 24,
    }
}

impl PixelFormat {
    /// Bits per pixel of this format.
    pub fn bits_per_pixel(&self) -> (bits: u32)
        ensures
            bits == format_bits(*self),
    {
        match self {
            PixelFormat::Rgb565 => 16,
            PixelFormat::Rgb888 => 24,
        }
    }
}


/// Clock that feeds the DPI pixel clock generator.
#[derive(Clone, Copy, Debug, PartialEq, Eq, Structural)]
pub enum DpiClockSource {
    /// The 240 MHz PLL output.
    PllF240M,
}

/// The LDO channel that powers the MIPI DSI PHY.
#[derive(Clone, Copy, Debug, PartialEq, Eq, Structural)]
pub struct LdoConfig {
    pub channel: i32,
    pub voltage_mv: i32,
}

/// The MIPI DSI bus.
#[derive(Clone, Copy, Debug, PartialEq, Eq, Structural)]
pub struct DsiBusConfig {
    pub bus_id: i32,
    pub num_data_lanes: u8,
    /// PHY clock source; 0 selects the default source.
    pub phy_clk_src: u32,
    pub lane_bit_rate_mbps: u32,
}

/// The DBI command interface that the panel driver talks through.
#[derive(Clone, Copy, Debug, PartialEq, Eq, Structural)]
pub struct DbiIoConfig {
    pub virtual_channel: u8,
    pub lcd_cmd_bits: i32,
    pub lcd_param_bits: i32,
}

/// Horizontal and vertical timing of the video stream, in pixels and lines.
#[derive(Clone, Copy, Debug, PartialEq, Eq, Structural)]
pub struct VideoTiming {
    pub h_size: u32,
    pub v_size: u32,
    pub hsync_pulse_width: u32,
    pub hsync_back_porch: u32,
    pub hsync_front_porch: u32,
    pub vsync_pulse_width: u32,
    pub vsync_back_porch: u32,
    pub vsync_front_porch: u32,
}

/// The DPI video interface.
#[derive(Clone, Copy, Debug, PartialEq, Eq, Structural)]
pub struct DpiPanelConfig {
    pub virtual_channel: u8,
    pub clock_source: DpiClockSource,
    pub dpi_clock_freq_mhz: u32,
    pub pixel_format: PixelFormat,
    pub num_fbs: u8,
    pub video_timing: VideoTiming,
    /// Whether frame-buffer copies go through the 2D DMA engine.
    pub use_dma2d: bool,
}

/// The part of the vendor configuration that the panel driver reads.
#[derive(Clone, Copy, Debug, PartialEq, Eq, Structural)]
pub struct VendorMipiConfig {
    pub lane_num: u8,
}

/// The generic panel device configuration.
#[derive(Clone, Copy, Debug, PartialEq, Eq, Structural)]
pub struct PanelDevConfig {
    /// GPIO of the reset line; -1 when the panel has none wired.
    pub reset_gpio_num: i32,
    pub bits_per_pixel: u32,
}

/// Everything a panel is brought up with.
#[derive(Clone, Copy, Debug, PartialEq, Eq, Structural)]
pub struct PanelSetup {
    pub ldo: LdoConfig,
    pub dsi_bus: DsiBusConfig,
    pub dbi_io: DbiIoConfig,
    pub dpi: DpiPanelConfig,
    pub vendor: VendorMipiConfig,
    pub panel_dev: PanelDevConfig,
}

impl PanelSetup {
    /// A panel description is consistent: the panel driver is told the lane
    /// count of the bus it sits on, the colour depth it is told matches the
    /// pixel format streamed over DPI, the picture is not empty, there is a
    /// frame buffer, and the reset line is either absent or a real GPIO.
    pub open spec fn wf(self) -> bool {
        &&& self.vendor.lane_num == self.dsi_bus.num_data_lanes
        &&& self.dsi_bus.num_data_lanes > 0
        &&& self.panel_dev.bits_per_pixel == format_bits(self.dpi.pixel_format)
        &&& self.dpi.video_timing.h_size > 0
        &&& self.dpi.video_timing.v_size > 0
        &&& self.dpi.num_fbs > 0
        &&& self.panel_dev.reset_gpio_num >= -1
    }
}

/// One step of bringing a panel up.
#[derive(Clone, Copy, Debug, PartialEq, Eq, Structural)]
pub enum InitStep {
    /// Switch on the LDO channel that powers the DSI PHY.
    PowerPhy,
    /// Create the DSI bus.
    NewDsiBus,
    /// Create the DBI command interface on the bus.
    NewPanelIo,
    /// Install the vendor panel driver on the command interface.
    NewPanel,
    /// Reset the panel.
    Reset,
    /// Send the panel its initialisation commands.
    Init,
    /// Switch the display on.
    DisplayOn,
}

/// The bring-up order: each step uses what the one before it created.
pub open spec fn init_order() -> Seq<InitStep> {
    seq![
        InitStep::PowerPhy,
        InitStep::NewDsiBus,
        InitStep::NewPanelIo,
        InitStep::NewPanel,
        InitStep::Reset,
        InitStep::Init,
        InitStep::DisplayOn,
    ]
}

/// The steps that bring a panel up, in the order they are taken.
pub fn init_sequence() -> (steps: Vec<InitStep>)
    ensures
        steps@ == init_order(),
{
    let steps: Vec<InitStep> = vec![
        InitStep::PowerPhy,
        InitStep::NewDsiBus,
        InitStep::NewPanelIo,
        InitStep::NewPanel,
        InitStep::Reset,
        InitStep::Init,
        InitStep::DisplayOn,
    ];
    steps
}

/// The two panels are brought up on the same hardware path: the same PHY
/// power, the same two-lane DSI bus with the default PHY clock, the same 8-bit
/// command interface on virtual channel 0, the DPI stream on virtual channel 0
/// from the 240 MHz PLL into one frame buffer, the driver told the same lane
/// count, and no reset line. They differ in lane rate, pixel clock, pixel
/// format, colour depth and picture size.
pub proof fn lemma_panels_share_the_bring_up_path()
    ensures
        ({
            let a = crate::ek79007::panel_setup();
            let b = crate::jd9365::panel_setup();
            &&& a.ldo == b.ldo
            &&& a.ldo == LdoConfig { channel: 3, voltage_mv: 2500 }
            &&& a.dsi_bus.bus_id == 0 && b.dsi_bus.bus_id == 0
            &&& a.dsi_bus.num_data_lanes == 2 && b.dsi_bus.num_data_lanes == 2
            &&& a.dsi_bus.phy_clk_src == 0 && b.dsi_bus.phy_clk_src == 0
            &&& a.dbi_io == b.dbi_io
            &&& a.dbi_io == DbiIoConfig { virtual_channel: 0, lcd_cmd_bits: 8, lcd_param_bits: 8 }
            &&& a.dpi.virtual_channel == 0 && b.dpi.virtual_channel == 0
            &&& a.dpi.clock_source == DpiClockSource::PllF240M
            &&& b.dpi.clock_source == DpiClockSource::PllF240M
            &&& a.dpi.num_fbs == 1 && b.dpi.num_fbs == 1
            &&& a.vendor == b.vendor
            &&& a.vendor.lane_num == 2
            &&& a.panel_dev.reset_gpio_num == -1 && b.panel_dev.reset_gpio_num == -1
            &&& a.dsi_bus.lane_bit_rate_mbps == 900 && b.dsi_bus.lane_bit_rate_mbps == 1500
            &&& a.dpi.dpi_clock_freq_mhz == 52 && b.dpi.dpi_clock_freq_mhz == 80
            &&& a.dpi.pixel_format == PixelFormat::Rgb565 && b.dpi.pixel_format == PixelFormat::Rgb888
            &&& a.panel_dev.bits_per_pixel == 16 && b.panel_dev.bits_per_pixel == 24
            &&& a.dpi.video_timing.h_size == 1024 && a.dpi.video_timing.v_size == 600
            &&& b.dpi.video_timing.h_size == 800 && b.dpi.video_timing.v_size == 1280
        }),
{
}

} // verus!
