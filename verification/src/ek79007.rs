//! The configuration that the EK79007 panel is brought up with: 1024 x 600,
//! RGB565 at a 52 MHz pixel clock, 900 Mbps on each of two DSI lanes.
use vstd::prelude::*;
use crate::panel::{
    DbiIoConfig, DpiClockSource, DpiPanelConfig, DsiBusConfig, LdoConfig, PanelDevConfig,
    PanelSetup, PixelFormat, VendorMipiConfig, VideoTiming,
};

verus! {

/// The configuration this panel is brought up with.
pub open spec fn panel_setup() -> PanelSetup {
    PanelSetup {
        ldo: LdoConfig { channel: 3, voltage_mv: 2500 },
        dsi_bus: DsiBusConfig {
            bus_id: 0,
            num_data_lanes: 2,
            phy_clk_src: 0,
            lane_bit_rate_mbps: 900,
        },
        dbi_io: DbiIoConfig { virtual_channel: 0, lcd_cmd_bits: 8, lcd_param_bits: 8 },
        dpi: DpiPanelConfig {
            virtual_channel: 0,
            clock_source: DpiClockSource::PllF240M,
            dpi_clock_freq_mhz: 52,
            pixel_format: PixelFormat::Rgb565,
            num_fbs: 1,
            video_timing: VideoTiming {
                h_size: 1024,
                v_size: 600,
                hsync_pulse_width: 10,
                hsync_back_porch: 160,
                hsync_front_porch: 160,
                vsync_pulse_width: 1,
                vsync_back_porch: 23,
                vsync_front_porch: 12,
            },
            use_dma2d: true,
        },
        vendor: VendorMipiConfig { lane_num: 2 },
        panel_dev: PanelDevConfig { reset_gpio_num: -1i32, bits_per_pixel: 16 },
    }
}

/// Builds the configuration of this panel: the PHY on LDO channel 3 at
/// 2.5 V, a two-lane DSI bus, an 8-bit command interface, one frame buffer and
/// no reset line. The description is consistent in the sense of
/// [PanelSetup::wf].
pub fn lcd_setup() -> (setup: PanelSetup)
    ensures
        setup == panel_setup(),
        setup.wf(),
        setup.ldo.channel == 3,
        setup.ldo.voltage_mv == 2500,
        setup.dsi_bus.bus_id == 0,
        setup.dsi_bus.num_data_lanes == 2,
        setup.dsi_bus.phy_clk_src == 0,
        setup.dsi_bus.lane_bit_rate_mbps == 900,
        setup.dbi_io.virtual_channel == 0,
        setup.dbi_io.lcd_cmd_bits == 8,
        setup.dbi_io.lcd_param_bits == 8,
        setup.dpi.virtual_channel == 0,
        setup.dpi.clock_source == DpiClockSource::PllF240M,
        setup.dpi.dpi_clock_freq_mhz == 52,
        setup.dpi.pixel_format == PixelFormat::Rgb565,
        setup.dpi.num_fbs == 1,
        setup.dpi.video_timing.h_size == 1024,
        setup.dpi.video_timing.v_size == 600,
        setup.dpi.video_timing.hsync_pulse_width == 10,
        setup.dpi.video_timing.hsync_back_porch == 160,
        setup.dpi.video_timing.hsync_front_porch == 160,
        setup.dpi.video_timing.vsync_pulse_width == 1,
        setup.dpi.video_timing.vsync_back_porch == 23,
        setup.dpi.video_timing.vsync_front_porch == 12,
        setup.dpi.use_dma2d == true,
        setup.vendor.lane_num == 2,
        setup.panel_dev.reset_gpio_num == -1,
        setup.panel_dev.bits_per_pixel == 16,
{
    PanelSetup {
        ldo: LdoConfig { channel: 3, voltage_mv: 2500 },
        dsi_bus: DsiBusConfig {
            bus_id: 0,
            num_data_lanes: 2,
            phy_clk_src: 0,
            lane_bit_rate_mbps: 900,
        },
        dbi_io: DbiIoConfig { virtual_channel: 0, lcd_cmd_bits: 8, lcd_param_bits: 8 },
        dpi: DpiPanelConfig {
            virtual_channel: 0,
            clock_source: DpiClockSource::PllF240M,
            dpi_clock_freq_mhz: 52,
            pixel_format: PixelFormat::Rgb565,
            num_fbs: 1,
            video_timing: VideoTiming {
                h_size: 1024,
                v_size: 600,
                hsync_pulse_width: 10,
                hsync_back_porch: 160,
                hsync_front_porch: 160,
                vsync_pulse_width: 1,
                vsync_back_porch: 23,
                vsync_front_porch: 12,
            },
            use_dma2d: true,
        },
        vendor: VendorMipiConfig { lane_num: 2 },
        panel_dev: PanelDevConfig { reset_gpio_num: -1, bits_per_pixel: 16 },
    }
}

} // verus!
