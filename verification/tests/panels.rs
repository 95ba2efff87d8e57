use lcd_panels::ek79007;
use lcd_panels::jd9365;
use lcd_panels::panel::{init_sequence, DpiClockSource, InitStep, PixelFormat};

#[test]
fn ek79007_setup_values() {
    let s = ek79007::lcd_setup();
    assert_eq!(s.ldo.channel, 3);
    assert_eq!(s.ldo.voltage_mv, 2500);
    assert_eq!(s.dsi_bus.bus_id, 0);
    assert_eq!(s.dsi_bus.num_data_lanes, 2);
    assert_eq!(s.dsi_bus.phy_clk_src, 0);
    assert_eq!(s.dsi_bus.lane_bit_rate_mbps, 900);
    assert_eq!(s.dbi_io.virtual_channel, 0);
    assert_eq!(s.dbi_io.lcd_cmd_bits, 8);
    assert_eq!(s.dbi_io.lcd_param_bits, 8);
    assert_eq!(s.dpi.clock_source, DpiClockSource::PllF240M);
    assert_eq!(s.dpi.dpi_clock_freq_mhz, 52);
    assert_eq!(s.dpi.pixel_format, PixelFormat::Rgb565);
    assert_eq!(s.dpi.num_fbs, 1);
    assert!(s.dpi.use_dma2d);
    let t = s.dpi.video_timing;
    assert_eq!((t.h_size, t.v_size), (1024, 600));
    assert_eq!((t.hsync_pulse_width, t.hsync_back_porch, t.hsync_front_porch), (10, 160, 160));
    assert_eq!((t.vsync_pulse_width, t.vsync_back_porch, t.vsync_front_porch), (1, 23, 12));
    assert_eq!(s.vendor.lane_num, 2);
    assert_eq!(s.panel_dev.reset_gpio_num, -1);
    assert_eq!(s.panel_dev.bits_per_pixel, 16);
}

#[test]
fn jd9365_setup_values() {
    let s = jd9365::lcd_setup();
    assert_eq!(s.ldo.channel, 3);
    assert_eq!(s.ldo.voltage_mv, 2500);
    assert_eq!(s.dsi_bus.num_data_lanes, 2);
    assert_eq!(s.dsi_bus.lane_bit_rate_mbps, 1500);
    assert_eq!(s.dpi.dpi_clock_freq_mhz, 80);
    assert_eq!(s.dpi.pixel_format, PixelFormat::Rgb888);
    assert!(!s.dpi.use_dma2d);
    let t = s.dpi.video_timing;
    assert_eq!((t.h_size, t.v_size), (800, 1280));
    assert_eq!((t.hsync_pulse_width, t.hsync_back_porch, t.hsync_front_porch), (20, 20, 40));
    assert_eq!((t.vsync_pulse_width, t.vsync_back_porch, t.vsync_front_porch), (4, 10, 30));
    assert_eq!(s.vendor.lane_num, 2);
    assert_eq!(s.panel_dev.reset_gpio_num, -1);
    assert_eq!(s.panel_dev.bits_per_pixel, 24);
}

#[test]
fn setups_are_consistent() {
    for s in [ek79007::lcd_setup(), jd9365::lcd_setup()] {
        assert_eq!(s.vendor.lane_num, s.dsi_bus.num_data_lanes);
        assert_eq!(s.panel_dev.bits_per_pixel, s.dpi.pixel_format.bits_per_pixel());
    }
}

#[test]
fn pixel_format_bits() {
    assert_eq!(PixelFormat::Rgb565.bits_per_pixel(), 16);
    assert_eq!(PixelFormat::Rgb888.bits_per_pixel(), 24);
}

#[test]
fn bring_up_order() {
    assert_eq!(
        init_sequence(),
        vec![
            InitStep::PowerPhy,
            InitStep::NewDsiBus,
            InitStep::NewPanelIo,
            InitStep::NewPanel,
            InitStep::Reset,
            InitStep::Init,
            InitStep::DisplayOn,
        ]
    );
}
