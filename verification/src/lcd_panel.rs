//! Configuration builders for the RGB LCD panel that ships with the
//! touch controller.
//!
//! The defaults describe an 800x480 development board. The values are
//! plain numbers; the platform layer that owns the vendor's panel
//! driver copies them into its own configuration record and performs
//! the panel initialization itself.
use vstd::prelude::*;

verus! {

/// Wiring and framebuffer layout of the panel.
///
/// `clk_src` is the platform's numeric clock-source selector; zero
/// stands for the platform default, and the platform layer maps the
/// number to its own constant.
#[derive(Debug, Copy, Clone, Eq, PartialEq)]
pub struct PanelConfig {
    pub clk_src: u32,
    pub data_width: usize,
    pub bits_per_pixel: usize,
    pub num_fbs: usize,
    pub bounce_buffer_size_px: usize,
    pub sram_trans_align: usize,
    pub psram_trans_align: usize,
    pub hsync_gpio_num: i32,
    pub vsync_gpio_num: i32,
    pub de_gpio_num: i32,
    pub pclk_gpio_num: i32,
    pub disp_gpio_num: i32,
    pub data_gpio_nums: [i32; 16],
}

impl PanelConfig {
    /// The board defaults: a 16-bit data bus, one framebuffer, and the
    /// board's fixed pin assignment.
    pub open spec fn spec_default() -> PanelConfig {
        PanelConfig {
            clk_src: 0,
            data_width: 16,
            bits_per_pixel: 0,
            num_fbs: 1,
            bounce_buffer_size_px: 0,
            sram_trans_align: 8,
            psram_trans_align: 64,
            hsync_gpio_num: 39,
            vsync_gpio_num: 40,
            de_gpio_num: 41,
            pclk_gpio_num: 42,
            disp_gpio_num: -1i32,
            data_gpio_nums: [15, 7, 6, 5, 4, 9, 46, 3, 8, 16, 1, 14, 21, 47, 48, 45],
        }
    }

    /// Fresh configuration holding the board defaults.
    pub fn new() -> (r: Self)
        ensures
            r == Self::spec_default(),
    {
        Self::default()
    }

    #[must_use]
    pub fn clk_src(self, source: u32) -> (r: Self)
        ensures
            r == (PanelConfig { clk_src: source, ..self }),
    {
        Self { clk_src: source, ..self }
    }

    #[must_use]
    pub fn data_width(self, data_width: usize) -> (r: Self)
        ensures
            r == (PanelConfig { data_width, ..self }),
    {
        Self { data_width, ..self }
    }

    #[must_use]
    pub fn bits_per_pixel(self, bits_per_pixel: usize) -> (r: Self)
        ensures
            r == (PanelConfig { bits_per_pixel, ..self }),
    {
        Self { bits_per_pixel, ..self }
    }

    #[must_use]
    pub fn num_fbs(self, num_fbs: usize) -> (r: Self)
        ensures
            r == (PanelConfig { num_fbs, ..self }),
    {
        Self { num_fbs, ..self }
    }

    #[must_use]
    pub fn bounce_buffer_size_px(self, bounce_buffer_size_px: usize) -> (r: Self)
        ensures
            r == (PanelConfig { bounce_buffer_size_px, ..self }),
    {
        Self { bounce_buffer_size_px, ..self }
    }

    #[must_use]
    pub fn sram_trans_align(self, sram_trans_align: usize) -> (r: Self)
        ensures
            r == (PanelConfig { sram_trans_align, ..self }),
    {
        Self { sram_trans_align, ..self }
    }

    #[must_use]
    pub fn hsync_gpio_num(self, hsync_gpio_num: i32) -> (r: Self)
        ensures
            r == (PanelConfig { hsync_gpio_num, ..self }),
    {
        Self { hsync_gpio_num, ..self }
    }

    #[must_use]
    pub fn vsync_gpio_num(self, vsync_gpio_num: i32) -> (r: Self)
        ensures
            r == (PanelConfig { vsync_gpio_num, ..self }),
    {
        Self { vsync_gpio_num, ..self }
    }

    #[must_use]
    pub fn de_gpio_num(self, de_gpio_num: i32) -> (r: Self)
        ensures
            r == (PanelConfig { de_gpio_num, ..self }),
    {
        Self { de_gpio_num, ..self }
    }

    #[must_use]
    pub fn pclk_gpio_num(self, pclk_gpio_num: i32) -> (r: Self)
        ensures
            r == (PanelConfig { pclk_gpio_num, ..self }),
    {
        Self { pclk_gpio_num, ..self }
    }

    #[must_use]
    pub fn disp_gpio_num(self, disp_gpio_num: i32) -> (r: Self)
        ensures
            r == (PanelConfig { disp_gpio_num, ..self }),
    {
        Self { disp_gpio_num, ..self }
    }

    #[must_use]
    pub fn data_gpio_nums(self, data_gpio_nums: [i32; 16]) -> (r: Self)
        ensures
            r == (PanelConfig { data_gpio_nums, ..self }),
    {
        Self { data_gpio_nums, ..self }
    }
}

impl Default for PanelConfig {
    fn default() -> (r: Self)
        ensures
            r == Self::spec_default(),
    {
        PanelConfig {
            clk_src: 0,
            data_width: 16,
            bits_per_pixel: 0,
            num_fbs: 1,
            bounce_buffer_size_px: 0,
            sram_trans_align: 8,
            psram_trans_align: 64,
            hsync_gpio_num: 39,
            vsync_gpio_num: 40,
            de_gpio_num: 41,
            pclk_gpio_num: 42,
            disp_gpio_num: -1,
            data_gpio_nums: [15, 7, 6, 5, 4, 9, 46, 3, 8, 16, 1, 14, 21, 47, 48, 45],
        }
    }
}

/// Behaviour flags of the panel, stored as the 0/1 words the vendor
/// record expects.
#[derive(Debug, Copy, Clone, Eq, PartialEq)]
pub struct PanelFlagsConfig {
    pub disp_active_low: u32,
    pub refresh_on_demand: u32,
    pub fb_in_psram: u32,
    pub double_fb: u32,
    pub no_fb: u32,
    pub bb_invalidate_cache: u32,
}

impl PanelFlagsConfig {
    /// The board defaults: framebuffer in external RAM, everything else
    /// off.
    pub open spec fn spec_default() -> PanelFlagsConfig {
        PanelFlagsConfig {
            disp_active_low: 0,
            refresh_on_demand: 0,
            fb_in_psram: 1,
            double_fb: 0,
            no_fb: 0,
            bb_invalidate_cache: 0,
        }
    }

    /// Fresh flags holding the board defaults.
    pub fn new() -> (r: Self)
        ensures
            r == Self::spec_default(),
    {
        Self::default()
    }

    #[must_use]
    pub fn disp_active_low(self, enable: bool) -> (r: Self)
        ensures
            r == (PanelFlagsConfig { disp_active_low: if enable { 1u32 } else { 0u32 }, ..self }),
    {
        Self { disp_active_low: if enable { 1 } else { 0 }, ..self }
    }

    #[must_use]
    pub fn refresh_on_demand(self, enable: bool) -> (r: Self)
        ensures
            r == (PanelFlagsConfig {
                refresh_on_demand: if enable { 1u32 } else { 0u32 },
                ..self
            }),
    {
        Self { refresh_on_demand: if enable { 1 } else { 0 }, ..self }
    }

    #[must_use]
    pub fn fb_in_psram(self, enable: bool) -> (r: Self)
        ensures
            r == (PanelFlagsConfig { fb_in_psram: if enable { 1u32 } else { 0u32 }, ..self }),
    {
        Self { fb_in_psram: if enable { 1 } else { 0 }, ..self }
    }

    #[must_use]
    pub fn double_fb(self, enable: bool) -> (r: Self)
        ensures
            r == (PanelFlagsConfig { double_fb: if enable { 1u32 } else { 0u32 }, ..self }),
    {
        Self { double_fb: if enable { 1 } else { 0 }, ..self }
    }

    #[must_use]
    pub fn no_fb(self, enable: bool) -> (r: Self)
        ensures
            r == (PanelFlagsConfig { no_fb: if enable { 1u32 } else { 0u32 }, ..self }),
    {
        Self { no_fb: if enable { 1 } else { 0 }, ..self }
    }

    #[must_use]
    pub fn bb_invalidate_cache(self, enable: bool) -> (r: Self)
        ensures
            r == (PanelFlagsConfig {
                bb_invalidate_cache: if enable { 1u32 } else { 0u32 },
                ..self
            }),
    {
        Self { bb_invalidate_cache: if enable { 1 } else { 0 }, ..self }
    }
}

impl Default for PanelFlagsConfig {
    fn default() -> (r: Self)
        ensures
            r == Self::spec_default(),
    {
        PanelFlagsConfig {
            disp_active_low: 0,
            refresh_on_demand: 0,
            fb_in_psram: 1,
            double_fb: 0,
            no_fb: 0,
            bb_invalidate_cache: 0,
        }
    }
}

/// Pixel-clock and sync timings of the panel.
#[derive(Debug, Copy, Clone, Eq, PartialEq)]
pub struct TimingsConfig {
    pub pclk_hz: u32,
    pub horz_res: u32,
    pub vert_res: u32,
    pub hsync_pulse_width: u32,
    pub hsync_back_porch: u32,
    pub hsync_front_porch: u32,
    pub vsync_pulse_width: u32,
    pub vsync_back_porch: u32,
    pub vsync_front_porch: u32,
}

impl TimingsConfig {
    /// The board defaults: a 16 MHz pixel clock on an 800x480 panel.
    pub open spec fn spec_default() -> TimingsConfig {
        TimingsConfig {
            pclk_hz: 16_000_000,
            horz_res: 800,
            vert_res: 480,
            hsync_pulse_width: 30,
            hsync_back_porch: 16,
            hsync_front_porch: 210,
            vsync_pulse_width: 13,
            vsync_back_porch: 10,
            vsync_front_porch: 22,
        }
    }

    /// Fresh timings holding the board defaults.
    pub fn new() -> (r: Self)
        ensures
            r == Self::spec_default(),
    {
        Self::default()
    }

    #[must_use]
    pub fn pclk_hz(self, hz: u32) -> (r: Self)
        ensures
            r == (TimingsConfig { pclk_hz: hz, ..self }),
    {
        Self { pclk_hz: hz, ..self }
    }

    #[must_use]
    pub fn horz_res(self, hres: u32) -> (r: Self)
        ensures
            r == (TimingsConfig { horz_res: hres, ..self }),
    {
        Self { horz_res: hres, ..self }
    }

    #[must_use]
    pub fn vert_res(self, vres: u32) -> (r: Self)
        ensures
            r == (TimingsConfig { vert_res: vres, ..self }),
    {
        Self { vert_res: vres, ..self }
    }

    #[must_use]
    pub fn hsync_pulse_width(self, hsync_pulse_width: u32) -> (r: Self)
        ensures
            r == (TimingsConfig { hsync_pulse_width, ..self }),
    {
        Self { hsync_pulse_width, ..self }
    }

    #[must_use]
    pub fn hsync_back_porch(self, hsync_back_porch: u32) -> (r: Self)
        ensures
            r == (TimingsConfig { hsync_back_porch, ..self }),
    {
        Self { hsync_back_porch, ..self }
    }

    #[must_use]
    pub fn hsync_front_porch(self, hsync_front_porch: u32) -> (r: Self)
        ensures
            r == (TimingsConfig { hsync_front_porch, ..self }),
    {
        Self { hsync_front_porch, ..self }
    }

    #[must_use]
    pub fn vsync_pulse_width(self, vsync_pulse_width: u32) -> (r: Self)
        ensures
            r == (TimingsConfig { vsync_pulse_width, ..self }),
    {
        Self { vsync_pulse_width, ..self }
    }

    #[must_use]
    pub fn vsync_back_porch(self, vsync_back_porch: u32) -> (r: Self)
        ensures
            r == (TimingsConfig { vsync_back_porch, ..self }),
    {
        Self { vsync_back_porch, ..self }
    }

    #[must_use]
    pub fn vsync_front_porch(self, vsync_front_porch: u32) -> (r: Self)
        ensures
            r == (TimingsConfig { vsync_front_porch, ..self }),
    {
        Self { vsync_front_porch, ..self }
    }
}

impl Default for TimingsConfig {
    fn default() -> (r: Self)
        ensures
            r == Self::spec_default(),
    {
        TimingsConfig {
            pclk_hz: 16_000_000,
            horz_res: 800,
            vert_res: 480,
            hsync_pulse_width: 30,
            hsync_back_porch: 16,
            hsync_front_porch: 210,
            vsync_pulse_width: 13,
            vsync_back_porch: 10,
            vsync_front_porch: 22,
        }
    }
}

/// Polarity flags of the sync and clock lines, stored as the 0/1 words
/// the vendor record expects.
#[derive(Debug, Copy, Clone, Eq, PartialEq)]
pub struct TimingFlagsConfig {
    pub hsync_idle_low: u32,
    pub vsync_idle_low: u32,
    pub de_idle_high: u32,
    pub pclk_active_neg: u32,
    pub pclk_idle_high: u32,
}

impl TimingFlagsConfig {
    /// The board defaults: data latched on the falling clock edge,
    /// everything else off.
    pub open spec fn spec_default() -> TimingFlagsConfig {
        TimingFlagsConfig {
            hsync_idle_low: 0,
            vsync_idle_low: 0,
            de_idle_high: 0,
            pclk_active_neg: 1,
            pclk_idle_high: 0,
        }
    }

    /// Fresh flags holding the board defaults.
    pub fn new() -> (r: Self)
        ensures
            r == Self::spec_default(),
    {
        Self::default()
    }

    #[must_use]
    pub fn hsync_idle_low(self, enable: bool) -> (r: Self)
        ensures
            r == (TimingFlagsConfig { hsync_idle_low: if enable { 1u32 } else { 0u32 }, ..self }),
    {
        Self { hsync_idle_low: if enable { 1 } else { 0 }, ..self }
    }

    #[must_use]
    pub fn vsync_idle_low(self, enable: bool) -> (r: Self)
        ensures
            r == (TimingFlagsConfig { vsync_idle_low: if enable { 1u32 } else { 0u32 }, ..self }),
    {
        Self { vsync_idle_low: if enable { 1 } else { 0 }, ..self }
    }

    #[must_use]
    pub fn de_idle_high(self, enable: bool) -> (r: Self)
        ensures
            r == (TimingFlagsConfig { de_idle_high: if enable { 1u32 } else { 0u32 }, ..self }),
    {
        Self { de_idle_high: if enable { 1 } else { 0 }, ..self }
    }

    #[must_use]
    pub fn pclk_active_neg(self, enable: bool) -> (r: Self)
        ensures
            r == (TimingFlagsConfig { pclk_active_neg: if enable { 1u32 } else { 0u32 }, ..self }),
    {
        Self { pclk_active_neg: if enable { 1 } else { 0 }, ..self }
    }

    #[must_use]
    pub fn set_pclk_idle_high(self, enable: bool) -> (r: Self)
        ensures
            r == (TimingFlagsConfig { pclk_idle_high: if enable { 1u32 } else { 0u32 }, ..self }),
    {
        Self { pclk_idle_high: if enable { 1 } else { 0 }, ..self }
    }
}

impl Default for TimingFlagsConfig {
    fn default() -> (r: Self)
        ensures
            r == Self::spec_default(),
    {
        TimingFlagsConfig {
            hsync_idle_low: 0,
            vsync_idle_low: 0,
            de_idle_high: 0,
            pclk_active_neg: 1,
            pclk_idle_high: 0,
        }
    }
}

} // verus!
