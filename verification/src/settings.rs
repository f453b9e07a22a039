//! The settings kept between runs: where the window was, the color of the
//! clock face and the font family.

use vstd::prelude::*;

verus! {

/// The window's position and size. Each field is the IEEE 754
/// single-precision bit pattern of a pixel value as the window system
/// reports it; the settings store and return those bits unchanged.
#[derive(Clone, Copy, Debug, PartialEq, Eq)]
pub struct WindowBounds {
    pub origin_x: u32,
    pub origin_y: u32,
    pub width: u32,
    pub height: u32,
}

/// The bit pattern of ten pixels, the default window origin's coordinates.
pub const DEFAULT_ORIGIN_BITS: u32 = 0x4120_0000;

/// The bit pattern of three hundred pixels, the default window width and height.
pub const DEFAULT_SIZE_BITS: u32 = 0x4396_0000;

/// The default face color, `[red, green, blue, alpha]`: opaque cyan.
pub open spec fn default_clock_background_color() -> Seq<u8> {
    seq![0u8, 255u8, 255u8, 255u8]
}

/// What the settings hold.
pub struct GlobalSettingFileView {
    pub bounds: WindowBounds,
    pub clock_background_color: Seq<u8>,
    pub font_family: Seq<char>,
}

/// The settings saved between runs.
#[derive(Debug)]
pub struct GlobalSettingFile {
    bounds: WindowBounds,
    clock_background_color: [u8; 4],
    font_family: String,
}

impl View for GlobalSettingFile {
    type V = GlobalSettingFileView;

    closed spec fn view(&self) -> GlobalSettingFileView {
        GlobalSettingFileView {
            bounds: self.bounds,
            clock_background_color: self.clock_background_color@,
            font_family: self.font_family@,
        }
    }
}

impl GlobalSettingFile {
    /// Settings holding the given values.
    pub fn new(bounds: WindowBounds, clock_background_color: [u8; 4], font_family: String) -> (s: Self)
        ensures
            s@.bounds == bounds,
            s@.clock_background_color == clock_background_color@,
            s@.font_family == font_family@,
    {
        GlobalSettingFile { bounds, clock_background_color, font_family }
    }

    /// Where the window was last.
    pub fn bounds(&self) -> (bounds: WindowBounds)
        ensures
            bounds == self@.bounds,
    {
        self.bounds
    }

    /// The color of the clock face, `[red, green, blue, alpha]`.
    pub fn clock_background_color(&self) -> (color: [u8; 4])
        ensures
            color@ == self@.clock_background_color,
    {
        self.clock_background_color
    }

    /// Records where the window is now; the other settings stay as they are.
    pub fn set_bounds(&mut self, bounds: WindowBounds)
        ensures
            final(self)@ == (GlobalSettingFileView { bounds, ..old(self)@ }),
    {
        self.bounds = bounds;
    }

    /// The font family.
    pub fn font_family(&self) -> (font_family: String)
        ensures
            font_family@ == self@.font_family,
    {
        self.font_family.clone()
    }
}

impl Default for GlobalSettingFile {
    /// A 300 by 300 pixel window ten pixels from the top left corner, an
    /// opaque cyan face and the system's UI font.
    fn default() -> (s: Self)
        ensures
            s@.bounds == (WindowBounds {
                origin_x: DEFAULT_ORIGIN_BITS,
                origin_y: DEFAULT_ORIGIN_BITS,
                width: DEFAULT_SIZE_BITS,
                height: DEFAULT_SIZE_BITS,
            }),
            s@.clock_background_color == default_clock_background_color(),
            s@.font_family == ".SystemUIFont"@,
    {
        let bounds = WindowBounds {
            origin_x: DEFAULT_ORIGIN_BITS,
            origin_y: DEFAULT_ORIGIN_BITS,
            width: DEFAULT_SIZE_BITS,
            height: DEFAULT_SIZE_BITS,
        };
        let color: [u8; 4] = [0, 255, 255, 255];
        assert(color@ =~= default_clock_background_color());
        GlobalSettingFile { bounds, clock_background_color: color, font_family: String::from_str(".SystemUIFont") }
    }
}

} // verus!
