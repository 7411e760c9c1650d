//! Geometry of the one-line text display: an SSD1306 controller driving the
//! visible 70 x 38 window of a 128 x 64 frame.
use vstd::prelude::*;

verus! {

/// Factory-default 7-bit bus address of the display controller.
pub const DEFAULT_ADDRESS: u8 = 0x3C;

/// Control byte that marks the bytes after it as display data; commands go
/// with the command control byte, which the interface adds itself.
pub const DATA_CONTROL_BYTE: u8 = 0x40;

/// Horizontal offset of the visible window in the frame.
pub const OFFSET_X: i32 = 30;

/// Vertical offset of the visible window in the frame.
pub const OFFSET_Y: i32 = 26;

/// Width of the visible window.
pub const WIDTH: u32 = 70;

/// Height of the visible window.
pub const HEIGHT: u32 = 38;

/// Where the top-left corner of the text is placed in the frame.
pub open spec fn text_origin_spec(offset_x: int, offset_y: int, width: int, height: int) -> (int, int) {
    (offset_x - 28 + width / 2, offset_y - 6 + height / 2)
}

/// A display at a fixed bus address with a fixed visible window.
pub struct Oled {
    address: u8,
    offset_x: i32,
    offset_y: i32,
    width: u32,
    height: u32,
}

impl Oled {
    /// The bus address, fixed at construction.
    pub closed spec fn address_spec(&self) -> u8 {
        self.address
    }

    /// The visible window: horizontal and vertical offset, width, height.
    pub closed spec fn window(&self) -> (int, int, int, int) {
        (self.offset_x as int, self.offset_y as int, self.width as int, self.height as int)
    }

    /// The window is the one the display module shows.
    pub open spec fn wf(&self) -> bool {
        self.window() == (OFFSET_X as int, OFFSET_Y as int, WIDTH as int, HEIGHT as int)
    }

    /// A display at the default address.
    pub fn new() -> (r: Self)
        ensures
            r.wf(),
            r.address_spec() == DEFAULT_ADDRESS,
    {
        Self::with_address(DEFAULT_ADDRESS)
    }

    /// A display at `address`.
    pub fn with_address(address: u8) -> (r: Self)
        ensures
            r.wf(),
            r.address_spec() == address,
    {
        Oled { address, offset_x: OFFSET_X, offset_y: OFFSET_Y, width: WIDTH, height: HEIGHT }
    }

    /// The bus address.
    pub fn address(&self) -> (r: u8)
        ensures
            r == self.address_spec(),
    {
        self.address
    }

    /// Where the top-left corner of the text goes: the window's offset moved
    /// towards its centre.
    pub fn text_origin(&self) -> (r: (i32, i32))
        requires
            self.wf(),
        ensures
            (r.0 as int, r.1 as int) == text_origin_spec(
                self.window().0, self.window().1, self.window().2, self.window().3),
    {
        (self.offset_x - 28 + (self.width / 2) as i32, self.offset_y - 6 + (self.height / 2) as i32)
    }
}

} // verus!
