//! Television timing and colour palette of the NTSC video chip.
use vstd::prelude::*;

verus! {

/// Scanlines in one NTSC frame.
pub const NTSC_SCANLINES: usize = 262;

/// Colour clocks in one NTSC scanline.
pub const NTSC_PIXELS_PER_SCANLINE: usize = 228;

/// Peripheral clock ticks per processor cycle.
pub const TIA_CLOCKS_PER_CPU_CYCLE: u64 = 3;

/// Frame layout and palette of a television standard.
pub struct TVConfig {
    /// Lines of vertical sync.
    pub vsync_lines: usize,
    /// Lines of vertical blank after the sync.
    pub vblank_lines: usize,
    /// Visible lines.
    pub draw_lines: usize,
    /// Colour clocks of horizontal blank at the start of each line.
    pub hblank_pixels: usize,
    /// ARGB colour of each colour-luminance byte.
    pub palette: Vec<u32>,
}

impl TVConfig {
    pub fn new(vsync_lines: usize, vblank_lines: usize, draw_lines: usize, hblank_pixels: usize, palette: Vec<u32>) -> (r: Self)
        ensures
            r.vsync_lines == vsync_lines,
            r.vblank_lines == vblank_lines,
            r.draw_lines == draw_lines,
            r.hblank_pixels == hblank_pixels,
            r.palette@ == palette@,
    {
        TVConfig { vsync_lines, vblank_lines, draw_lines, hblank_pixels, palette }
    }
}

/// The 128 NTSC colours, one per even colour-luminance byte (bit 0 is ignored).
pub open spec fn ntsc_colors() -> Seq<u32> {
    seq![
        0xFF000000, 0xFF1A1A1A, 0xFF393939, 0xFF5B5B5B,
        0xFF7E7E7E, 0xFFA2A2A2, 0xFFC7C7C7, 0xFFEDEDED,
        0xFF190200, 0xFF3A1F00, 0xFF5D4100, 0xFF826400,
        0xFFA78800, 0xFFCCAD00, 0xFFF2D219, 0xFFFEFA40,
        0xFF370000, 0xFF5E0800, 0xFF832700, 0xFFA94900,
        0xFFCF6C00, 0xFFF58F17, 0xFFFEB438, 0xFFFEDF6F,
        0xFF470000, 0xFF730000, 0xFF981300, 0xFFBE3216,
        0xFFE45335, 0xFFFE7657, 0xFFFE9C81, 0xFFFEC6BB,
        0xFF440008, 0xFF6F001F, 0xFF960640, 0xFFBB2462,
        0xFFE14585, 0xFFFE67AA, 0xFFFE8CD6, 0xFFFEB7F6,
        0xFF2D004A, 0xFF570067, 0xFF7D058C, 0xFFA122B1,
        0xFFC743D7, 0xFFED65FE, 0xFFFE8AF6, 0xFFFEB5F7,
        0xFF0D0082, 0xFF3300A2, 0xFF550FC9, 0xFF782DF0,
        0xFF9C4EFE, 0xFFC372FE, 0xFFEB98FE, 0xFFFEC0F9,
        0xFF000091, 0xFF0A05BD, 0xFF2822E4, 0xFF4842FE,
        0xFF6B64FE, 0xFF908AFE, 0xFFB7B0FE, 0xFFDFD8FE,
        0xFF000072, 0xFF001CAB, 0xFF033CD6, 0xFF205EFD,
        0xFF4081FE, 0xFF64A6FE, 0xFF89CEFE, 0xFFB0F6FE,
        0xFF00103A, 0xFF00316E, 0xFF0055A2, 0xFF0579C8,
        0xFF239DEE, 0xFF44C2FE, 0xFF68E9FE, 0xFF8FFEFE,
        0xFF001F02, 0xFF004326, 0xFF006957, 0xFF008D7A,
        0xFF1BB19E, 0xFF3BD7C3, 0xFF5DFEE9, 0xFF86FEFE,
        0xFF002403, 0xFF004A05, 0xFF00700C, 0xFF09952B,
        0xFF28BA4C, 0xFF49E06E, 0xFF6CFE92, 0xFF97FEB5,
        0xFF002102, 0xFF004604, 0xFF086B00, 0xFF289000,
        0xFF49B509, 0xFF6BDB28, 0xFF8FFE49, 0xFFBBFE69,
        0xFF001501, 0xFF103600, 0xFF305900, 0xFF537E00,
        0xFF76A300, 0xFF9AC800, 0xFFBFEE1E, 0xFFE8FE3E,
        0xFF1A0200, 0xFF3B1F00, 0xFF5E4100, 0xFF836400,
        0xFFA88800, 0xFFCEAD00, 0xFFF4D218, 0xFFFEFA40,
        0xFF380000, 0xFF5F0800, 0xFF842700, 0xFFAA4900,
        0xFFD06B00, 0xFFF68F18, 0xFFFEB439, 0xFFFEDF70,
    ]
}

/// The NTSC frame: 3 lines of sync, 37 of blank and 192 visible, with 68 colour clocks of
/// horizontal blank; each colour byte maps to the colour of its even half.
pub fn ntsc_tv_config() -> (r: TVConfig)
    ensures
        r.vsync_lines == 3,
        r.vblank_lines == 37,
        r.draw_lines == 192,
        r.hblank_pixels == 68,
        r.vsync_lines + r.vblank_lines + r.draw_lines <= NTSC_SCANLINES,
        r.hblank_pixels < NTSC_PIXELS_PER_SCANLINE,
        r.palette@.len() == 256,
        forall|i: int| 0 <= i < 256 ==> #[trigger] r.palette@[i] == ntsc_colors()[i / 2],
{
    let colors: Vec<u32> = vec![
        0xFF000000, 0xFF1A1A1A, 0xFF393939, 0xFF5B5B5B,
        0xFF7E7E7E, 0xFFA2A2A2, 0xFFC7C7C7, 0xFFEDEDED,
        0xFF190200, 0xFF3A1F00, 0xFF5D4100, 0xFF826400,
        0xFFA78800, 0xFFCCAD00, 0xFFF2D219, 0xFFFEFA40,
        0xFF370000, 0xFF5E0800, 0xFF832700, 0xFFA94900,
        0xFFCF6C00, 0xFFF58F17, 0xFFFEB438, 0xFFFEDF6F,
        0xFF470000, 0xFF730000, 0xFF981300, 0xFFBE3216,
        0xFFE45335, 0xFFFE7657, 0xFFFE9C81, 0xFFFEC6BB,
        0xFF440008, 0xFF6F001F, 0xFF960640, 0xFFBB2462,
        0xFFE14585, 0xFFFE67AA, 0xFFFE8CD6, 0xFFFEB7F6,
        0xFF2D004A, 0xFF570067, 0xFF7D058C, 0xFFA122B1,
        0xFFC743D7, 0xFFED65FE, 0xFFFE8AF6, 0xFFFEB5F7,
        0xFF0D0082, 0xFF3300A2, 0xFF550FC9, 0xFF782DF0,
        0xFF9C4EFE, 0xFFC372FE, 0xFFEB98FE, 0xFFFEC0F9,
        0xFF000091, 0xFF0A05BD, 0xFF2822E4, 0xFF4842FE,
        0xFF6B64FE, 0xFF908AFE, 0xFFB7B0FE, 0xFFDFD8FE,
        0xFF000072, 0xFF001CAB, 0xFF033CD6, 0xFF205EFD,
        0xFF4081FE, 0xFF64A6FE, 0xFF89CEFE, 0xFFB0F6FE,
        0xFF00103A, 0xFF00316E, 0xFF0055A2, 0xFF0579C8,
        0xFF239DEE, 0xFF44C2FE, 0xFF68E9FE, 0xFF8FFEFE,
        0xFF001F02, 0xFF004326, 0xFF006957, 0xFF008D7A,
        0xFF1BB19E, 0xFF3BD7C3, 0xFF5DFEE9, 0xFF86FEFE,
        0xFF002403, 0xFF004A05, 0xFF00700C, 0xFF09952B,
        0xFF28BA4C, 0xFF49E06E, 0xFF6CFE92, 0xFF97FEB5,
        0xFF002102, 0xFF004604, 0xFF086B00, 0xFF289000,
        0xFF49B509, 0xFF6BDB28, 0xFF8FFE49, 0xFFBBFE69,
        0xFF001501, 0xFF103600, 0xFF305900, 0xFF537E00,
        0xFF76A300, 0xFF9AC800, 0xFFBFEE1E, 0xFFE8FE3E,
        0xFF1A0200, 0xFF3B1F00, 0xFF5E4100, 0xFF836400,
        0xFFA88800, 0xFFCEAD00, 0xFFF4D218, 0xFFFEFA40,
        0xFF380000, 0xFF5F0800, 0xFF842700, 0xFFAA4900,
        0xFFD06B00, 0xFFF68F18, 0xFFFEB439, 0xFFFEDF70,
    ];
    assert(colors@ == ntsc_colors());
    let mut palette: Vec<u32> = Vec::new();
    let mut k: usize = 0;
    while k < colors.len()
        invariant
            colors@ == ntsc_colors(),
            k <= colors@.len(),
            palette@.len() == 2 * k,
            forall|i: int| 0 <= i < 2 * k ==> #[trigger] palette@[i] == ntsc_colors()[i / 2],
        decreases colors@.len() - k,
    {
        palette.push(colors[k]);
        palette.push(colors[k]);
        k = k + 1;
    }
    TVConfig::new(3, 37, 192, 68, palette)
}

} // verus!
