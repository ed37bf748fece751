//! Raster-to-cell image blitting.
//!
//! A decoded raster image is mapped onto a grid of terminal cells. The
//! image is scaled to fit the grid while preserving its aspect ratio:
//! the scaled region is centered and the rows or columns left over are
//! letterboxed with empty cells, never stretched. Decoding itself is
//! the image crate's work; everything after the decode is verified.

use vstd::prelude::*;
use vstd::arithmetic::div_mod::{
    lemma_fundamental_div_mod_converse,
    lemma_multiply_divide_le,
    lemma_multiply_divide_lt,
};
use crate::geom::spec_center_vert;

verus! {

/// A decoded raster image: RGBA samples, row major, four bytes per
/// pixel.
pub struct RasterImage {
    pub width: u32,
    pub height: u32,
    pub pixels: Vec<u8>,
}

/// Mathematical model of a raster image.
#[verifier::ext_equal]
pub struct RasterModel {
    pub width: u32,
    pub height: u32,
    pub pixels: Seq<u8>,
}

impl View for RasterImage {
    type V = RasterModel;

    open spec fn view(&self) -> RasterModel {
        RasterModel { width: self.width, height: self.height, pixels: self.pixels@ }
    }
}

/// The sample buffer holds every pixel of the image.
pub open spec fn raster_wf(m: RasterModel) -> bool {
    m.pixels.len() >= 4 * m.width * m.height
}

impl RasterImage {
    pub open spec fn wf(&self) -> bool {
        raster_wf(self@)
    }
}

/// Decoding the bundled logo failed: a packaging defect, not a runtime
/// condition.
#[derive(Clone, Copy, PartialEq, Eq, Structural, Debug)]
pub struct DecodeError;

/// One terminal cell of a blitted image: an empty letterbox cell or a
/// color.
#[derive(Clone, Copy, PartialEq, Eq, Structural, Debug)]
pub enum Cell {
    Empty,
    Rgb(u8, u8, u8),
}

/// A grid of colored cells, row major.
pub struct CellGrid {
    pub rows: u16,
    pub cols: u16,
    pub cells: Vec<Cell>,
}

/// Mathematical model of a cell grid.
#[verifier::ext_equal]
pub struct CellGridModel {
    pub rows: u16,
    pub cols: u16,
    pub cells: Seq<Cell>,
}

impl View for CellGrid {
    type V = CellGridModel;

    open spec fn view(&self) -> CellGridModel {
        CellGridModel { rows: self.rows, cols: self.cols, cells: self.cells@ }
    }
}

/// The grid holds exactly one cell per position.
pub open spec fn grid_wf(g: CellGridModel) -> bool {
    g.cells.len() == g.rows * g.cols
}

/// Whether the image is wide relative to the grid: scaling to the full
/// grid width leaves rows, not columns, to letterbox.
pub open spec fn wide_fit(img: RasterModel, rows: int, cols: int) -> bool {
    img.width * rows >= img.height * cols
}

/// Width of the scaled image region in cells.
pub open spec fn fit_w(img: RasterModel, rows: int, cols: int) -> int {
    if wide_fit(img, rows, cols) {
        cols
    } else {
        img.width * rows / img.height as int
    }
}

/// Height of the scaled image region in cells.
pub open spec fn fit_h(img: RasterModel, rows: int, cols: int) -> int {
    if wide_fit(img, rows, cols) {
        img.height * cols / img.width as int
    } else {
        rows
    }
}

/// Columns of letterbox left of the scaled region.
pub open spec fn off_x(img: RasterModel, rows: int, cols: int) -> int {
    (cols - fit_w(img, rows, cols)) / 2
}

/// Rows of letterbox above the scaled region.
pub open spec fn off_y(img: RasterModel, rows: int, cols: int) -> int {
    (rows - fit_h(img, rows, cols)) / 2
}

/// Whether a grid position lies inside the scaled image region.
pub open spec fn in_fit(img: RasterModel, rows: int, cols: int, r: int, c: int) -> bool {
    off_x(img, rows, cols) <= c < off_x(img, rows, cols) + fit_w(img, rows, cols) && off_y(
        img,
        rows,
        cols,
    ) <= r < off_y(img, rows, cols) + fit_h(img, rows, cols)
}

/// The cell at one grid position: the nearest source pixel's color
/// inside the scaled region, an empty cell in the letterbox bands.
pub open spec fn cell_at(img: RasterModel, rows: int, cols: int, r: int, c: int) -> Cell {
    if img.width == 0 || img.height == 0 {
        Cell::Empty
    } else if in_fit(img, rows, cols, r, c) {
        let px = (c - off_x(img, rows, cols)) * img.width / fit_w(img, rows, cols);
        let py = (r - off_y(img, rows, cols)) * img.height / fit_h(img, rows, cols);
        let base = 4 * (py * img.width + px);
        Cell::Rgb(img.pixels[base], img.pixels[base + 1], img.pixels[base + 2])
    } else {
        Cell::Empty
    }
}

/// The whole blitted grid, row major.
pub open spec fn blit_cells(img: RasterModel, rows: u16, cols: u16) -> Seq<Cell> {
    Seq::new(
        (rows * cols) as nat,
        |i: int| cell_at(img, rows as int, cols as int, i / (cols as int), i % (cols as int)),
    )
}

/// Computes one cell of the blit.
fn cell_value(img: &RasterImage, rows: u16, cols: u16, r: u16, c: u16) -> (cell: Cell)
    requires
        img.wf(),
        r < rows,
        c < cols,
    ensures
        cell == cell_at(img@, rows as int, cols as int, r as int, c as int),
{
    if img.width == 0 || img.height == 0 {
        return Cell::Empty;
    }
    let iw = img.width as u64;
    let ih = img.height as u64;
    let rows64 = rows as u64;
    let cols64 = cols as u64;
    proof {
        assert(iw * rows64 <= 0xffffffff * 0xffff && ih * cols64 <= 0xffffffff * 0xffff)
            by (nonlinear_arith)
            requires
                iw <= 0xffffffff,
                ih <= 0xffffffff,
                rows64 <= 0xffff,
                cols64 <= 0xffff,
        ;
    }
    let wide = iw * rows64 >= ih * cols64;
    proof {
        if wide {
            lemma_multiply_divide_le((ih * cols64) as int, iw as int, rows64 as int);
        } else {
            lemma_multiply_divide_le((iw * rows64) as int, ih as int, cols64 as int);
        }
    }
    let fw: u64 = if wide {
        cols64
    } else {
        iw * rows64 / ih
    };
    let fh: u64 = if wide {
        ih * cols64 / iw
    } else {
        rows64
    };
    let ox = (cols64 - fw) / 2;
    let oy = (rows64 - fh) / 2;
    let c64 = c as u64;
    let r64 = r as u64;
    // the buffer length is a usize, so the pixel index bounded by it below
    // fits a usize as well
    let _buffer_len: usize = img.pixels.len();
    if ox <= c64 && c64 < ox + fw && oy <= r64 && r64 < oy + fh {
        proof {
            assert((c64 - ox) * iw < fw * iw && (r64 - oy) * ih < fh * ih && (c64 - ox) * iw
                <= 0xffff * 0xffffffff && (r64 - oy) * ih <= 0xffff * 0xffffffff)
                by (nonlinear_arith)
                requires
                    c64 - ox < fw,
                    r64 - oy < fh,
                    fw <= 0xffff,
                    fh <= 0xffff,
                    1 <= iw <= 0xffffffff,
                    1 <= ih <= 0xffffffff,
            ;
            lemma_multiply_divide_lt(((c64 - ox) * iw) as int, fw as int, iw as int);
            lemma_multiply_divide_lt(((r64 - oy) * ih) as int, fh as int, ih as int);
        }
        let px = (c64 - ox) * iw / fw;
        let py = (r64 - oy) * ih / fh;
        proof {
            assert(py * iw + px < iw * ih) by (nonlinear_arith)
                requires
                    px < iw,
                    py < ih,
                    iw >= 1,
                    ih >= 1,
            ;
            assert(4 * (py * iw + px) + 2 < 4 * img@.width * img@.height) by (nonlinear_arith)
                requires
                    py * iw + px < iw * ih,
                    iw == img@.width,
                    ih == img@.height,
            ;
            assert(4 * (py * iw + px) + 2 < img.pixels@.len());
            assert(py * iw + px < 0xffffffff * 0xffffffff) by (nonlinear_arith)
                requires
                    py * iw + px < iw * ih,
                    iw <= 0xffffffff,
                    ih <= 0xffffffff,
            ;
            assert(py * iw <= py * iw + px);
            assert(4 * (py * iw + px) < img.pixels@.len());
        }
        let base = (4 * (py * iw + px)) as usize;
        Cell::Rgb(img.pixels[base], img.pixels[base + 1], img.pixels[base + 2])
    } else {
        Cell::Empty
    }
}

/// Blits a raster image onto a grid of `rows` by `cols` cells,
/// preserving aspect ratio and letterboxing the rest.
pub fn blit(img: &RasterImage, rows: u16, cols: u16) -> (g: CellGrid)
    requires
        img.wf(),
    ensures
        g.rows == rows,
        g.cols == cols,
        g.cells@ == blit_cells(img@, rows, cols),
        grid_wf(g@),
{
    let mut cells: Vec<Cell> = Vec::new();
    let mut r: u16 = 0;
    while r < rows
        invariant
            img.wf(),
            r <= rows,
            cells@.len() == r * cols,
            forall|k: int|
                0 <= k < cells@.len() ==> cells@[k] == blit_cells(img@, rows, cols)[k],
        decreases rows - r,
    {
        let mut c: u16 = 0;
        while c < cols
            invariant
                img.wf(),
                r < rows,
                c <= cols,
                cells@.len() == r * cols + c,
                forall|k: int|
                    0 <= k < cells@.len() ==> cells@[k] == blit_cells(img@, rows, cols)[k],
            decreases cols - c,
        {
            let cell = cell_value(img, rows, cols, r, c);
            proof {
                lemma_fundamental_div_mod_converse(
                    (r * cols + c) as int,
                    cols as int,
                    r as int,
                    c as int,
                );
                assert(r * cols + c < rows * cols) by (nonlinear_arith)
                    requires
                        r < rows,
                        c < cols,
                ;
            }
            cells.push(cell);
            c += 1;
        }
        proof {
            assert(r * cols + cols == (r + 1) * cols) by (nonlinear_arith);
        }
        r += 1;
    }
    proof {
        assert(cells@ =~= blit_cells(img@, rows, cols));
    }
    CellGrid { rows, cols, cells }
}

/// Aspect ratio is preserved by letterboxing: when the image is wide
/// relative to the grid, the scaled region spans the full grid width
/// at the height the image's own ratio gives, and the rows above and
/// below it are uniform empty bands, equal up to the odd row.
pub proof fn lemma_letterbox_wide(img: RasterModel, rows: u16, cols: u16)
    requires
        img.width >= 1,
        img.height >= 1,
        img.width * rows >= img.height * cols,
    ensures
        fit_w(img, rows as int, cols as int) == cols,
        fit_h(img, rows as int, cols as int) == img.height * cols / img.width as int,
        fit_h(img, rows as int, cols as int) <= rows,
        off_y(img, rows as int, cols as int) == spec_center_vert(
            rows,
            fit_h(img, rows as int, cols as int) as u16,
        ).0,
        rows - fit_h(img, rows as int, cols as int) - off_y(img, rows as int, cols as int)
            == spec_center_vert(rows, fit_h(img, rows as int, cols as int) as u16).1,
        forall|r: int, c: int|
            0 <= r < off_y(img, rows as int, cols as int) && 0 <= c < cols ==> cell_at(
                img,
                rows as int,
                cols as int,
                r,
                c,
            ) == Cell::Empty,
        forall|r: int, c: int|
            off_y(img, rows as int, cols as int) + fit_h(img, rows as int, cols as int) <= r < rows
                && 0 <= c < cols ==> cell_at(img, rows as int, cols as int, r, c) == Cell::Empty,
{
    lemma_multiply_divide_le((img.height * cols) as int, img.width as int, rows as int);
}

/// The bottom letterbox band is never more than one row taller than
/// the top one: the bands are uniform up to the odd row.
pub proof fn lemma_letterbox_bands_even(rows: u16, fh: u16)
    requires
        fh <= rows,
    ensures
        spec_center_vert(rows, fh).1 == spec_center_vert(rows, fh).0 || spec_center_vert(
            rows,
            fh,
        ).1 == spec_center_vert(rows, fh).0 + 1,
{
}

/// Names what image::load_from_memory decodes, followed by the RGBA8
/// conversion: width, height, and the raw sample bytes. The result is
/// a function of the encoded bytes alone.
pub uninterp spec fn decoded_rgba(bytes: Seq<u8>) -> Option<(u32, u32, Seq<u8>)>;

/// Relies on image::load_from_memory and DynamicImage::into_rgba8 of
/// the image crate: decoding is a function of the input bytes alone,
/// and an ImageBuffer's container always holds at least
/// width * height * 4 samples (checked at its construction).
#[verifier::external_body]
fn decode_rgba(bytes: &[u8]) -> (r: Option<RasterImage>)
    ensures
        r is Some <==> decoded_rgba(bytes@) is Some,
        r is Some ==> {
            let (w, h, px) = decoded_rgba(bytes@)->Some_0;
            r->Some_0.width == w && r->Some_0.height == h && r->Some_0.pixels@ == px
                && r->Some_0.wf()
        },
{
    match image::load_from_memory(bytes) {
        Ok(decoded) => {
            let rgba = decoded.into_rgba8();
            let width = rgba.width();
            let height = rgba.height();
            let pixels = rgba.into_raw();
            Some(RasterImage { width, height, pixels })
        },
        Err(_) => None,
    }
}

/// Decodes the bundled logo's bytes into a raster image. Returns
/// `Ok` exactly when the bytes decode; a failure is a `DecodeError`,
/// the packaging-defect case of the error taxonomy.
pub fn load_logo(bytes: &[u8]) -> (r: Result<RasterImage, DecodeError>)
    ensures
        r is Ok <==> decoded_rgba(bytes@) is Some,
        r is Ok ==> {
            let (w, h, px) = decoded_rgba(bytes@)->Some_0;
            r->Ok_0.width == w && r->Ok_0.height == h && r->Ok_0.pixels@ == px && r->Ok_0.wf()
        },
        r is Err ==> r->Err_0 == DecodeError,
{
    match decode_rgba(bytes) {
        Some(img) => Ok(img),
        None => Err(DecodeError),
    }
}

} // verus!
