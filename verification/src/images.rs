//! Small copies of images, and how they are shown.

use vstd::prelude::*;

use crate::geometry;
use crate::geometry::Rect;
use crate::paste_editor;
use crate::state_types::ImageAttachment;
use crate::state_types::Target;
use crate::text;

verus! {

broadcast use vstd::string::group_string_axioms;

/// A product, cut at the largest number there is.
pub open spec fn capped(a: int, b: int) -> int {
    geometry::min(a * b, usize::MAX as int)
}

/// A product, cut at the largest number there is.
fn capped_product(a: usize, b: usize) -> (r: usize)
    ensures
        r == capped(a as int, b as int),
{
    match a.checked_mul(b) {
        Some(product) => product,
        None => usize::MAX,
    }
}

/// The size of the small copy of an image: at most 100 by 60 pixels, in the
/// proportions of the image.
pub open spec fn preview_size(width: int, height: int) -> (int, int) {
    if width <= 100 && height <= 60 {
        (geometry::max(width, 1), geometry::max(height, 1))
    } else if capped(width, 60) > capped(height, 100) {
        (100, geometry::max(capped(height, 100) / width, 1))
    } else {
        (geometry::max(capped(width, 60) / height, 1), 60)
    }
}

/// The byte `c` of the pixel that stands for the pixel (x, y) of the copy.
pub open spec fn sampled(
    rgba: Seq<u8>,
    width: int,
    height: int,
    size: (int, int),
    x: int,
    y: int,
    c: int,
) -> u8 {
    rgba[(y * height / size.1 * width + x * width / size.0) * 4 + c]
}

/// The image has four bytes for each of its pixels, and at least one pixel.
pub open spec fn enough_bytes(rgba: Seq<u8>, width: int, height: int) -> bool {
    geometry::max(width, 1) * geometry::max(height, 1) * 4 <= rgba.len()
}

/// The copy of an image.
pub open spec fn is_preview(
    rgba: Seq<u8>,
    width: int,
    height: int,
    size: (int, int),
    copy: Seq<u8>,
) -> bool {
    &&& size == preview_size(width, height)
    &&& copy.len() == size.0 * size.1 * 4
    &&& forall|x: int, y: int, c: int|
        0 <= x < size.0 && 0 <= y < size.1 && 0 <= c < 4 ==> copy[#[trigger] byte_of(
            size.0,
            x,
            y,
            c,
        )] == sampled(rgba, width, height, size, x, y, c)
}

/// Where a byte of a pixel is in an image of this width.
pub open spec fn byte_of(width: int, x: int, y: int, c: int) -> int {
    (y * width + x) * 4 + c
}

/// The copy of an image stays within its bounds.
pub proof fn previews_are_small(width: int, height: int)
    requires
        0 <= width <= usize::MAX,
        0 <= height <= usize::MAX,
    ensures
        1 <= preview_size(width, height).0 <= 100,
        1 <= preview_size(width, height).1 <= 60,
{
    if width <= 100 && height <= 60 {
    } else if capped(width, 60) > capped(height, 100) {
        let tall = capped(height, 100);
        assert(tall == height * 100);
        assert(width * 60 > tall);
        assert(tall / width < 60) by (nonlinear_arith)
            requires
                width * 60 > tall,
                tall >= 0,
                width > 0,
        ;
    } else {
        let wide = capped(width, 60);
        assert(height > 0);
        assert(wide <= height * 100);
        assert(wide / height <= 100) by (nonlinear_arith)
            requires
                wide <= height * 100,
                wide >= 0,
                height > 0,
        ;
        assert(wide / height >= 0) by (nonlinear_arith)
            requires
                wide >= 0,
                height > 0,
        ;
    }
}

/// The scaled coordinate `at * whole / parts`.
fn scaled(at: usize, whole: usize, parts: usize) -> (r: usize)
    requires
        at < parts,
    ensures
        r == at * whole / (parts as int),
        r < whole || (whole == 0 && r == 0),
{
    proof {
        assert(at * whole <= 0xffff_ffff_ffff_ffff * 0xffff_ffff_ffff_ffff) by (nonlinear_arith)
            requires
                at <= 0xffff_ffff_ffff_ffff,
                whole <= 0xffff_ffff_ffff_ffff,
        ;
        assert(at * whole / (parts as int) < whole || whole == 0) by (nonlinear_arith)
            requires
                at < parts,
                parts > 0,
                whole >= 0,
        ;
        assert(whole == 0 ==> at * whole / (parts as int) == 0) by (nonlinear_arith)
            requires
                parts > 0,
        ;
        assert(at * whole / (parts as int) >= 0) by (nonlinear_arith)
            requires
                parts > 0,
                at >= 0,
                whole >= 0,
        ;
    }
    let product: u128 = at as u128 * whole as u128;
    (product / parts as u128) as usize
}

/// Adds the four bytes of a pixel.
fn add_pixel(copy: &mut Vec<u8>, rgba: &[u8], at: usize)
    requires
        at + 4 <= rgba@.len(),
    ensures
        final(copy)@ == old(copy)@ + rgba@.subrange(at as int, at + 4),
{
    copy.push(rgba[at]);
    copy.push(rgba[at + 1]);
    copy.push(rgba[at + 2]);
    copy.push(rgba[at + 3]);
    assert(copy@ =~= old(copy)@ + rgba@.subrange(at as int, at + 4));
}

/// The first `n` pixels of the copy of an image, row by row.
spec fn filled(
    rgba: Seq<u8>,
    width: int,
    height: int,
    size: (int, int),
    copy: Seq<u8>,
    y: int,
    x: int,
) -> bool {
    &&& copy.len() == byte_of(size.0, x, y, 0)
    &&& forall|a: int, b: int, c: int|
        0 <= a < size.0 && 0 <= b && 0 <= c < 4 && (b < y || (b == y && a < x))
            ==> copy[#[trigger] byte_of(size.0, a, b, c)] == sampled(
            rgba,
            width,
            height,
            size,
            a,
            b,
            c,
        )
}

proof fn filled_grows(
    rgba: Seq<u8>,
    width: int,
    height: int,
    size: (int, int),
    copy: Seq<u8>,
    y: int,
    x: int,
    at: int,
)
    requires
        filled(rgba, width, height, size, copy, y, x),
        0 <= x < size.0,
        0 <= y < size.1,
        at == (y * height / size.1 * width + x * width / size.0) * 4,
        0 <= at,
        at + 4 <= rgba.len(),
    ensures
        filled(rgba, width, height, size, copy + rgba.subrange(at, at + 4), y, x + 1),
{
    let more = copy + rgba.subrange(at, at + 4);
    assert forall|a: int, b: int, c: int|
        0 <= a < size.0 && 0 <= b && 0 <= c < 4 && (b < y || (b == y && a < x + 1)) implies more[
    #[trigger] byte_of(size.0, a, b, c)] == sampled(rgba, width, height, size, a, b, c) by {
        let p = byte_of(size.0, a, b, c);
        if b == y && a == x {
            assert(more[p] == rgba[at + c]);
        } else {
            assert(0 <= p < copy.len()) by {
                if b < y {
                    assert(b * size.0 + size.0 <= y * size.0) by (nonlinear_arith)
                        requires
                            b < y,
                            size.0 > 0,
                    ;
                    assert(b * size.0 >= 0) by (nonlinear_arith)
                        requires
                            b >= 0,
                            size.0 > 0,
                    ;
                } else {
                    assert(b * size.0 >= 0) by (nonlinear_arith)
                        requires
                            b >= 0,
                            size.0 > 0,
                    ;
                }
            }
            assert(more[p] == copy[p]);
        }
    }
}

/// Makes a small copy of an image: its width, its height and its bytes, four
/// for each pixel.
pub fn image_preview(width: usize, height: usize, rgba: &[u8]) -> (r: (u16, u16, Vec<u8>))
    requires
        enough_bytes(rgba@, width as int, height as int),
    ensures
        is_preview(rgba@, width as int, height as int, (r.0 as int, r.1 as int), r.2@),
{
    let (across, down): (usize, usize) = if width <= 100 && height <= 60 {
        (geometry::larger(width, 1), geometry::larger(height, 1))
    } else if capped_product(width, 60) > capped_product(height, 100) {
        (100, geometry::larger(capped_product(height, 100) / width, 1))
    } else {
        (geometry::larger(capped_product(width, 60) / height, 1), 60)
    };
    let ghost size = preview_size(width as int, height as int);
    proof {
        previews_are_small(width as int, height as int);
        assert(size == (across as int, down as int));
    }
    let total: usize = rgba.len();
    let mut copy: Vec<u8> = Vec::new();
    let mut y: usize = 0;
    assert(filled(rgba@, width as int, height as int, size, copy@, 0, 0));
    while y < down
        invariant
            y <= down <= 60,
            rgba@.len() == total,
            1 <= across <= 100,
            size == (across as int, down as int),
            enough_bytes(rgba@, width as int, height as int),
            filled(rgba@, width as int, height as int, size, copy@, y as int, 0),
        decreases down - y,
    {
        let row: usize = scaled(y, height, down);
        let mut x: usize = 0;
        while x < across
            invariant
                y < down <= 60,
                rgba@.len() == total,
                x <= across <= 100,
                size == (across as int, down as int),
                row == y * height / (down as int),
                row < height || (height == 0 && row == 0),
                enough_bytes(rgba@, width as int, height as int),
                filled(rgba@, width as int, height as int, size, copy@, y as int, x as int),
            decreases across - x,
        {
            let column: usize = scaled(x, width, across);
            proof {
                let w = geometry::max(width as int, 1);
                let h = geometry::max(height as int, 1);
                assert(row * width + column + 1 <= w * h) by (nonlinear_arith)
                    requires
                        0 <= row < h,
                        0 <= column < w,
                        width <= w,
                        row >= 0,
                ;
                assert(row * width >= 0) by (nonlinear_arith)
                    requires
                        row >= 0,
                        width >= 0,
                ;
                assert((row * width + column) * 4 + 4 <= rgba@.len());
            }
            let at: usize = (row * width + column) * 4;
            proof {
                filled_grows(
                    rgba@,
                    width as int,
                    height as int,
                    size,
                    copy@,
                    y as int,
                    x as int,
                    at as int,
                );
            }
            add_pixel(&mut copy, rgba, at);
            x += 1;
        }
        proof {
            assert(byte_of(size.0, across as int, y as int, 0) == byte_of(size.0, 0, y + 1, 0))
                by (nonlinear_arith)
                requires
                    size.0 == across,
            ;
        }
        y += 1;
    }
    assert(byte_of(size.0, 0, down as int, 0) == size.0 * size.1 * 4) by (nonlinear_arith)
        requires
            size.1 == down,
    ;
    (across as u16, down as u16, copy)
}

/// The cells that a copy of this size is shown in: as it is where it fits, and
/// otherwise as large as fits in its proportions. A screen row shows two rows
/// of pixels.
pub open spec fn display_size(width: int, height: int, area: Rect) -> (int, int) {
    let across = geometry::max(geometry::less(area.width as int, 6), 1);
    let down = geometry::max(
        geometry::min(geometry::less(area.height as int, 9) * 2, u16::MAX as int),
        1,
    );
    if width <= across && height <= down {
        (width, height)
    } else if width * down > height * across {
        (across, geometry::max(height * across / width, 1))
    } else {
        (geometry::max(width * down / height, 1), down)
    }
}

/// How many screen rows show this many rows of pixels.
pub open spec fn screen_rows(pixels: int) -> int {
    (pixels + 1) / 2
}

/// The rectangle of the image viewer.
pub open spec fn viewer_area(size: (int, int), area: Rect) -> Rect {
    geometry::middle(
        area,
        geometry::min(
            geometry::max(size.0 + 4, 44),
            geometry::max(geometry::less(area.width as int, 2), 1),
        ) as u16,
        geometry::min(
            screen_rows(size.1) + 7,
            geometry::max(geometry::less(area.height as int, 2), 1),
        ) as u16,
    )
}

/// What is shown fits into the screen.
pub proof fn display_fits(width: int, height: int, area: Rect)
    requires
        0 <= width <= u16::MAX,
        0 <= height <= u16::MAX,
    ensures
        display_size(width, height, area).0 <= geometry::max(
            geometry::less(area.width as int, 6),
            1,
        ),
        display_size(width, height, area).1 <= geometry::max(
            geometry::min(geometry::less(area.height as int, 9) * 2, u16::MAX as int),
            1,
        ),
        0 <= display_size(width, height, area).0,
        0 <= display_size(width, height, area).1,
{
    let across = geometry::max(geometry::less(area.width as int, 6), 1);
    let down = geometry::max(
        geometry::min(geometry::less(area.height as int, 9) * 2, u16::MAX as int),
        1,
    );
    if width <= across && height <= down {
    } else if width * down > height * across {
        assert(0 <= height * across / width <= down) by {
            assert(width > 0 && height * across >= 0) by (nonlinear_arith)
                requires
                    width * down > height * across,
                    width >= 0,
                    height >= 0,
                    across >= 1,
                    down >= 1,
            ;
            assert(0 <= height * across / width <= down) by (nonlinear_arith)
                requires
                    width * down > height * across,
                    width > 0,
                    height * across >= 0,
            ;
        }
    } else {
        assert(height > 0) by (nonlinear_arith)
            requires
                width * down <= height * across,
                width >= 0,
                height >= 0,
                across >= 1,
                down >= 1,
                !(width <= across && height <= down),
        ;
        assert(0 <= width * down / height <= across) by (nonlinear_arith)
            requires
                width * down <= height * across,
                width >= 0,
                down >= 1,
                height > 0,
        ;
    }
}

/// Where the image viewer is on the screen, and in how many columns and rows
/// of pixels it shows the copy.
pub fn image_viewer_geometry(image: &ImageAttachment, area: Rect) -> (r: (Rect, u16, u16))
    requires
        area.fits(),
    ensures
        (r.1 as int, r.2 as int) == display_size(
            image.preview_width as int,
            image.preview_height as int,
            area,
        ),
        r.0 == viewer_area((r.1 as int, r.2 as int), area),
        r.0.fits(),
{
    let width: u32 = image.preview_width as u32;
    let height: u32 = image.preview_height as u32;
    let across: u32 = geometry::larger_cells(area.width.saturating_sub(6), 1) as u32;
    let twice: u32 = area.height.saturating_sub(9) as u32 * 2;
    let limited: u32 = if twice > 65535 {
        65535
    } else {
        twice
    };
    let down: u32 = if limited == 0 {
        1
    } else {
        limited
    };
    proof {
        display_fits(width as int, height as int, area);
        products_fit(width as int, down as int);
        products_fit(height as int, across as int);
    }
    let (shown_width, shown_height): (u16, u16) = if width <= across && height <= down {
        (image.preview_width, image.preview_height)
    } else if width * down > height * across {
        proof {
            assert(width > 0) by (nonlinear_arith)
                requires
                    width * down > height * across,
                    width >= 0,
                    height >= 0,
                    across >= 1,
            ;
        }
        let scaled: u32 = height * across / width;
        (
            across as u16,
            if scaled == 0 {
                1
            } else {
                scaled as u16
            },
        )
    } else {
        proof {
            assert(height > 0) by (nonlinear_arith)
                requires
                    width * down <= height * across,
                    width >= 0,
                    height >= 0,
                    across >= 1,
                    down >= 1,
                    !(width <= across && height <= down),
            ;
        }
        let scaled: u32 = width * down / height;
        (
            if scaled == 0 {
                1
            } else {
                scaled as u16
            },
            down as u16,
        )
    };
    let rows: u16 = shown_height / 2 + shown_height % 2;
    let modal_width: u16 = geometry::smaller_cells(
        geometry::larger_cells(shown_width + 4, 44),
        geometry::larger_cells(area.width.saturating_sub(2), 1),
    );
    let modal_height: u16 = geometry::smaller_cells(
        rows + 7,
        geometry::larger_cells(area.height.saturating_sub(2), 1),
    );
    (geometry::centered(area, modal_width, modal_height), shown_width, shown_height)
}

proof fn products_fit(a: int, b: int)
    requires
        0 <= a <= u16::MAX,
        0 <= b <= u16::MAX,
    ensures
        0 <= a * b <= u32::MAX,
{
    assert(0 <= a * b <= 65535 * 65535) by (nonlinear_arith)
        requires
            0 <= a <= 65535,
            0 <= b <= 65535,
    ;
}

/// The color of a pixel.
#[derive(Clone, Copy, Debug, PartialEq, Eq, Structural)]
pub struct Pixel {
    pub red: u8,
    pub green: u8,
    pub blue: u8,
}

/// The pixel of a copy that stands for a cell: its first byte.
pub open spec fn pixel_at(image: ImageAttachment, x: int, y: int) -> int {
    (y * image.preview_width + x) * 4
}

/// The column of the copy that a column of the viewer shows.
pub open spec fn source_column(image: ImageAttachment, width: int, column: int) -> int {
    column * image.preview_width / width
}

/// The rows of the copy that the upper and the lower half of a screen row show.
pub open spec fn source_rows(image: ImageAttachment, height: int, row: int) -> (int, int) {
    (
        row * 2 * image.preview_height / height,
        geometry::min(
            geometry::min(row * 2 + 1, height - 1) * image.preview_height / height,
            image.preview_height - 1,
        ),
    )
}

/// The colors of the upper and the lower half of a cell, `None` where the copy
/// has no bytes for them.
pub open spec fn cell_colors(
    image: ImageAttachment,
    width: int,
    height: int,
    column: int,
    row: int,
) -> Option<(Pixel, Pixel)> {
    let bytes = image.preview_rgba@;
    let x = source_column(image, width, column);
    let (upper, lower) = source_rows(image, height, row);
    let top = pixel_at(image, x, upper);
    let bottom = pixel_at(image, x, lower);
    if bottom + 2 >= bytes.len() || top + 2 >= bytes.len() {
        None
    } else {
        Some(
            (
                Pixel { red: bytes[top], green: bytes[top + 1], blue: bytes[top + 2] },
                Pixel { red: bytes[bottom], green: bytes[bottom + 1], blue: bytes[bottom + 2] },
            ),
        )
    }
}

/// The scaled coordinate of a copy.
fn source(at: u16, whole: u16, parts: u16) -> (r: u64)
    requires
        parts > 0,
    ensures
        r == at * whole / (parts as int),
        r <= 65535 * 65535,
{
    proof {
        products_fit(at as int, whole as int);
        assert(at * whole / (parts as int) <= at * whole) by (nonlinear_arith)
            requires
                parts >= 1,
                at * whole >= 0,
        ;
        assert(at * whole <= 65535 * 65535) by (nonlinear_arith)
            requires
                0 <= at <= 65535,
                0 <= whole <= 65535,
        ;
    }
    at as u64 * whole as u64 / parts as u64
}

/// The colors of the upper and the lower half of a cell of the viewer.
pub fn preview_cell(
    image: &ImageAttachment,
    width: u16,
    height: u16,
    column: u16,
    row: u16,
) -> (r: Option<(Pixel, Pixel)>)
    requires
        column < width,
        row * 2 < height,
        image.preview_height > 0,
    ensures
        r == cell_colors(*image, width as int, height as int, column as int, row as int),
{
    let x: u64 = source(column, image.preview_width, width);
    let upper: u64 = source(row * 2, image.preview_height, height);
    let next: u16 = geometry::smaller_cells(row * 2 + 1, height - 1);
    let scaled: u64 = source(next, image.preview_height, height);
    let last: u64 = image.preview_height as u64 - 1;
    let lower: u64 = if scaled <= last {
        scaled
    } else {
        last
    };
    proof {
        bytes_fit(upper as int, image.preview_width as int, x as int);
        bytes_fit(lower as int, image.preview_width as int, x as int);
    }
    let top: u64 = (upper * image.preview_width as u64 + x) * 4;
    let bottom: u64 = (lower * image.preview_width as u64 + x) * 4;
    let length: u64 = image.preview_rgba.len() as u64;
    if bottom + 2 >= length || top + 2 >= length {
        return None;
    }
    let above: usize = top as usize;
    let below: usize = bottom as usize;
    let bytes: &Vec<u8> = &image.preview_rgba;
    Some(
        (
            Pixel { red: bytes[above], green: bytes[above + 1], blue: bytes[above + 2] },
            Pixel { red: bytes[below], green: bytes[below + 1], blue: bytes[below + 2] },
        ),
    )
}

proof fn bytes_fit(y: int, width: int, x: int)
    requires
        0 <= y <= 65535 * 65535,
        0 <= width <= 65535,
        0 <= x <= 65535 * 65535,
    ensures
        0 <= y * width <= 65535 * 65535 * 65535,
{
    assert(0 <= y * width <= 65535 * 65535 * 65535) by (nonlinear_arith)
        requires
            0 <= y <= 65535 * 65535,
            0 <= width <= 65535,
    ;
}

/// The line under the name of an image: its size and its type.
pub open spec fn caption(image: ImageAttachment) -> Seq<char> {
    text::decimal(image.width as nat) + "×"@ + text::decimal(image.height as nat) + " · "@
        + image.mime_type@
}

/// The line under the name of an image.
pub fn image_caption(image: &ImageAttachment) -> (r: String)
    ensures
        r@ == caption(*image),
{
    let size: String = text::joined3(
        text::decimal_text(image.width as u64).as_str(),
        "×",
        text::decimal_text(image.height as u64).as_str(),
    );
    text::joined3(size.as_str(), " · ", image.mime_type.as_str())
}

/// The buttons of the image viewer: remove and close.
pub open spec fn viewer_actions(viewer: Rect) -> Seq<Target> {
    let row = geometry::less(viewer.end_y(), 2) as u16;
    seq![
        Target {
            id: 0,
            start: paste_editor::cut(viewer.x + 2),
            end: paste_editor::cut(viewer.x + 12),
            row,
        },
        Target {
            id: 1,
            start: paste_editor::cut(viewer.x + 13),
            end: paste_editor::cut(viewer.x + 22),
            row,
        },
    ]
}

/// The buttons of the image viewer.
pub fn image_viewer_actions(viewer: Rect) -> (r: Vec<Target>)
    ensures
        r@ == viewer_actions(viewer),
{
    let row: u16 = viewer.bottom().saturating_sub(2);
    let mut actions: Vec<Target> = Vec::new();
    actions.push(
        Target {
            id: 0,
            start: viewer.x.saturating_add(2),
            end: viewer.x.saturating_add(12),
            row,
        },
    );
    actions.push(
        Target {
            id: 1,
            start: viewer.x.saturating_add(13),
            end: viewer.x.saturating_add(22),
            row,
        },
    );
    assert(actions@ =~= viewer_actions(viewer));
    actions
}

/// A small image is copied as it is: each pixel stands for itself.
pub proof fn small_images_are_copied(rgba: Seq<u8>, width: int, height: int, copy: Seq<u8>, x: int, y: int, c: int)
    requires
        1 <= width <= 100,
        1 <= height <= 60,
        is_preview(rgba, width, height, preview_size(width, height), copy),
        0 <= x < width,
        0 <= y < height,
        0 <= c < 4,
    ensures
        preview_size(width, height) == (width, height),
        copy[byte_of(width, x, y, c)] == rgba[byte_of(width, x, y, c)],
{
    assert(y * height / height == y) by (nonlinear_arith)
        requires
            height > 0,
    ;
    assert(x * width / width == x) by (nonlinear_arith)
        requires
            width > 0,
    ;
}

/// An image that is wider than the copy may be is as wide as that, or as high as that.
pub proof fn large_images_fill_the_copy(width: int, height: int)
    requires
        0 <= width,
        0 <= height,
        width > 100 || height > 60,
    ensures
        preview_size(width, height).0 == 100 || preview_size(width, height).1 == 60,
{
}

/// Two rows of pixels share a row of the screen.
pub proof fn pixel_rows_share_a_screen_row(pixels: int)
    requires
        pixels >= 0,
    ensures
        2 * screen_rows(pixels) - 1 <= pixels <= 2 * screen_rows(pixels) || pixels == 0,
        screen_rows(0) == 0,
{
}

/// Where an image is shown in its own size, every cell shows two of its pixels, one above the
/// other, with their own colours.
pub proof fn cells_show_their_pixels(image: ImageAttachment, column: int, row: int)
    requires
        0 <= column < image.preview_width,
        0 <= 2 * row < image.preview_height,
        image.preview_rgba@.len() == 4 * image.preview_width * image.preview_height,
    ensures
        ({
            let wide = image.preview_width as int;
            let high = image.preview_height as int;
            let bytes = image.preview_rgba@;
            let top = 4 * (2 * row * wide + column);
            let below = 4 * ((2 * row + 1) * wide + column);
            cell_colors(image, wide, high, column, row) matches Some((upper, lower)) && {
                &&& upper.red == bytes[top] && upper.green == bytes[top + 1] && upper.blue
                    == bytes[top + 2]
                &&& 2 * row + 1 < high ==> lower.red == bytes[below] && lower.green == bytes[below
                    + 1] && lower.blue == bytes[below + 2]
                &&& 2 * row + 1 == high ==> lower == upper
            }
        }),
{
    let wide = image.preview_width as int;
    let high = image.preview_height as int;
    let bytes = image.preview_rgba@;
    let upper = 2 * row;
    let lower = geometry::min(upper + 1, high - 1);
    assert(column * wide / wide == column) by (nonlinear_arith)
        requires
            wide > 0,
    ;
    assert(row * 2 * high / high == upper) by (nonlinear_arith)
        requires
            high > 0,
            upper == 2 * row,
    ;
    assert(lower * high / high == lower) by (nonlinear_arith)
        requires
            high > 0,
    ;
    assert((upper * wide + column) * 4 + 4 <= bytes.len()) by (nonlinear_arith)
        requires
            bytes.len() == 4 * wide * high,
            0 <= column < wide,
            0 <= upper < high,
    ;
    assert((lower * wide + column) * 4 + 4 <= bytes.len()) by (nonlinear_arith)
        requires
            bytes.len() == 4 * wide * high,
            0 <= column < wide,
            0 <= lower < high,
    ;
    assert((upper * wide + column) * 4 >= 0) by (nonlinear_arith)
        requires
            0 <= column < wide,
            0 <= upper,
    ;
    assert((lower * wide + column) * 4 >= 0) by (nonlinear_arith)
        requires
            0 <= column < wide,
            0 <= lower,
    ;
}

/// The two buttons below an image stand beside one another in one row and share no cell.
pub proof fn image_buttons_stand_apart(viewer: Rect)
    requires
        viewer.fits(),
        viewer.width >= 24,
        viewer.height >= 2,
    ensures
        ({
            let buttons = viewer_actions(viewer);
            &&& buttons.len() == 2
            &&& buttons[0].id == 0 && buttons[1].id == 1
            &&& viewer.x < buttons[0].start < buttons[0].end < buttons[1].start < buttons[1].end
                <= viewer.x + viewer.width
            &&& buttons[0].row == buttons[1].row
            &&& viewer.y <= buttons[0].row < viewer.y + viewer.height
        }),
{
}

} // verus!
