use protogen_face::canvas::{Canvas, PixelDrawer};
use protogen_face::color::{get_shimmer_color, ColorPalette};

#[test]
fn draw_writes_pixel_and_horizontal_mirror() {
    // On a 64-wide panel, a write at column 5 also lands at column
    // 64 * 2 - 1 - 5 = 122, both at the vertically flipped row.
    let mut canvas = Canvas::new();
    let drawer = PixelDrawer;
    drawer.draw(&mut canvas, 25500, 0, 5, 10, 100, ColorPalette::Forest);
    let writes = canvas.writes();
    assert_eq!(writes.len(), 2);
    assert_eq!(writes[0].x, 5);
    assert_eq!(writes[0].y, 31 - 10);
    assert_eq!(writes[1].x, 122);
    assert_eq!(writes[1].y, 31 - 10);
    assert_eq!(writes[0].color, writes[1].color);
    assert_eq!(writes[0].color, get_shimmer_color(0, 25500, ColorPalette::Forest));
}

#[test]
fn draw_discards_out_of_range_writes() {
    let mut canvas = Canvas::new();
    let drawer = PixelDrawer;
    drawer.draw(&mut canvas, 25500, 0, -1, 10, 100, ColorPalette::Forest);
    drawer.draw(&mut canvas, 25500, 0, 64, 10, 100, ColorPalette::Forest);
    drawer.draw(&mut canvas, 25500, 0, 5, -1, 100, ColorPalette::Forest);
    drawer.draw(&mut canvas, 25500, 0, 5, 33, 100, ColorPalette::Forest);
    assert_eq!(canvas.writes().len(), 0);
}

#[test]
fn draw_applies_global_brightness() {
    let mut canvas = Canvas::new();
    let drawer = PixelDrawer;
    // Local brightness 255.00 at global factor 0.50 equals the shimmer
    // color at 127.50.
    drawer.draw(&mut canvas, 25500, 500, 7, 3, 50, ColorPalette::Ocean);
    let writes = canvas.writes();
    assert_eq!(writes[0].color, get_shimmer_color(500, 12750, ColorPalette::Ocean));
}

#[test]
fn clear_drops_recorded_writes() {
    let mut canvas = Canvas::new();
    let drawer = PixelDrawer;
    drawer.draw(&mut canvas, 25500, 0, 5, 10, 100, ColorPalette::Forest);
    assert!(canvas.writes().len() > 0);
    canvas.clear();
    assert_eq!(canvas.writes().len(), 0);
}
