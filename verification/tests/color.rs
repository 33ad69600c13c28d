use moshya_viewer::color::{GridColor, Rgba, GRID_ALPHA};

#[test]
fn grid_colors_have_fixed_channels() {
    assert_eq!(GridColor::Red.rgba(), Rgba { r: 255, g: 0, b: 0, a: 180 });
    assert_eq!(GridColor::Cyan.rgba(), Rgba { r: 0, g: 255, b: 255, a: 180 });
    assert_eq!(GridColor::Green.rgba(), Rgba { r: 0, g: 255, b: 0, a: 180 });
    assert_eq!(GridColor::White.rgba(), Rgba { r: 255, g: 255, b: 255, a: 180 });
    assert_eq!(GridColor::Black.rgba(), Rgba { r: 0, g: 0, b: 0, a: 180 });
}

#[test]
fn every_grid_color_is_translucent() {
    assert_eq!(GRID_ALPHA, 180);
    for color in GridColor::all() {
        assert_eq!(color.rgba().a, 180);
    }
}

#[test]
fn grid_colors_convert_to_painter_colors() {
    assert_eq!(
        GridColor::Red.to_color32(),
        egui::Color32::from_rgba_premultiplied(255, 0, 0, 180)
    );
    assert_eq!(
        GridColor::Cyan.to_color32(),
        egui::Color32::from_rgba_premultiplied(0, 255, 255, 180)
    );
    assert_eq!(
        GridColor::Green.to_color32(),
        egui::Color32::from_rgba_premultiplied(0, 255, 0, 180)
    );
    assert_eq!(
        GridColor::White.to_color32(),
        egui::Color32::from_rgba_premultiplied(255, 255, 255, 180)
    );
    assert_eq!(
        GridColor::Black.to_color32(),
        egui::Color32::from_rgba_premultiplied(0, 0, 0, 180)
    );
}

#[test]
fn channels_keep_their_order_in_the_painter_color() {
    let color = Rgba { r: 1, g: 2, b: 3, a: 4 }.to_color32();
    assert_eq!(color.to_array(), [1, 2, 3, 4]);
    assert_eq!(color.r(), 1);
    assert_eq!(color.g(), 2);
    assert_eq!(color.b(), 3);
    assert_eq!(color.a(), 4);
}

#[test]
fn grid_colors_have_names() {
    assert_eq!(GridColor::Red.name(), "Red");
    assert_eq!(GridColor::Cyan.name(), "Cyan");
    assert_eq!(GridColor::Green.name(), "Green");
    assert_eq!(GridColor::White.name(), "White");
    assert_eq!(GridColor::Black.name(), "Black");
}

#[test]
fn all_lists_the_colors_in_menu_order() {
    assert_eq!(
        GridColor::all(),
        [
            GridColor::Red,
            GridColor::Cyan,
            GridColor::Green,
            GridColor::White,
            GridColor::Black
        ]
    );
}
