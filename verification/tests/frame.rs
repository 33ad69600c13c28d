use moshya_viewer::color::{GridColor, Rgba};
use moshya_viewer::files::{filter_name, image_extensions, image_uri};
use moshya_viewer::frame::{Content, GridLayer, ImageLayer};
use moshya_viewer::grid::{grid_segments, Point, Ratio};
use moshya_viewer::labels::{format_size, placeholder_text, push_decimal};
use moshya_viewer::opacity::Opacity;
use moshya_viewer::state::{PickedFile, ViewerState};

fn loaded(path: &str) -> ViewerState {
    let mut state = ViewerState::new();
    state.open_file(Some(PickedFile { path: path.to_string(), size: None }));
    state
}

fn image_of(state: &ViewerState) -> ImageLayer {
    match state.render() {
        Content::Image(layer) => layer,
        Content::Placeholder(text) => panic!("placeholder shown: {}", text),
    }
}

fn grid_of(state: &ViewerState) -> GridLayer {
    image_of(state).grid.expect("grid layer")
}

#[test]
fn frame_without_image_shows_the_placeholder() {
    let state = ViewerState::new();
    assert_eq!(state.background(), Rgba { r: 0, g: 0, b: 0, a: 26 });
    match state.render() {
        Content::Placeholder(text) => assert_eq!(text, "Drop an image here"),
        Content::Image(layer) => panic!("image shown: {:?}", layer),
    }
}

#[test]
fn grid_is_not_painted_without_an_image() {
    let mut state = ViewerState::new();
    state.toggle_grid();
    assert!(matches!(state.render(), Content::Placeholder("Drop an image here")));
}

#[test]
fn background_follows_the_opacity() {
    let mut state = ViewerState::new();
    state.set_opacity(Opacity::from_bits(0.5f32.to_bits()).unwrap());
    assert_eq!(state.background(), Rgba { r: 0, g: 0, b: 0, a: 13 });
    state.set_opacity(Opacity::from_bits(0.1f32.to_bits()).unwrap());
    assert_eq!(state.background(), Rgba { r: 0, g: 0, b: 0, a: 3 });
    assert_eq!(
        state.background().to_color32(),
        egui::Color32::from_rgba_premultiplied(0, 0, 0, 3)
    );
}

#[test]
fn frame_with_image_has_uri_rotation_anchor_and_tint() {
    let mut state = loaded("/pictures/cat.png");
    state.set_opacity(Opacity::from_bits(0.5f32.to_bits()).unwrap());
    state.set_rotation(0.75f32.to_bits());
    let image = image_of(&state);
    assert_eq!(image.uri, "file:///pictures/cat.png");
    assert_eq!(f32::from_bits(image.rotation), 0.75);
    let half = Ratio { num: 1, den: 2 };
    assert_eq!(image.anchor, Point { x: half, y: half });
    assert_eq!(image.tint, Rgba { r: 128, g: 128, b: 128, a: 128 });
    assert_eq!(
        image.tint.to_color32(),
        egui::Color32::from_rgba_premultiplied(128, 128, 128, 128)
    );
    assert!(image.grid.is_none());
}

#[test]
fn frame_with_grid_has_the_grid_strokes() {
    let mut state = loaded("/a.bmp");
    state.toggle_grid();
    state.set_grid_cols(4);
    state.set_grid_rows(2);
    state.select_grid_color(GridColor::Cyan);
    let grid = grid_of(&state);
    assert_eq!(grid.color, GridColor::Cyan);
    assert_eq!(grid.width, 1);
    assert_eq!(grid.segments, grid_segments(4, 2));
    assert_eq!(grid.segments.len(), 8);
}

#[test]
fn single_cell_grid_frame_has_four_border_strokes() {
    let mut state = loaded("/a.bmp");
    state.toggle_grid();
    state.set_grid_cols(1);
    state.set_grid_rows(1);
    let grid = grid_of(&state);
    assert_eq!(grid.segments.len(), 4);
    assert_eq!(grid.segments, grid_segments(1, 1));
}

#[test]
fn default_grid_frame_has_four_by_four_red_grid() {
    let mut state = loaded("/a.bmp");
    state.toggle_grid();
    let grid = grid_of(&state);
    assert_eq!(grid.color, GridColor::Red);
    assert_eq!(grid.segments.len(), 10);
}

#[test]
fn switching_the_grid_off_removes_the_grid_layer() {
    let mut state = loaded("/a.bmp");
    state.toggle_grid();
    assert!(image_of(&state).grid.is_some());
    state.toggle_grid();
    assert!(image_of(&state).grid.is_none());
}

#[test]
fn rendering_leaves_the_state_alone() {
    let mut state = loaded("/a.bmp");
    state.toggle_grid();
    let first = image_of(&state);
    let second = image_of(&state);
    assert_eq!(first.uri, second.uri);
    assert_eq!(first.tint, second.tint);
    assert!(state.show_grid());
    assert_eq!(state.image_path().map(|p| p.as_str()), Some("/a.bmp"));
}

#[test]
fn a_dropped_file_is_shown_from_its_own_path() {
    let mut state = loaded("/old.png");
    state.drop_files(&vec![Some("/new.png".to_string())]);
    assert_eq!(image_of(&state).uri, "file:///new.png");
}

#[test]
fn image_uri_prefixes_the_file_scheme() {
    assert_eq!(image_uri("/home/me/a b.png"), "file:///home/me/a b.png");
    assert_eq!(image_uri("relative.jpg"), "file://relative.jpg");
    assert_eq!(image_uri(""), "file://");
    assert_eq!(image_uri("C:\\pics\\x.webp"), "file://C:\\pics\\x.webp");
}

#[test]
fn dialog_filter_lists_the_image_extensions() {
    assert_eq!(filter_name(), "Image");
    assert_eq!(image_extensions(), ["png", "jpg", "jpeg", "webp", "bmp"]);
}

#[test]
fn pin_label_names_the_next_action() {
    let mut state = ViewerState::new();
    assert_eq!(state.pin_label(), "Pin");
    state.toggle_pin();
    assert_eq!(state.pin_label(), "Unpin");
    state.toggle_pin();
    assert_eq!(state.pin_label(), "Pin");
}

#[test]
fn grid_label_names_the_present_setting() {
    let mut state = ViewerState::new();
    assert_eq!(state.grid_label(), "Grid Off");
    state.toggle_grid();
    assert_eq!(state.grid_label(), "Grid On");
}

#[test]
fn size_label_shows_width_x_height() {
    let mut state = ViewerState::new();
    assert_eq!(state.size_label(), None);
    state.open_file(Some(PickedFile { path: "/a.png".to_string(), size: Some((1920, 1080)) }));
    assert_eq!(state.size_label(), Some("1920x1080".to_string()));
    state.drop_files(&vec![Some("/b.png".to_string())]);
    assert_eq!(state.size_label(), Some("1920x1080".to_string()));
}

#[test]
fn sizes_are_written_in_decimal() {
    assert_eq!(format_size(0, 0), "0x0");
    assert_eq!(format_size(1, 9), "1x9");
    assert_eq!(format_size(10, 100), "10x100");
    assert_eq!(format_size(1920, 1080), "1920x1080");
    assert_eq!(format_size(u32::MAX, 4_000_000_000), "4294967295x4000000000");
    for (w, h) in [(7u32, 13u32), (640, 480), (99_999, 100_000), (123_456_789, 987_654_321)] {
        assert_eq!(format_size(w, h), format!("{}x{}", w, h));
    }
}

#[test]
fn push_decimal_appends_to_what_is_there() {
    let mut text = String::from("n=");
    push_decimal(&mut text, 0);
    push_decimal(&mut text, 305);
    assert_eq!(text, "n=0305");
    for n in [0u32, 9, 10, 11, 99, 100, 101, 65_535, 65_536, u32::MAX] {
        let mut out = String::new();
        push_decimal(&mut out, n);
        assert_eq!(out, format!("{}", n));
    }
}

#[test]
fn placeholder_invites_a_drop() {
    assert_eq!(placeholder_text(), "Drop an image here");
}
