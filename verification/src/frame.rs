//! What one frame shows, as values computed from the state alone.
//!
//! A frame is painted in this order: the background fill over the whole window, then the
//! content, which is either the placeholder text or the image, and over the image the grid.
//! This module decides what is painted; putting it on the screen is left to the host.

use crate::color::{GridColor, Rgba};
use crate::files::{file_uri, image_uri};
use crate::grid::{grid_lines, grid_segments, outline, Point, Ratio, Segment, STROKE_WIDTH};
use crate::labels::{placeholder, placeholder_text};
use crate::state::{StateView, ViewerState};
use vstd::prelude::*;

verus! {

/// The grid strokes over an image.
#[derive(Debug)]
pub struct GridLayer {
    /// Colour of every stroke.
    pub color: GridColor,
    /// Width of every stroke in pixels.
    pub width: u32,
    /// The strokes in painting order, in the coordinates of the image rectangle.
    pub segments: Vec<Segment>,
}

/// The image as it is to be painted.
#[derive(Debug)]
pub struct ImageLayer {
    /// Resource locator of the image file.
    pub uri: String,
    /// Rotation in radians, as a single-precision bit pattern.
    pub rotation: u32,
    /// The point of the image that the rotation turns about.
    pub anchor: Point,
    /// Tint multiplied into the image's pixels.
    pub tint: Rgba,
    /// The grid over the image, if it is switched on.
    pub grid: Option<GridLayer>,
}

/// What fills the area below the toolbar.
#[derive(Debug)]
pub enum Content {
    /// No image is loaded: this text is shown, centred.
    Placeholder(&'static str),
    /// The loaded image.
    Image(ImageLayer),
}

/// Model of a [`GridLayer`].
pub struct GridLayerView {
    pub color: GridColor,
    pub width: u32,
    pub segments: Seq<Segment>,
}

/// Model of an [`ImageLayer`].
pub struct ImageLayerView {
    pub uri: Seq<char>,
    pub rotation: u32,
    pub anchor: Point,
    pub tint: Rgba,
    pub grid: Option<GridLayerView>,
}

/// Model of a [`Content`].
pub enum ContentView {
    Placeholder(Seq<char>),
    Image(ImageLayerView),
}

impl View for GridLayer {
    type V = GridLayerView;

    open spec fn view(&self) -> GridLayerView {
        GridLayerView { color: self.color, width: self.width, segments: self.segments@ }
    }
}

impl View for ImageLayer {
    type V = ImageLayerView;

    open spec fn view(&self) -> ImageLayerView {
        ImageLayerView {
            uri: self.uri@,
            rotation: self.rotation,
            anchor: self.anchor,
            tint: self.tint,
            grid: match self.grid {
                Some(grid) => Some(grid@),
                None => None,
            },
        }
    }
}

impl View for Content {
    type V = ContentView;

    open spec fn view(&self) -> ContentView {
        match self {
            Content::Placeholder(text) => ContentView::Placeholder(text@),
            Content::Image(image) => ContentView::Image(image@),
        }
    }
}

/// The centre of the image rectangle.
pub open spec fn centre() -> Point {
    Point { x: Ratio { num: 1, den: 2 }, y: Ratio { num: 1, den: 2 } }
}

impl StateView {
    /// The fill of the whole window: black at the background level.
    pub open spec fn background(self) -> Rgba {
        Rgba::black(self.opacity.background_level() as u8)
    }

    /// The grid over the image: present when the grid is switched on.
    pub open spec fn grid_layer(self) -> Option<GridLayerView> {
        if self.show_grid {
            Some(
                GridLayerView {
                    color: self.grid_color,
                    width: STROKE_WIDTH,
                    segments: grid_lines(self.grid_cols, self.grid_rows),
                },
            )
        } else {
            None
        }
    }

    /// The content: the placeholder while no image is loaded, else the image, turned about
    /// its centre, tinted with the same level on all four channels, under the grid.
    pub open spec fn content(self) -> ContentView {
        match self.image_path {
            Some(path) => ContentView::Image(
                ImageLayerView {
                    uri: file_uri(path),
                    rotation: self.rotation,
                    anchor: centre(),
                    tint: Rgba::uniform(self.opacity.tint_level() as u8),
                    grid: self.grid_layer(),
                },
            ),
            None => ContentView::Placeholder(placeholder()),
        }
    }
}

impl ViewerState {
    /// The fill to paint over the whole window before anything else.
    pub fn background(&self) -> (fill: Rgba)
        ensures
            fill == self@.background(),
    {
        self.opacity().background_fill()
    }

    /// Computes what to show below the toolbar. The state does not change.
    pub fn render(&self) -> (content: Content)
        ensures
            content@ == self@.content(),
    {
        match self.image_path() {
            Some(path) => {
                let grid = if self.show_grid() {
                    Some(
                        GridLayer {
                            color: self.grid_color(),
                            width: STROKE_WIDTH,
                            segments: grid_segments(self.grid_cols(), self.grid_rows()),
                        },
                    )
                } else {
                    None
                };
                let half = Ratio { num: 1, den: 2 };
                Content::Image(
                    ImageLayer {
                        uri: image_uri(path.as_str()),
                        rotation: self.rotation(),
                        anchor: Point { x: half, y: half },
                        tint: self.opacity().image_tint(),
                        grid,
                    },
                )
            },
            None => Content::Placeholder(placeholder_text()),
        }
    }
}

/// A grid is painted exactly when an image is loaded and the grid is switched on, and then
/// with four outline strokes first, one stroke less than columns, and one less than rows.
pub proof fn lemma_grid_strokes(s: StateView)
    requires
        s.valid(),
    ensures
        (s.content() is Image && s.content()->Image_0.grid is Some) <==> (s.image_path is Some
            && s.show_grid),
        s.image_path is Some && s.show_grid ==> {
            let grid = s.content()->Image_0.grid->0;
            &&& grid.color == s.grid_color
            &&& grid.width == 1
            &&& grid.segments.len() == 4 + (s.grid_cols - 1) + (s.grid_rows - 1)
            &&& grid.segments.subrange(0, 4) == outline()
        },
{
    if s.image_path is Some && s.show_grid {
        let grid = s.content()->Image_0.grid->0;
        assert(grid.segments.subrange(0, 4) =~= outline());
    }
}

/// What is shown does not depend on the pin, and while no image is loaded the content is
/// the same whatever the rest of the state holds.
pub proof fn lemma_content_depends_on(s: StateView, t: StateView)
    ensures
        s.toggle_pin().content() == s.content(),
        s.toggle_pin().background() == s.background(),
        s.image_path is None && t.image_path is None ==> s.content() == t.content(),
{
}

} // verus!
