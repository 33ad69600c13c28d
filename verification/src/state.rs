//! The viewer's state and the input events that change it.
//!
//! Each event is a method of [`ViewerState`] whose contract names the matching transition of
//! the mathematical model [`StateView`]. Work that only the host can do (showing a file
//! dialog, reading a file's header, telling the window manager) happens outside: its results
//! come in as arguments, and commands for it go out as return values.

use crate::color::GridColor;
use crate::grid::{clamp_cells, clamped_cells, valid_cells};
use crate::opacity::{Opacity, FULL_BITS};
use vstd::prelude::*;

verus! {

/// Where the window manager keeps the window relative to other windows.
#[derive(Clone, Copy, Debug, PartialEq, Eq, Structural)]
pub enum WindowLevel {
    Normal,
    AlwaysOnTop,
}

/// A file the user chose in the file dialog.
#[derive(Debug)]
pub struct PickedFile {
    /// Path of the chosen file.
    pub path: String,
    /// Width and height in pixels read from the file's header, if that could be read.
    pub size: Option<(u32, u32)>,
}

/// The mathematical model of a [`ViewerState`].
pub struct StateView {
    /// Path of the displayed image, if one is loaded.
    pub image_path: Option<Seq<char>>,
    pub opacity: Opacity,
    /// Rotation of the image about its centre in radians, as a single-precision bit pattern.
    pub rotation: u32,
    pub always_on_top: bool,
    pub show_grid: bool,
    pub grid_cols: u32,
    pub grid_rows: u32,
    pub grid_color: GridColor,
    /// Pixel size of the image most recently probed with success.
    pub image_size: Option<(u32, u32)>,
}

impl StateView {
    /// What every state satisfies: an opacity in range and cell counts in range.
    pub open spec fn valid(self) -> bool {
        &&& self.opacity.valid()
        &&& valid_cells(self.grid_cols)
        &&& valid_cells(self.grid_rows)
    }

    /// Whether this is the state at startup: no image, full opacity, no rotation, not
    /// pinned, and a red four by four grid that is switched off.
    pub open spec fn is_initial(self) -> bool {
        &&& self.image_path is None
        &&& self.opacity.spec_bits() == FULL_BITS
        &&& self.rotation == 0
        &&& !self.always_on_top
        &&& !self.show_grid
        &&& self.grid_cols == 4
        &&& self.grid_rows == 4
        &&& self.grid_color == GridColor::Red
        &&& self.image_size is None
    }

    /// The file dialog closed. A cancelled dialog changes nothing. A chosen file becomes the
    /// displayed image whether or not its size could be read; the size is replaced only by one
    /// that was read.
    pub open spec fn open_file(self, picked: Option<PickedFile>) -> StateView {
        match picked {
            None => self,
            Some(file) => StateView {
                image_path: Some(file.path@),
                image_size: if file.size is Some {
                    file.size
                } else {
                    self.image_size
                },
                ..self
            },
        }
    }

    /// Files were dropped on the window. The first of them, if it has a path, becomes the
    /// displayed image; the recorded size is not touched.
    pub open spec fn drop_files(self, dropped: Seq<Option<String>>) -> StateView {
        if dropped.len() > 0 && dropped[0] is Some {
            StateView { image_path: Some(dropped[0]->0@), ..self }
        } else {
            self
        }
    }

    /// The pin button was pressed.
    pub open spec fn toggle_pin(self) -> StateView {
        StateView { always_on_top: !self.always_on_top, ..self }
    }

    /// The window level that matches the pin.
    pub open spec fn window_level(self) -> WindowLevel {
        if self.always_on_top {
            WindowLevel::AlwaysOnTop
        } else {
            WindowLevel::Normal
        }
    }

    /// The grid button was pressed.
    pub open spec fn toggle_grid(self) -> StateView {
        StateView { show_grid: !self.show_grid, ..self }
    }

    /// The opacity slider moved.
    pub open spec fn set_opacity(self, opacity: Opacity) -> StateView {
        StateView { opacity, ..self }
    }

    /// The image was turned to a new angle.
    pub open spec fn set_rotation(self, bits: u32) -> StateView {
        StateView { rotation: bits, ..self }
    }

    /// The column count was edited.
    pub open spec fn set_grid_cols(self, cols: u32) -> StateView {
        StateView { grid_cols: clamped_cells(cols), ..self }
    }

    /// The row count was edited.
    pub open spec fn set_grid_rows(self, rows: u32) -> StateView {
        StateView { grid_rows: clamped_cells(rows), ..self }
    }

    /// A grid colour was chosen.
    pub open spec fn select_grid_color(self, color: GridColor) -> StateView {
        StateView { grid_color: color, ..self }
    }
}

/// The current configuration of the viewer.
#[derive(Debug)]
pub struct ViewerState {
    image_path: Option<String>,
    opacity: Opacity,
    rotation: u32,
    always_on_top: bool,
    show_grid: bool,
    grid_cols: u32,
    grid_rows: u32,
    grid_color: GridColor,
    image_size: Option<(u32, u32)>,
}

impl View for ViewerState {
    type V = StateView;

    closed spec fn view(&self) -> StateView {
        StateView {
            image_path: match self.image_path {
                Some(path) => Some(path@),
                None => None,
            },
            opacity: self.opacity,
            rotation: self.rotation,
            always_on_top: self.always_on_top,
            show_grid: self.show_grid,
            grid_cols: self.grid_cols,
            grid_rows: self.grid_rows,
            grid_color: self.grid_color,
            image_size: self.image_size,
        }
    }
}

impl Default for ViewerState {
    /// The state at startup.
    fn default() -> (state: ViewerState)
        ensures
            state@.is_initial(),
            state@.valid(),
    {
        ViewerState::new()
    }
}

impl ViewerState {
    #[verifier::type_invariant]
    spec fn well_formed(self) -> bool {
        self@.valid()
    }

    /// The state at startup.
    pub fn new() -> (state: ViewerState)
        ensures
            state@.is_initial(),
            state@.valid(),
    {
        ViewerState {
            image_path: None,
            opacity: Opacity::full(),
            rotation: 0,
            always_on_top: false,
            show_grid: false,
            grid_cols: 4,
            grid_rows: 4,
            grid_color: GridColor::Red,
            image_size: None,
        }
    }

    /// Takes in what the file dialog returned: `None` when the user cancelled it, else the
    /// chosen file together with the outcome of probing its size.
    pub fn open_file(&mut self, picked: Option<PickedFile>)
        ensures
            final(self)@ == old(self)@.open_file(picked),
            final(self)@.valid(),
    {
        proof {
            use_type_invariant(&*self);
        }
        match picked {
            None => {},
            Some(file) => {
                match file.size {
                    Some(size) => {
                        self.image_size = Some(size);
                    },
                    None => {},
                }
                self.image_path = Some(file.path);
            },
        }
    }

    /// Takes in the files dropped on the window in this frame, each with its path if the host
    /// gave one. Only the first is looked at.
    pub fn drop_files(&mut self, dropped: &Vec<Option<String>>)
        ensures
            final(self)@ == old(self)@.drop_files(dropped@),
            final(self)@.image_size == old(self)@.image_size,
            final(self)@.valid(),
    {
        proof {
            use_type_invariant(&*self);
        }
        if dropped.len() > 0 {
            match &dropped[0] {
                Some(path) => {
                    self.image_path = Some(path.clone());
                },
                None => {},
            }
        }
    }

    /// Flips the pin and returns the window level to request from the window manager.
    pub fn toggle_pin(&mut self) -> (level: WindowLevel)
        ensures
            final(self)@ == old(self)@.toggle_pin(),
            level == final(self)@.window_level(),
            final(self)@.valid(),
    {
        proof {
            use_type_invariant(&*self);
        }
        self.always_on_top = !self.always_on_top;
        self.window_level()
    }

    /// Switches the grid overlay on or off.
    pub fn toggle_grid(&mut self)
        ensures
            final(self)@ == old(self)@.toggle_grid(),
            final(self)@.valid(),
    {
        proof {
            use_type_invariant(&*self);
        }
        self.show_grid = !self.show_grid;
    }

    /// Sets the opacity.
    pub fn set_opacity(&mut self, opacity: Opacity)
        ensures
            final(self)@ == old(self)@.set_opacity(opacity),
            final(self)@.valid(),
    {
        proof {
            use_type_invariant(&*self);
            use_type_invariant(&opacity);
        }
        self.opacity = opacity;
    }

    /// Sets the rotation to the angle with the given single-precision bit pattern. Every
    /// pattern is kept as it is: angles are not reduced to a range.
    pub fn set_rotation(&mut self, bits: u32)
        ensures
            final(self)@ == old(self)@.set_rotation(bits),
            final(self)@.rotation == bits,
            final(self)@.valid(),
    {
        proof {
            use_type_invariant(&*self);
        }
        self.rotation = bits;
    }

    /// Sets the number of grid columns, brought into the accepted range.
    pub fn set_grid_cols(&mut self, cols: u32)
        ensures
            final(self)@ == old(self)@.set_grid_cols(cols),
            final(self)@.valid(),
    {
        proof {
            use_type_invariant(&*self);
        }
        self.grid_cols = clamp_cells(cols);
    }

    /// Sets the number of grid rows, brought into the accepted range.
    pub fn set_grid_rows(&mut self, rows: u32)
        ensures
            final(self)@ == old(self)@.set_grid_rows(rows),
            final(self)@.valid(),
    {
        proof {
            use_type_invariant(&*self);
        }
        self.grid_rows = clamp_cells(rows);
    }

    /// Chooses the grid colour. Nothing else changes.
    pub fn select_grid_color(&mut self, color: GridColor)
        ensures
            final(self)@ == old(self)@.select_grid_color(color),
            final(self)@.grid_cols == old(self)@.grid_cols,
            final(self)@.grid_rows == old(self)@.grid_rows,
            final(self)@.show_grid == old(self)@.show_grid,
            final(self)@.opacity == old(self)@.opacity,
            final(self)@.valid(),
    {
        proof {
            use_type_invariant(&*self);
        }
        self.grid_color = color;
    }

    /// Path of the displayed image, if one is loaded.
    pub fn image_path(&self) -> (path: Option<&String>)
        ensures
            path is Some <==> self@.image_path is Some,
            path matches Some(p) ==> self@.image_path == Some(p@),
    {
        self.image_path.as_ref()
    }

    /// The opacity.
    pub fn opacity(&self) -> (opacity: Opacity)
        ensures
            opacity == self@.opacity,
            opacity.valid(),
    {
        proof {
            use_type_invariant(self);
        }
        self.opacity
    }

    /// Bit pattern of the rotation angle.
    pub fn rotation(&self) -> (bits: u32)
        ensures
            bits == self@.rotation,
    {
        self.rotation
    }

    /// Whether the window is pinned above other windows.
    pub fn always_on_top(&self) -> (pinned: bool)
        ensures
            pinned == self@.always_on_top,
    {
        self.always_on_top
    }

    /// The window level that matches the pin.
    pub fn window_level(&self) -> (level: WindowLevel)
        ensures
            level == self@.window_level(),
    {
        if self.always_on_top {
            WindowLevel::AlwaysOnTop
        } else {
            WindowLevel::Normal
        }
    }

    /// Whether the grid overlay is switched on.
    pub fn show_grid(&self) -> (shown: bool)
        ensures
            shown == self@.show_grid,
    {
        self.show_grid
    }

    /// Number of grid columns.
    pub fn grid_cols(&self) -> (cols: u32)
        ensures
            cols == self@.grid_cols,
            valid_cells(cols),
    {
        proof {
            use_type_invariant(self);
        }
        self.grid_cols
    }

    /// Number of grid rows.
    pub fn grid_rows(&self) -> (rows: u32)
        ensures
            rows == self@.grid_rows,
            valid_cells(rows),
    {
        proof {
            use_type_invariant(self);
        }
        self.grid_rows
    }

    /// The grid colour.
    pub fn grid_color(&self) -> (color: GridColor)
        ensures
            color == self@.grid_color,
    {
        self.grid_color
    }

    /// Pixel size of the image most recently probed with success.
    pub fn image_size(&self) -> (size: Option<(u32, u32)>)
        ensures
            size == self@.image_size,
    {
        self.image_size
    }
}

/// Pressing the pin button twice restores the state, and the two window levels requested
/// are first the opposite of the level the window had, then that level again.
pub proof fn lemma_toggle_pin_twice(s: StateView)
    ensures
        s.toggle_pin().toggle_pin() == s,
        s.toggle_pin().window_level() != s.window_level(),
        s.toggle_pin().toggle_pin().window_level() == s.window_level(),
{
}

/// Pressing the grid button twice restores the state.
pub proof fn lemma_toggle_grid_twice(s: StateView)
    ensures
        s.toggle_grid().toggle_grid() == s,
{
}

/// Choosing a grid colour changes the grid colour and nothing else.
pub proof fn lemma_select_grid_color_only(s: StateView, color: GridColor)
    ensures
        s.select_grid_color(color).grid_color == color,
        s.select_grid_color(color) == (StateView { grid_color: color, ..s }),
        s.select_grid_color(s.grid_color) == s,
{
}

/// A rotation that was set is read back bit for bit.
pub proof fn lemma_rotation_round_trip(s: StateView, bits: u32)
    ensures
        s.set_rotation(bits).rotation == bits,
        s.set_rotation(bits).set_rotation(s.rotation) == s,
{
}

/// Every transition keeps a valid state valid.
pub proof fn lemma_transitions_keep_valid(s: StateView)
    requires
        s.valid(),
    ensures
        forall|picked: Option<PickedFile>| #[trigger] s.open_file(picked).valid(),
        forall|dropped: Seq<Option<String>>| #[trigger] s.drop_files(dropped).valid(),
        s.toggle_pin().valid(),
        s.toggle_grid().valid(),
        forall|opacity: Opacity| opacity.valid() ==> #[trigger] s.set_opacity(opacity).valid(),
        forall|bits: u32| #[trigger] s.set_rotation(bits).valid(),
        forall|n: u32| #[trigger] s.set_grid_cols(n).valid(),
        forall|n: u32| #[trigger] s.set_grid_rows(n).valid(),
        forall|color: GridColor| #[trigger] s.select_grid_color(color).valid(),
{
}

} // verus!
