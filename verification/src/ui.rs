//! Display settings shared by the viewers: view modes, colormaps,
//! projections, range modes and the persistent UI state.
use vstd::prelude::*;

use crate::export::ExportSettings;
use crate::numeric::F32Bits;

verus! {

/// View mode for the viewport.
#[derive(Debug, Clone, Copy, PartialEq, Eq, Structural)]
pub enum ViewMode {
    Globe,
    MapView,
    Hovmoller,
    Spectrum,
    CrossSection,
    Profile,
}

/// Profile view mode.
#[derive(Debug, Clone, Copy, PartialEq, Eq, Structural)]
pub enum ProfileMode {
    Vertical,
    TimeSeries,
}

/// Colormap selection.
#[derive(Debug, Clone, Copy, PartialEq, Eq, Hash, Structural)]
pub enum Colormap {
    Viridis,
    Plasma,
    Inferno,
    Magma,
    Cividis,
    Turbo,
    RdBuR,
    Coolwarm,
    Spectral,
    BrBG,
}

/// Map projection of the Map view.
#[derive(Debug, Clone, Copy, PartialEq, Eq, Structural)]
pub enum MapProjection {
    Equirectangular,
    Mollweide,
    PolarNorth,
    PolarSouth,
}

/// Range mode for colormap scaling.
#[derive(Debug, Clone, Copy, PartialEq, Eq, Structural)]
pub enum RangeMode {
    /// Auto-scale from the currently displayed slice.
    Slice,
    /// Auto-scale from the global min/max across all time steps and levels.
    Global,
    /// User-specified fixed min/max.
    Manual,
}

/// Tab types for the dock layout.
#[derive(Debug, Clone, Copy, PartialEq, Eq, Structural)]
pub enum Tab {
    DataBrowser,
    Viewport,
    Inspector,
    CodePanel,
}

/// Which axis a cross-section holds fixed.
#[derive(Debug, Clone, Copy, PartialEq, Eq, Structural)]
pub enum CrossSectionAxis {
    Latitude,
    Longitude,
}

impl Default for ViewMode {
    fn default() -> (r: Self)
        ensures
            r == ViewMode::Globe,
    {
        ViewMode::Globe
    }
}

impl Default for ProfileMode {
    fn default() -> (r: Self)
        ensures
            r == ProfileMode::Vertical,
    {
        ProfileMode::Vertical
    }
}

impl Default for Colormap {
    fn default() -> (r: Self)
        ensures
            r == Colormap::Viridis,
    {
        Colormap::Viridis
    }
}

impl Default for MapProjection {
    fn default() -> (r: Self)
        ensures
            r == MapProjection::Equirectangular,
    {
        MapProjection::Equirectangular
    }
}

impl Default for RangeMode {
    fn default() -> (r: Self)
        ensures
            r == RangeMode::Slice,
    {
        RangeMode::Slice
    }
}

impl Default for CrossSectionAxis {
    fn default() -> (r: Self)
        ensures
            r == CrossSectionAxis::Latitude,
    {
        CrossSectionAxis::Latitude
    }
}

// ---------------------------------------------------------------------------
// Names
// ---------------------------------------------------------------------------

/// The display label of a colormap.
pub open spec fn colormap_label(c: Colormap) -> Seq<char> {
    match c {
        Colormap::Viridis => "Viridis"@,
        Colormap::Plasma => "Plasma"@,
        Colormap::Inferno => "Inferno"@,
        Colormap::Magma => "Magma"@,
        Colormap::Cividis => "Cividis"@,
        Colormap::Turbo => "Turbo"@,
        Colormap::RdBuR => "RdBu_r"@,
        Colormap::Coolwarm => "Coolwarm"@,
        Colormap::Spectral => "Spectral"@,
        Colormap::BrBG => "BrBG"@,
    }
}

/// The one-line description of a colormap.
pub open spec fn colormap_description(c: Colormap) -> Seq<char> {
    match c {
        Colormap::Viridis => "sequential, perceptual"@,
        Colormap::Plasma => "sequential, perceptual"@,
        Colormap::Inferno => "sequential, perceptual"@,
        Colormap::Magma => "sequential, perceptual"@,
        Colormap::Cividis => "sequential, colorblind-safe"@,
        Colormap::Turbo => "sequential, rainbow"@,
        Colormap::RdBuR => "diverging, 0-centered"@,
        Colormap::Coolwarm => "diverging, 0-centered"@,
        Colormap::Spectral => "diverging, multicolor"@,
        Colormap::BrBG => "diverging, 0-centered"@,
    }
}

/// The variant name of a colormap, as `{:?}` prints it.
pub open spec fn colormap_debug(c: Colormap) -> Seq<char> {
    match c {
        Colormap::Viridis => "Viridis"@,
        Colormap::Plasma => "Plasma"@,
        Colormap::Inferno => "Inferno"@,
        Colormap::Magma => "Magma"@,
        Colormap::Cividis => "Cividis"@,
        Colormap::Turbo => "Turbo"@,
        Colormap::RdBuR => "RdBuR"@,
        Colormap::Coolwarm => "Coolwarm"@,
        Colormap::Spectral => "Spectral"@,
        Colormap::BrBG => "BrBG"@,
    }
}

/// The sequential colormaps, in menu order.
pub open spec fn sequential_colormaps() -> Seq<Colormap> {
    seq![
        Colormap::Viridis,
        Colormap::Plasma,
        Colormap::Inferno,
        Colormap::Magma,
        Colormap::Cividis,
        Colormap::Turbo,
    ]
}

/// The diverging colormaps, in menu order.
pub open spec fn diverging_colormaps() -> Seq<Colormap> {
    seq![Colormap::RdBuR, Colormap::Coolwarm, Colormap::Spectral, Colormap::BrBG]
}

impl Colormap {
    pub fn label(&self) -> (r: &'static str)
        ensures
            r@ == colormap_label(*self),
    {
        match self {
            Colormap::Viridis => "Viridis",
            Colormap::Plasma => "Plasma",
            Colormap::Inferno => "Inferno",
            Colormap::Magma => "Magma",
            Colormap::Cividis => "Cividis",
            Colormap::Turbo => "Turbo",
            Colormap::RdBuR => "RdBu_r",
            Colormap::Coolwarm => "Coolwarm",
            Colormap::Spectral => "Spectral",
            Colormap::BrBG => "BrBG",
        }
    }

    pub fn description(&self) -> (r: &'static str)
        ensures
            r@ == colormap_description(*self),
    {
        match self {
            Colormap::Viridis => "sequential, perceptual",
            Colormap::Plasma => "sequential, perceptual",
            Colormap::Inferno => "sequential, perceptual",
            Colormap::Magma => "sequential, perceptual",
            Colormap::Cividis => "sequential, colorblind-safe",
            Colormap::Turbo => "sequential, rainbow",
            Colormap::RdBuR => "diverging, 0-centered",
            Colormap::Coolwarm => "diverging, 0-centered",
            Colormap::Spectral => "diverging, multicolor",
            Colormap::BrBG => "diverging, 0-centered",
        }
    }

    /// The variant name, as `{:?}` prints it.
    pub fn debug_name(&self) -> (r: &'static str)
        ensures
            r@ == colormap_debug(*self),
    {
        match self {
            Colormap::Viridis => "Viridis",
            Colormap::Plasma => "Plasma",
            Colormap::Inferno => "Inferno",
            Colormap::Magma => "Magma",
            Colormap::Cividis => "Cividis",
            Colormap::Turbo => "Turbo",
            Colormap::RdBuR => "RdBuR",
            Colormap::Coolwarm => "Coolwarm",
            Colormap::Spectral => "Spectral",
            Colormap::BrBG => "BrBG",
        }
    }

    /// The sequential colormaps, in menu order.
    pub fn sequential() -> (r: Vec<Colormap>)
        ensures
            r@ == sequential_colormaps(),
    {
        vec![
            Colormap::Viridis,
            Colormap::Plasma,
            Colormap::Inferno,
            Colormap::Magma,
            Colormap::Cividis,
            Colormap::Turbo,
        ]
    }

    /// The diverging colormaps, in menu order.
    pub fn diverging() -> (r: Vec<Colormap>)
        ensures
            r@ == diverging_colormaps(),
    {
        vec![Colormap::RdBuR, Colormap::Coolwarm, Colormap::Spectral, Colormap::BrBG]
    }
}

/// The variant name of a view mode, as `{:?}` prints it.
pub open spec fn view_mode_debug(v: ViewMode) -> Seq<char> {
    match v {
        ViewMode::Globe => "Globe"@,
        ViewMode::MapView => "Map"@,
        ViewMode::Hovmoller => "Hovmoller"@,
        ViewMode::Spectrum => "Spectrum"@,
        ViewMode::CrossSection => "CrossSection"@,
        ViewMode::Profile => "Profile"@,
    }
}

impl ViewMode {
    /// The variant name, as `{:?}` prints it.
    pub fn debug_name(&self) -> (r: &'static str)
        ensures
            r@ == view_mode_debug(*self),
    {
        match self {
            ViewMode::Globe => "Globe",
            ViewMode::MapView => "Map",
            ViewMode::Hovmoller => "Hovmoller",
            ViewMode::Spectrum => "Spectrum",
            ViewMode::CrossSection => "CrossSection",
            ViewMode::Profile => "Profile",
        }
    }
}

/// The variant name of a projection, as `{:?}` prints it.
pub open spec fn projection_debug(p: MapProjection) -> Seq<char> {
    match p {
        MapProjection::Equirectangular => "Equirectangular"@,
        MapProjection::Mollweide => "Mollweide"@,
        MapProjection::PolarNorth => "PolarNorth"@,
        MapProjection::PolarSouth => "PolarSouth"@,
    }
}

impl MapProjection {
    /// The variant name, as `{:?}` prints it.
    pub fn debug_name(&self) -> (r: &'static str)
        ensures
            r@ == projection_debug(*self),
    {
        match self {
            MapProjection::Equirectangular => "Equirectangular",
            MapProjection::Mollweide => "Mollweide",
            MapProjection::PolarNorth => "PolarNorth",
            MapProjection::PolarSouth => "PolarSouth",
        }
    }
}

/// The variant name of a range mode, as `{:?}` prints it.
pub open spec fn range_mode_debug(m: RangeMode) -> Seq<char> {
    match m {
        RangeMode::Slice => "Slice"@,
        RangeMode::Global => "Global"@,
        RangeMode::Manual => "Manual"@,
    }
}

impl RangeMode {
    /// The variant name, as `{:?}` prints it.
    pub fn debug_name(&self) -> (r: &'static str)
        ensures
            r@ == range_mode_debug(*self),
    {
        match self {
            RangeMode::Slice => "Slice",
            RangeMode::Global => "Global",
            RangeMode::Manual => "Manual",
        }
    }
}

/// The title of a dock tab.
pub open spec fn tab_title(t: Tab) -> Seq<char> {
    match t {
        Tab::DataBrowser => "Data"@,
        Tab::Viewport => "Globe"@,
        Tab::Inspector => "Inspector"@,
        Tab::CodePanel => "Code"@,
    }
}

impl Tab {
    /// The title shown on the tab.
    pub fn title(&self) -> (r: &'static str)
        ensures
            r@ == tab_title(*self),
    {
        match self {
            Tab::DataBrowser => "Data",
            Tab::Viewport => "Globe",
            Tab::Inspector => "Inspector",
            Tab::CodePanel => "Code",
        }
    }
}

// ---------------------------------------------------------------------------
// Persistent UI state
// ---------------------------------------------------------------------------

/// Persistent UI state.  Values that only the renderers compute with
/// (camera, hover position, play speed) stay with the viewer; the
/// manual range bounds are carried here by their `f32` bit patterns.
#[derive(Debug, Clone)]
pub struct UiState {
    pub view_mode: ViewMode,
    pub colormap: Colormap,
    pub time_index: usize,
    pub status_text: String,
    pub playing: bool,
    /// When true, use bilinear interpolation for field data; otherwise nearest-neighbor.
    pub interpolated: bool,
    pub map_projection: MapProjection,
    pub cross_section_axis: CrossSectionAxis,
    pub cross_section_idx: usize,
    pub level_index: usize,
    pub vector_overlay_enabled: bool,
    pub vector_u_var: Option<usize>,
    pub vector_v_var: Option<usize>,
    pub vector_density: usize,
    pub range_mode: RangeMode,
    pub manual_min: F32Bits,
    pub manual_max: F32Bits,
    pub export_dialog_open: bool,
    pub export_settings: ExportSettings,
    /// (lon_idx, lat_idx)
    pub profile_point: Option<(usize, usize)>,
    pub profile_mode: ProfileMode,
    pub zonal_mean_enabled: bool,
    pub contour_enabled: bool,
    pub contour_levels: usize,
    pub streamline_enabled: bool,
    pub trajectory_enabled: bool,
    pub trajectory_lon_var: Option<usize>,
    pub trajectory_lat_var: Option<usize>,
    pub trajectory_trail_length: usize,
    pub suggestion_dismissed: bool,
    pub wavenumber_filter_enabled: bool,
    pub wavenumber_cutoff: usize,
}

/// The bit pattern of the `f32` value 1.0.
pub const ONE_F32_BITS: u32 = 1065353216;

impl Default for UiState {
    fn default() -> (r: Self)
        ensures
            r.view_mode == ViewMode::Globe,
            r.colormap == Colormap::Viridis,
            r.time_index == 0,
            r.status_text@ == "Ready"@,
            !r.playing,
            r.interpolated,
            r.map_projection == MapProjection::Equirectangular,
            r.cross_section_axis == CrossSectionAxis::Latitude,
            r.cross_section_idx == 0,
            r.level_index == 0,
            !r.vector_overlay_enabled,
            r.vector_u_var is None,
            r.vector_v_var is None,
            r.vector_density == 8,
            r.range_mode == RangeMode::Slice,
            r.manual_min == F32Bits(0),
            r.manual_max == F32Bits(ONE_F32_BITS),
            !r.export_dialog_open,
            r.export_settings.scale == 2,
            r.export_settings.colorbar,
            r.export_settings.title@.len() == 0,
            r.export_settings.format == crate::export::ExportFormat::Png,
            r.export_settings.gif_fps == 10,
            !r.export_settings.publication,
            r.profile_point is None,
            r.profile_mode == ProfileMode::Vertical,
            !r.zonal_mean_enabled,
            !r.contour_enabled,
            r.contour_levels == 10,
            !r.streamline_enabled,
            !r.trajectory_enabled,
            r.trajectory_lon_var is None,
            r.trajectory_lat_var is None,
            r.trajectory_trail_length == 500,
            !r.suggestion_dismissed,
            !r.wavenumber_filter_enabled,
            r.wavenumber_cutoff == 0,
    {
        UiState {
            view_mode: ViewMode::Globe,
            colormap: Colormap::Viridis,
            time_index: 0,
            status_text: "Ready".to_string(),
            playing: false,
            interpolated: true,
            map_projection: MapProjection::Equirectangular,
            cross_section_axis: CrossSectionAxis::Latitude,
            cross_section_idx: 0,
            level_index: 0,
            vector_overlay_enabled: false,
            vector_u_var: None,
            vector_v_var: None,
            vector_density: 8,
            range_mode: RangeMode::Slice,
            manual_min: F32Bits(0),
            manual_max: F32Bits(ONE_F32_BITS),
            export_dialog_open: false,
            export_settings: ExportSettings::default(),
            profile_point: None,
            profile_mode: ProfileMode::Vertical,
            zonal_mean_enabled: false,
            contour_enabled: false,
            contour_levels: 10,
            streamline_enabled: false,
            trajectory_enabled: false,
            trajectory_lon_var: None,
            trajectory_lat_var: None,
            trajectory_trail_length: 500,
            suggestion_dismissed: false,
            wavenumber_filter_enabled: false,
            wavenumber_cutoff: 0,
        }
    }
}

} // verus!
