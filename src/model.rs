use vstd::prelude::*;

verus! {

/// A 64-bit floating-point value, held as its IEEE-754 bit pattern.
#[derive(Clone, Copy, Debug, PartialEq, Eq, Structural)]
pub struct FloatBits {
    pub bits: u64,
}

/// The kind of a shape, fixed when the shape is made.
#[derive(Clone, Copy, Debug, PartialEq, Eq, Structural)]
pub enum ShapeType {
    Rectangle,
    Circle,
    Diamond,
    Text,
}

/// A positioned, styled visual element of a diagram.
#[derive(Debug, PartialEq)]
pub struct Shape {
    pub id: String,
    pub shape_type: ShapeType,
    pub x: FloatBits,
    pub y: FloatBits,
    pub width: FloatBits,
    pub height: FloatBits,
    pub rotation: FloatBits,
    pub fill: String,
    pub stroke: String,
    pub stroke_width: FloatBits,
    pub text: Option<String>,
}

/// A directed link from one shape to another, by shape id.
#[derive(Debug, PartialEq)]
pub struct Connector {
    pub id: String,
    pub from_shape_id: String,
    pub to_shape_id: String,
    pub from_anchor: String,
    pub to_anchor: String,
    pub stroke: String,
    pub stroke_width: FloatBits,
}

/// Diagram-wide presentation settings.
#[derive(Debug, PartialEq)]
pub struct DiagramSettings {
    pub background_color: String,
    pub grid_enabled: bool,
    pub snap_to_grid: bool,
    pub grid_size: FloatBits,
}

/// Why an operation on a diagram was refused.
#[derive(Clone, Copy, Debug, PartialEq, Eq, Structural)]
pub enum DiagramError {
    /// An external representation does not match the schema.
    MalformedInput,
    /// No shape or connector has the given id.
    NotFound,
}

fn copy_text(t: &Option<String>) -> (r: Option<String>)
    ensures
        r == *t,
{
    match t {
        Some(s) => Some(s.clone()),
        None => None,
    }
}

impl Clone for Shape {
    fn clone(&self) -> (r: Self)
        ensures
            r == *self,
    {
        Shape {
            id: self.id.clone(),
            shape_type: self.shape_type,
            x: self.x,
            y: self.y,
            width: self.width,
            height: self.height,
            rotation: self.rotation,
            fill: self.fill.clone(),
            stroke: self.stroke.clone(),
            stroke_width: self.stroke_width,
            text: copy_text(&self.text),
        }
    }
}

impl Clone for Connector {
    fn clone(&self) -> (r: Self)
        ensures
            r == *self,
    {
        Connector {
            id: self.id.clone(),
            from_shape_id: self.from_shape_id.clone(),
            to_shape_id: self.to_shape_id.clone(),
            from_anchor: self.from_anchor.clone(),
            to_anchor: self.to_anchor.clone(),
            stroke: self.stroke.clone(),
            stroke_width: self.stroke_width,
        }
    }
}

impl Clone for DiagramSettings {
    fn clone(&self) -> (r: Self)
        ensures
            r == *self,
    {
        DiagramSettings {
            background_color: self.background_color.clone(),
            grid_enabled: self.grid_enabled,
            snap_to_grid: self.snap_to_grid,
            grid_size: self.grid_size,
        }
    }
}

/// The whole document: its identity, its shapes in z-order (later entries
/// are drawn on top), its connectors, its settings and two timestamps.
#[derive(Debug, PartialEq)]
pub struct Diagram {
    pub id: String,
    pub name: String,
    pub shapes: Vec<Shape>,
    pub connectors: Vec<Connector>,
    pub settings: DiagramSettings,
    pub created_at: String,
    pub updated_at: String,
}

/// The mathematical value of a `Diagram`.
pub struct DiagramModel {
    pub id: Seq<char>,
    pub name: Seq<char>,
    pub shapes: Seq<Shape>,
    pub connectors: Seq<Connector>,
    pub settings: DiagramSettings,
    pub created_at: Seq<char>,
    pub updated_at: Seq<char>,
}

impl View for Diagram {
    type V = DiagramModel;

    open spec fn view(&self) -> DiagramModel {
        DiagramModel {
            id: self.id@,
            name: self.name@,
            shapes: self.shapes@,
            connectors: self.connectors@,
            settings: self.settings,
            created_at: self.created_at@,
            updated_at: self.updated_at@,
        }
    }
}

/// Bit pattern of the grid size a new diagram starts with (20.0).
pub const DEFAULT_GRID_SIZE_BITS: u64 = 0x4034_0000_0000_0000;

/// The settings a new diagram starts with: white background, grid shown,
/// snapping on, grid size 20.
pub open spec fn is_default_settings(s: DiagramSettings) -> bool {
    &&& s.background_color@ == "#ffffff"@
    &&& s.grid_enabled
    &&& s.snap_to_grid
    &&& s.grid_size.bits == DEFAULT_GRID_SIZE_BITS
}

impl Default for DiagramSettings {
    fn default() -> (r: Self)
        ensures
            is_default_settings(r),
    {
        DiagramSettings {
            background_color: "#ffffff".to_owned(),
            grid_enabled: true,
            snap_to_grid: true,
            grid_size: FloatBits { bits: DEFAULT_GRID_SIZE_BITS },
        }
    }
}

/// The shape kind that an external name denotes, if any.
pub open spec fn shape_type_named(name: Seq<char>) -> Option<ShapeType> {
    if name == "rectangle"@ {
        Some(ShapeType::Rectangle)
    } else if name == "circle"@ {
        Some(ShapeType::Circle)
    } else if name == "diamond"@ {
        Some(ShapeType::Diamond)
    } else if name == "text"@ {
        Some(ShapeType::Text)
    } else {
        None
    }
}

impl ShapeType {
    /// Reads a shape kind from its external name ("rectangle", "circle",
    /// "diamond" or "text").
    pub fn from_name(name: &str) -> (r: Option<ShapeType>)
        ensures
            r == shape_type_named(name@),
    {
        let n = name.to_owned();
        if n == "rectangle".to_owned() {
            Some(ShapeType::Rectangle)
        } else if n == "circle".to_owned() {
            Some(ShapeType::Circle)
        } else if n == "diamond".to_owned() {
            Some(ShapeType::Diamond)
        } else if n == "text".to_owned() {
            Some(ShapeType::Text)
        } else {
            None
        }
    }
}

/// A sparse update of a shape: each field that is present overwrites the
/// shape's field, each absent one leaves it as it was. The id and the kind
/// of a shape cannot be patched.
#[derive(Debug, PartialEq)]
pub struct ShapePatch {
    pub x: Option<FloatBits>,
    pub y: Option<FloatBits>,
    pub width: Option<FloatBits>,
    pub height: Option<FloatBits>,
    pub rotation: Option<FloatBits>,
    pub fill: Option<String>,
    pub stroke: Option<String>,
    pub stroke_width: Option<FloatBits>,
    pub text: Option<String>,
}

pub open spec fn or_keep<T>(update: Option<T>, current: T) -> T {
    match update {
        Some(v) => v,
        None => current,
    }
}

impl ShapePatch {
    /// The patch that changes nothing.
    pub fn empty() -> (r: ShapePatch)
        ensures
            r.is_empty(),
    {
        ShapePatch {
            x: None,
            y: None,
            width: None,
            height: None,
            rotation: None,
            fill: None,
            stroke: None,
            stroke_width: None,
            text: None,
        }
    }

    pub open spec fn is_empty(self) -> bool {
        &&& self.x is None
        &&& self.y is None
        &&& self.width is None
        &&& self.height is None
        &&& self.rotation is None
        &&& self.fill is None
        &&& self.stroke is None
        &&& self.stroke_width is None
        &&& self.text is None
    }

    /// The shape `s` with this patch applied.
    pub open spec fn applied(self, s: Shape) -> Shape {
        Shape {
            id: s.id,
            shape_type: s.shape_type,
            x: or_keep(self.x, s.x),
            y: or_keep(self.y, s.y),
            width: or_keep(self.width, s.width),
            height: or_keep(self.height, s.height),
            rotation: or_keep(self.rotation, s.rotation),
            fill: or_keep(self.fill, s.fill),
            stroke: or_keep(self.stroke, s.stroke),
            stroke_width: or_keep(self.stroke_width, s.stroke_width),
            text: match self.text {
                Some(t) => Some(t),
                None => s.text,
            },
        }
    }

    pub fn apply_to(self, s: Shape) -> (r: Shape)
        ensures
            r == self.applied(s),
    {
        let text = match self.text {
            Some(t) => Some(t),
            None => s.text,
        };
        Shape {
            id: s.id,
            shape_type: s.shape_type,
            x: take_or(self.x, s.x),
            y: take_or(self.y, s.y),
            width: take_or(self.width, s.width),
            height: take_or(self.height, s.height),
            rotation: take_or(self.rotation, s.rotation),
            fill: take_or(self.fill, s.fill),
            stroke: take_or(self.stroke, s.stroke),
            stroke_width: take_or(self.stroke_width, s.stroke_width),
            text,
        }
    }
}

fn take_or<T>(update: Option<T>, current: T) -> (r: T)
    ensures
        r == or_keep(update, current),
{
    match update {
        Some(v) => v,
        None => current,
    }
}

} // verus!
