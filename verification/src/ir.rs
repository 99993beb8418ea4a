//! The layout commands a markdown document compiles to, and their models.
//! Names and strings are kept as written; numbers and colours are kept as
//! their literal text.
use vstd::prelude::*;

verus! {

/// A value written in the layout (`Static`) or the name of a binding that
/// supplies it when the layout runs (`Dynamic`).
#[derive(Clone, Debug, PartialEq)]
pub enum DataSrc<T> {
    Static(T),
    Dynamic(String),
}

/// The model of a [`DataSrc`].
pub enum DataSrcV<V> {
    Static(V),
    Dynamic(Seq<char>),
}

impl<T: DeepView> DeepView for DataSrc<T> {
    type V = DataSrcV<T::V>;

    open spec fn deep_view(&self) -> DataSrcV<T::V> {
        match self {
            DataSrc::Static(v) => DataSrcV::Static(v.deep_view()),
            DataSrc::Dynamic(n) => DataSrcV::Dynamic(n@),
        }
    }
}

/// A static number: a decimal literal as written (an `f32` literal by
/// [`is_float_literal`](crate::args::is_float_literal)), or the value of entry `id` of the
/// compile-time `calc` table, which the caller folds in afterwards.
#[derive(Clone, Debug, PartialEq)]
pub enum Number {
    Literal(String),
    Pending(usize),
}

/// The model of a [`Number`].
pub enum NumberV {
    Literal(Seq<char>),
    Pending(usize),
}

impl DeepView for Number {
    type V = NumberV;

    open spec fn deep_view(&self) -> NumberV {
        match self {
            Number::Literal(a0) => NumberV::Literal(a0.deep_view()),
            Number::Pending(a0) => NumberV::Pending(a0.deep_view()),
        }
    }
}

/// An image written inline: an atlas name and a `[u1, v1, u2, v2]` rectangle,
/// each coordinate a decimal literal.
#[derive(Clone, Debug, PartialEq)]
pub struct ImageDescriptor {
    pub atlas: String,
    pub u1: String,
    pub v1: String,
    pub u2: String,
    pub v2: String,
}

/// The model of a [`ImageDescriptor`].
pub struct ImageDescriptorV {
    pub atlas: Seq<char>,
    pub u1: Seq<char>,
    pub v1: Seq<char>,
    pub u2: Seq<char>,
    pub v2: Seq<char>,
}

impl DeepView for ImageDescriptor {
    type V = ImageDescriptorV;

    open spec fn deep_view(&self) -> ImageDescriptorV {
        ImageDescriptorV {
            atlas: self.atlas.deep_view(),
            u1: self.u1.deep_view(),
            v1: self.v1.deep_view(),
            u2: self.u2.deep_view(),
            v2: self.v2.deep_view(),
        }
    }
}

/// The value of a `set-*` declaration. A colour is its literal text, checked
/// against the colour grammar where it is used.
#[derive(Clone, Debug, PartialEq)]
pub enum Declaration {
    Bool(bool),
    Numeric(Number),
    Text(String),
    Color(String),
    Event(String),
    Image(ImageDescriptor),
}

/// The model of a [`Declaration`].
pub enum DeclarationV {
    Bool(bool),
    Numeric(NumberV),
    Text(Seq<char>),
    Color(Seq<char>),
    Event(Seq<char>),
    Image(ImageDescriptorV),
}

impl DeepView for Declaration {
    type V = DeclarationV;

    open spec fn deep_view(&self) -> DeclarationV {
        match self {
            Declaration::Bool(a0) => DeclarationV::Bool(a0.deep_view()),
            Declaration::Numeric(a0) => DeclarationV::Numeric(a0.deep_view()),
            Declaration::Text(a0) => DeclarationV::Text(a0.deep_view()),
            Declaration::Color(a0) => DeclarationV::Color(a0.deep_view()),
            Declaration::Event(a0) => DeclarationV::Event(a0.deep_view()),
            Declaration::Image(a0) => DeclarationV::Image(a0.deep_view()),
        }
    }
}

/// The mouse cursor a `pointer` config selects.
#[derive(Clone, Debug, PartialEq, Copy, Eq)]
pub enum CursorIcon {
    Default,
    EwResize,
}

impl DeepView for CursorIcon {
    type V = CursorIcon;

    open spec fn deep_view(&self) -> CursorIcon {
        *self
    }
}

/// A structural layout command: an element, a scope or an event gate opening
/// or closing.
#[derive(Clone, Debug, PartialEq)]
pub enum Element {
    ElementOpened { id: Option<DataSrc<String>> },
    ElementClosed,
    TextElementOpened,
    TextElementClosed(DataSrc<String>),
    ConfigOpened,
    ConfigClosed,
    TextConfigOpened,
    TextConfigClosed,
    ListOpened,
    ListClosed(String),
    ItemOpened,
    ItemClosed { list: String, index: DataSrc<String> },
    UseOpened,
    UseClosed(String),
    FunctionCall(String),
    IfOpened { condition: String },
    IfNotOpened { condition: String },
    IfClosed,
    IfIndexOpened { index: DataSrc<String> },
    IfIndexNotOpened { index: DataSrc<String> },
    Pointer(CursorIcon),
    HoverOpened { event: Option<DataSrc<String>> },
    HoverClosed,
    HoveredOpened { event: Option<DataSrc<String>> },
    HoveredClosed,
    UnHoveredOpened { event: Option<DataSrc<String>> },
    UnHoveredClosed,
    FocusOpened { event: Option<DataSrc<String>> },
    FocusClosed,
    FocusedOpened { event: Option<DataSrc<String>> },
    FocusedClosed,
    UnFocusedOpened { event: Option<DataSrc<String>> },
    UnFocusedClosed,
    LeftPressedOpened { event: Option<DataSrc<String>> },
    LeftPressedClosed,
    LeftDownOpened { event: Option<DataSrc<String>> },
    LeftDownClosed,
    LeftReleasedOpened { event: Option<DataSrc<String>> },
    LeftReleasedClosed,
    LeftClickedOpened { event: Option<DataSrc<String>> },
    LeftClickedClosed,
    LeftDoubleClickedOpened { event: Option<DataSrc<String>> },
    LeftDoubleClickedClosed,
    LeftTripleClickedOpened { event: Option<DataSrc<String>> },
    LeftTripleClickedClosed,
    KeyEventOpened { event: Option<DataSrc<String>> },
    KeyEventClosed,
    RightPressedOpened { event: Option<DataSrc<String>> },
    RightPressedClosed,
    RightDownOpened { event: Option<DataSrc<String>> },
    RightDownClosed,
    RightReleasedOpened { event: Option<DataSrc<String>> },
    RightReleasedClosed,
    RightClickedOpened { event: Option<DataSrc<String>> },
    RightClickedClosed,
    CanvasWorldOpened { name: String },
    CanvasWorldClosed,
}

/// The model of a [`Element`].
pub enum ElementV {
    ElementOpened { id: Option<DataSrcV<Seq<char>>> },
    ElementClosed,
    TextElementOpened,
    TextElementClosed(DataSrcV<Seq<char>>),
    ConfigOpened,
    ConfigClosed,
    TextConfigOpened,
    TextConfigClosed,
    ListOpened,
    ListClosed(Seq<char>),
    ItemOpened,
    ItemClosed { list: Seq<char>, index: DataSrcV<Seq<char>> },
    UseOpened,
    UseClosed(Seq<char>),
    FunctionCall(Seq<char>),
    IfOpened { condition: Seq<char> },
    IfNotOpened { condition: Seq<char> },
    IfClosed,
    IfIndexOpened { index: DataSrcV<Seq<char>> },
    IfIndexNotOpened { index: DataSrcV<Seq<char>> },
    Pointer(CursorIcon),
    HoverOpened { event: Option<DataSrcV<Seq<char>>> },
    HoverClosed,
    HoveredOpened { event: Option<DataSrcV<Seq<char>>> },
    HoveredClosed,
    UnHoveredOpened { event: Option<DataSrcV<Seq<char>>> },
    UnHoveredClosed,
    FocusOpened { event: Option<DataSrcV<Seq<char>>> },
    FocusClosed,
    FocusedOpened { event: Option<DataSrcV<Seq<char>>> },
    FocusedClosed,
    UnFocusedOpened { event: Option<DataSrcV<Seq<char>>> },
    UnFocusedClosed,
    LeftPressedOpened { event: Option<DataSrcV<Seq<char>>> },
    LeftPressedClosed,
    LeftDownOpened { event: Option<DataSrcV<Seq<char>>> },
    LeftDownClosed,
    LeftReleasedOpened { event: Option<DataSrcV<Seq<char>>> },
    LeftReleasedClosed,
    LeftClickedOpened { event: Option<DataSrcV<Seq<char>>> },
    LeftClickedClosed,
    LeftDoubleClickedOpened { event: Option<DataSrcV<Seq<char>>> },
    LeftDoubleClickedClosed,
    LeftTripleClickedOpened { event: Option<DataSrcV<Seq<char>>> },
    LeftTripleClickedClosed,
    KeyEventOpened { event: Option<DataSrcV<Seq<char>>> },
    KeyEventClosed,
    RightPressedOpened { event: Option<DataSrcV<Seq<char>>> },
    RightPressedClosed,
    RightDownOpened { event: Option<DataSrcV<Seq<char>>> },
    RightDownClosed,
    RightReleasedOpened { event: Option<DataSrcV<Seq<char>>> },
    RightReleasedClosed,
    RightClickedOpened { event: Option<DataSrcV<Seq<char>>> },
    RightClickedClosed,
    CanvasWorldOpened { name: Seq<char> },
    CanvasWorldClosed,
}

impl DeepView for Element {
    type V = ElementV;

    open spec fn deep_view(&self) -> ElementV {
        match self {
            Element::ElementOpened { id } => ElementV::ElementOpened { id: id.deep_view() },
            Element::ElementClosed => ElementV::ElementClosed,
            Element::TextElementOpened => ElementV::TextElementOpened,
            Element::TextElementClosed(a0) => ElementV::TextElementClosed(a0.deep_view()),
            Element::ConfigOpened => ElementV::ConfigOpened,
            Element::ConfigClosed => ElementV::ConfigClosed,
            Element::TextConfigOpened => ElementV::TextConfigOpened,
            Element::TextConfigClosed => ElementV::TextConfigClosed,
            Element::ListOpened => ElementV::ListOpened,
            Element::ListClosed(a0) => ElementV::ListClosed(a0.deep_view()),
            Element::ItemOpened => ElementV::ItemOpened,
            Element::ItemClosed { list, index } => ElementV::ItemClosed { list: list.deep_view(), index: index.deep_view() },
            Element::UseOpened => ElementV::UseOpened,
            Element::UseClosed(a0) => ElementV::UseClosed(a0.deep_view()),
            Element::FunctionCall(a0) => ElementV::FunctionCall(a0.deep_view()),
            Element::IfOpened { condition } => ElementV::IfOpened { condition: condition.deep_view() },
            Element::IfNotOpened { condition } => ElementV::IfNotOpened { condition: condition.deep_view() },
            Element::IfClosed => ElementV::IfClosed,
            Element::IfIndexOpened { index } => ElementV::IfIndexOpened { index: index.deep_view() },
            Element::IfIndexNotOpened { index } => ElementV::IfIndexNotOpened { index: index.deep_view() },
            Element::Pointer(a0) => ElementV::Pointer(a0.deep_view()),
            Element::HoverOpened { event } => ElementV::HoverOpened { event: event.deep_view() },
            Element::HoverClosed => ElementV::HoverClosed,
            Element::HoveredOpened { event } => ElementV::HoveredOpened { event: event.deep_view() },
            Element::HoveredClosed => ElementV::HoveredClosed,
            Element::UnHoveredOpened { event } => ElementV::UnHoveredOpened { event: event.deep_view() },
            Element::UnHoveredClosed => ElementV::UnHoveredClosed,
            Element::FocusOpened { event } => ElementV::FocusOpened { event: event.deep_view() },
            Element::FocusClosed => ElementV::FocusClosed,
            Element::FocusedOpened { event } => ElementV::FocusedOpened { event: event.deep_view() },
            Element::FocusedClosed => ElementV::FocusedClosed,
            Element::UnFocusedOpened { event } => ElementV::UnFocusedOpened { event: event.deep_view() },
            Element::UnFocusedClosed => ElementV::UnFocusedClosed,
            Element::LeftPressedOpened { event } => ElementV::LeftPressedOpened { event: event.deep_view() },
            Element::LeftPressedClosed => ElementV::LeftPressedClosed,
            Element::LeftDownOpened { event } => ElementV::LeftDownOpened { event: event.deep_view() },
            Element::LeftDownClosed => ElementV::LeftDownClosed,
            Element::LeftReleasedOpened { event } => ElementV::LeftReleasedOpened { event: event.deep_view() },
            Element::LeftReleasedClosed => ElementV::LeftReleasedClosed,
            Element::LeftClickedOpened { event } => ElementV::LeftClickedOpened { event: event.deep_view() },
            Element::LeftClickedClosed => ElementV::LeftClickedClosed,
            Element::LeftDoubleClickedOpened { event } => ElementV::LeftDoubleClickedOpened { event: event.deep_view() },
            Element::LeftDoubleClickedClosed => ElementV::LeftDoubleClickedClosed,
            Element::LeftTripleClickedOpened { event } => ElementV::LeftTripleClickedOpened { event: event.deep_view() },
            Element::LeftTripleClickedClosed => ElementV::LeftTripleClickedClosed,
            Element::KeyEventOpened { event } => ElementV::KeyEventOpened { event: event.deep_view() },
            Element::KeyEventClosed => ElementV::KeyEventClosed,
            Element::RightPressedOpened { event } => ElementV::RightPressedOpened { event: event.deep_view() },
            Element::RightPressedClosed => ElementV::RightPressedClosed,
            Element::RightDownOpened { event } => ElementV::RightDownOpened { event: event.deep_view() },
            Element::RightDownClosed => ElementV::RightDownClosed,
            Element::RightReleasedOpened { event } => ElementV::RightReleasedOpened { event: event.deep_view() },
            Element::RightReleasedClosed => ElementV::RightReleasedClosed,
            Element::RightClickedOpened { event } => ElementV::RightClickedOpened { event: event.deep_view() },
            Element::RightClickedClosed => ElementV::RightClickedClosed,
            Element::CanvasWorldOpened { name } => ElementV::CanvasWorldOpened { name: name.deep_view() },
            Element::CanvasWorldClosed => ElementV::CanvasWorldClosed,
        }
    }
}

/// A drawn shape, each geometry parameter a literal or a `get-numeric`
/// binding.
#[derive(Clone, Debug, PartialEq)]
pub enum CustomElementSpec {
    Circle,
    Ring { thickness: DataSrc<String> },
    Line { from_x: DataSrc<String>, from_y: DataSrc<String>, to_x: DataSrc<String>, to_y: DataSrc<String>, thickness: DataSrc<String> },
    Arc { center_x: DataSrc<String>, center_y: DataSrc<String>, radius: DataSrc<String>, start_angle: DataSrc<String>, end_angle: DataSrc<String>, thickness: DataSrc<String> },
    Bezier { from_x: DataSrc<String>, from_y: DataSrc<String>, ctrl1_x: DataSrc<String>, ctrl1_y: DataSrc<String>, ctrl2_x: DataSrc<String>, ctrl2_y: DataSrc<String>, to_x: DataSrc<String>, to_y: DataSrc<String>, thickness: DataSrc<String> },
    RenderWindow { camera: String, eye_x: Option<DataSrc<String>>, eye_y: Option<DataSrc<String>>, eye_z: Option<DataSrc<String>>, target_x: Option<DataSrc<String>>, target_y: Option<DataSrc<String>>, target_z: Option<DataSrc<String>>, up_x: Option<DataSrc<String>>, up_y: Option<DataSrc<String>>, up_z: Option<DataSrc<String>>, fov: Option<DataSrc<String>>, near: Option<DataSrc<String>>, far: Option<DataSrc<String>>, ortho_height: Option<DataSrc<String>> },
}

/// The model of a [`CustomElementSpec`].
pub enum CustomElementSpecV {
    Circle,
    Ring { thickness: DataSrcV<Seq<char>> },
    Line { from_x: DataSrcV<Seq<char>>, from_y: DataSrcV<Seq<char>>, to_x: DataSrcV<Seq<char>>, to_y: DataSrcV<Seq<char>>, thickness: DataSrcV<Seq<char>> },
    Arc { center_x: DataSrcV<Seq<char>>, center_y: DataSrcV<Seq<char>>, radius: DataSrcV<Seq<char>>, start_angle: DataSrcV<Seq<char>>, end_angle: DataSrcV<Seq<char>>, thickness: DataSrcV<Seq<char>> },
    Bezier { from_x: DataSrcV<Seq<char>>, from_y: DataSrcV<Seq<char>>, ctrl1_x: DataSrcV<Seq<char>>, ctrl1_y: DataSrcV<Seq<char>>, ctrl2_x: DataSrcV<Seq<char>>, ctrl2_y: DataSrcV<Seq<char>>, to_x: DataSrcV<Seq<char>>, to_y: DataSrcV<Seq<char>>, thickness: DataSrcV<Seq<char>> },
    RenderWindow { camera: Seq<char>, eye_x: Option<DataSrcV<Seq<char>>>, eye_y: Option<DataSrcV<Seq<char>>>, eye_z: Option<DataSrcV<Seq<char>>>, target_x: Option<DataSrcV<Seq<char>>>, target_y: Option<DataSrcV<Seq<char>>>, target_z: Option<DataSrcV<Seq<char>>>, up_x: Option<DataSrcV<Seq<char>>>, up_y: Option<DataSrcV<Seq<char>>>, up_z: Option<DataSrcV<Seq<char>>>, fov: Option<DataSrcV<Seq<char>>>, near: Option<DataSrcV<Seq<char>>>, far: Option<DataSrcV<Seq<char>>>, ortho_height: Option<DataSrcV<Seq<char>>> },
}

impl DeepView for CustomElementSpec {
    type V = CustomElementSpecV;

    open spec fn deep_view(&self) -> CustomElementSpecV {
        match self {
            CustomElementSpec::Circle => CustomElementSpecV::Circle,
            CustomElementSpec::Ring { thickness } => CustomElementSpecV::Ring { thickness: thickness.deep_view() },
            CustomElementSpec::Line { from_x, from_y, to_x, to_y, thickness } => CustomElementSpecV::Line { from_x: from_x.deep_view(), from_y: from_y.deep_view(), to_x: to_x.deep_view(), to_y: to_y.deep_view(), thickness: thickness.deep_view() },
            CustomElementSpec::Arc { center_x, center_y, radius, start_angle, end_angle, thickness } => CustomElementSpecV::Arc { center_x: center_x.deep_view(), center_y: center_y.deep_view(), radius: radius.deep_view(), start_angle: start_angle.deep_view(), end_angle: end_angle.deep_view(), thickness: thickness.deep_view() },
            CustomElementSpec::Bezier { from_x, from_y, ctrl1_x, ctrl1_y, ctrl2_x, ctrl2_y, to_x, to_y, thickness } => CustomElementSpecV::Bezier { from_x: from_x.deep_view(), from_y: from_y.deep_view(), ctrl1_x: ctrl1_x.deep_view(), ctrl1_y: ctrl1_y.deep_view(), ctrl2_x: ctrl2_x.deep_view(), ctrl2_y: ctrl2_y.deep_view(), to_x: to_x.deep_view(), to_y: to_y.deep_view(), thickness: thickness.deep_view() },
            CustomElementSpec::RenderWindow { camera, eye_x, eye_y, eye_z, target_x, target_y, target_z, up_x, up_y, up_z, fov, near, far, ortho_height } => CustomElementSpecV::RenderWindow { camera: camera.deep_view(), eye_x: eye_x.deep_view(), eye_y: eye_y.deep_view(), eye_z: eye_z.deep_view(), target_x: target_x.deep_view(), target_y: target_y.deep_view(), target_z: target_z.deep_view(), up_x: up_x.deep_view(), up_y: up_y.deep_view(), up_z: up_z.deep_view(), fov: fov.deep_view(), near: near.deep_view(), far: far.deep_view(), ortho_height: ortho_height.deep_view() },
        }
    }
}

/// An element's `shader` effect: its name and its tunables. A numeric
/// tunable holds its current value; a colour tunable holds every value
/// written for it, in order (the last one that names a binding or reads as a
/// colour wins over the effect's default).
#[derive(Clone, Debug, PartialEq)]
pub struct ShaderSpec {
    pub name: String,
    pub shadow_offset_x: DataSrc<String>,
    pub shadow_offset_y: DataSrc<String>,
    pub shadow_blur: DataSrc<String>,
    pub shadow_spread: DataSrc<String>,
    pub shadow_color: Vec<DataSrc<String>>,
    pub bevel_width: DataSrc<String>,
    pub bevel_light_angle: DataSrc<String>,
    pub bevel_highlight: DataSrc<String>,
    pub bevel_shade: DataSrc<String>,
    pub glow_blur: DataSrc<String>,
    pub glow_spread: DataSrc<String>,
    pub glow_color: Vec<DataSrc<String>>,
    pub blur_radius: DataSrc<String>,
    pub blur_tint: Vec<DataSrc<String>>,
    pub custom: Vec<DataSrc<String>>,
}

/// The model of a [`ShaderSpec`].
pub struct ShaderSpecV {
    pub name: Seq<char>,
    pub shadow_offset_x: DataSrcV<Seq<char>>,
    pub shadow_offset_y: DataSrcV<Seq<char>>,
    pub shadow_blur: DataSrcV<Seq<char>>,
    pub shadow_spread: DataSrcV<Seq<char>>,
    pub shadow_color: Seq<DataSrcV<Seq<char>>>,
    pub bevel_width: DataSrcV<Seq<char>>,
    pub bevel_light_angle: DataSrcV<Seq<char>>,
    pub bevel_highlight: DataSrcV<Seq<char>>,
    pub bevel_shade: DataSrcV<Seq<char>>,
    pub glow_blur: DataSrcV<Seq<char>>,
    pub glow_spread: DataSrcV<Seq<char>>,
    pub glow_color: Seq<DataSrcV<Seq<char>>>,
    pub blur_radius: DataSrcV<Seq<char>>,
    pub blur_tint: Seq<DataSrcV<Seq<char>>>,
    pub custom: Seq<DataSrcV<Seq<char>>>,
}

impl DeepView for ShaderSpec {
    type V = ShaderSpecV;

    open spec fn deep_view(&self) -> ShaderSpecV {
        ShaderSpecV {
            name: self.name.deep_view(),
            shadow_offset_x: self.shadow_offset_x.deep_view(),
            shadow_offset_y: self.shadow_offset_y.deep_view(),
            shadow_blur: self.shadow_blur.deep_view(),
            shadow_spread: self.shadow_spread.deep_view(),
            shadow_color: self.shadow_color.deep_view(),
            bevel_width: self.bevel_width.deep_view(),
            bevel_light_angle: self.bevel_light_angle.deep_view(),
            bevel_highlight: self.bevel_highlight.deep_view(),
            bevel_shade: self.bevel_shade.deep_view(),
            glow_blur: self.glow_blur.deep_view(),
            glow_spread: self.glow_spread.deep_view(),
            glow_color: self.glow_color.deep_view(),
            blur_radius: self.blur_radius.deep_view(),
            blur_tint: self.blur_tint.deep_view(),
            custom: self.custom.deep_view(),
        }
    }
}

/// A configuration command of the element (or text element) being opened.
/// Colours are literal text or bindings; numbers are decimal literals or
/// bindings.
#[derive(Clone, Debug, PartialEq)]
pub enum Config {
    Id(DataSrc<String>),
    IdIndexed(DataSrc<String>),
    GrowAll,
    FitAll,
    AspectRatio(DataSrc<String>),
    GrowX,
    GrowXmin(DataSrc<String>),
    GrowXmax(DataSrc<String>),
    GrowXminmax { min: DataSrc<String>, max: DataSrc<String> },
    GrowY,
    GrowYmin(DataSrc<String>),
    GrowYmax(DataSrc<String>),
    GrowYminmax { min: DataSrc<String>, max: DataSrc<String> },
    FitX,
    FitXmin(DataSrc<String>),
    FitXmax(DataSrc<String>),
    FitXminmax { min: DataSrc<String>, max: DataSrc<String> },
    FitY,
    FitYmin(DataSrc<String>),
    FitYmax(DataSrc<String>),
    FitYminmax { min: DataSrc<String>, max: DataSrc<String> },
    FixedX(DataSrc<String>),
    FixedY(DataSrc<String>),
    FixedSquare(DataSrc<String>),
    PercentX(DataSrc<String>),
    PercentY(DataSrc<String>),
    PaddingAll(DataSrc<u16>),
    PaddingTop(DataSrc<u16>),
    PaddingBottom(DataSrc<u16>),
    PaddingLeft(DataSrc<u16>),
    PaddingRight(DataSrc<u16>),
    ChildGap(DataSrc<u16>),
    Vertical,
    Horizontal,
    ChildAlignmentXLeft,
    ChildAlignmentXRight,
    ChildAlignmentXCenter,
    ChildAlignmentYTop,
    ChildAlignmentYCenter,
    ChildAlignmentYBottom,
    Color(DataSrc<String>),
    RadiusAll(DataSrc<String>),
    RadiusTopLeft(DataSrc<String>),
    RadiusTopRight(DataSrc<String>),
    RadiusBottomRight(DataSrc<String>),
    RadiusBottomLeft(DataSrc<String>),
    BorderColor(DataSrc<String>),
    BorderAll(DataSrc<u16>),
    BorderTop(DataSrc<u16>),
    BorderLeft(DataSrc<u16>),
    BorderBottom(DataSrc<u16>),
    BorderRight(DataSrc<u16>),
    BorderBetweenChildren(DataSrc<u16>),
    Clip { vertical: DataSrc<bool>, horizontal: DataSrc<bool> },
    Image { name: String },
    ImageLiteral(ImageDescriptor),
    Floating,
    FloatingClipToParent,
    FloatingNoClip,
    FloatingPointerCapture,
    FloatingOffset { x: DataSrc<String>, y: DataSrc<String> },
    FloatingDimensions { width: DataSrc<String>, height: DataSrc<String> },
    FloatingZIndex { z: DataSrc<i16> },
    FloatingAttatchToParentAtTopLeft,
    FloatingAttatchToParentAtCenterLeft,
    FloatingAttatchToParentAtBottomLeft,
    FloatingAttatchToParentAtTopCenter,
    FloatingAttatchToParentAtCenter,
    FloatingAttatchToParentAtBottomCenter,
    FloatingAttatchToParentAtTopRight,
    FloatingAttatchToParentAtCenterRight,
    FloatingAttatchToParentAtBottomRight,
    FloatingAttatchElementAtTopLeft,
    FloatingAttatchElementAtCenterLeft,
    FloatingAttatchElementAtBottomLeft,
    FloatingAttatchElementAtTopCenter,
    FloatingAttatchElementAtCenter,
    FloatingAttatchElementAtBottomCenter,
    FloatingAttatchElementAtTopRight,
    FloatingAttatchElementAtCenterRight,
    FloatingAttatchElementAtBottomRight,
    FloatingPointerPassThrough,
    FloatingAttachElementToElement { other_element_id: String },
    FloatingAttachElementToRoot,
    CustomElement(CustomElementSpec),
    Shaders(Vec<ShaderSpec>),
    Use { name: String, params: Vec<(String, DataSrc<Declaration>)> },
    FontId(DataSrc<u16>),
    AlignRight,
    AlignLeft,
    AlignCenter,
    LineHeight(DataSrc<u16>),
    FontSize(DataSrc<u16>),
    FontColor(DataSrc<String>),
    LetterSpacing(DataSrc<u16>),
    WrapWords,
    WrapNewLines,
    WrapNone,
    Canvas { name: String, world_width: Option<DataSrc<String>>, world_height: Option<DataSrc<String>>, min_zoom: Option<DataSrc<String>>, max_zoom: Option<DataSrc<String>>, initial_zoom: Option<DataSrc<String>>, initial_pan_x: Option<DataSrc<String>>, initial_pan_y: Option<DataSrc<String>> },
    CanvasWorldSize { name: String },
}

/// The model of a [`Config`].
pub enum ConfigV {
    Id(DataSrcV<Seq<char>>),
    IdIndexed(DataSrcV<Seq<char>>),
    GrowAll,
    FitAll,
    AspectRatio(DataSrcV<Seq<char>>),
    GrowX,
    GrowXmin(DataSrcV<Seq<char>>),
    GrowXmax(DataSrcV<Seq<char>>),
    GrowXminmax { min: DataSrcV<Seq<char>>, max: DataSrcV<Seq<char>> },
    GrowY,
    GrowYmin(DataSrcV<Seq<char>>),
    GrowYmax(DataSrcV<Seq<char>>),
    GrowYminmax { min: DataSrcV<Seq<char>>, max: DataSrcV<Seq<char>> },
    FitX,
    FitXmin(DataSrcV<Seq<char>>),
    FitXmax(DataSrcV<Seq<char>>),
    FitXminmax { min: DataSrcV<Seq<char>>, max: DataSrcV<Seq<char>> },
    FitY,
    FitYmin(DataSrcV<Seq<char>>),
    FitYmax(DataSrcV<Seq<char>>),
    FitYminmax { min: DataSrcV<Seq<char>>, max: DataSrcV<Seq<char>> },
    FixedX(DataSrcV<Seq<char>>),
    FixedY(DataSrcV<Seq<char>>),
    FixedSquare(DataSrcV<Seq<char>>),
    PercentX(DataSrcV<Seq<char>>),
    PercentY(DataSrcV<Seq<char>>),
    PaddingAll(DataSrcV<u16>),
    PaddingTop(DataSrcV<u16>),
    PaddingBottom(DataSrcV<u16>),
    PaddingLeft(DataSrcV<u16>),
    PaddingRight(DataSrcV<u16>),
    ChildGap(DataSrcV<u16>),
    Vertical,
    Horizontal,
    ChildAlignmentXLeft,
    ChildAlignmentXRight,
    ChildAlignmentXCenter,
    ChildAlignmentYTop,
    ChildAlignmentYCenter,
    ChildAlignmentYBottom,
    Color(DataSrcV<Seq<char>>),
    RadiusAll(DataSrcV<Seq<char>>),
    RadiusTopLeft(DataSrcV<Seq<char>>),
    RadiusTopRight(DataSrcV<Seq<char>>),
    RadiusBottomRight(DataSrcV<Seq<char>>),
    RadiusBottomLeft(DataSrcV<Seq<char>>),
    BorderColor(DataSrcV<Seq<char>>),
    BorderAll(DataSrcV<u16>),
    BorderTop(DataSrcV<u16>),
    BorderLeft(DataSrcV<u16>),
    BorderBottom(DataSrcV<u16>),
    BorderRight(DataSrcV<u16>),
    BorderBetweenChildren(DataSrcV<u16>),
    Clip { vertical: DataSrcV<bool>, horizontal: DataSrcV<bool> },
    Image { name: Seq<char> },
    ImageLiteral(ImageDescriptorV),
    Floating,
    FloatingClipToParent,
    FloatingNoClip,
    FloatingPointerCapture,
    FloatingOffset { x: DataSrcV<Seq<char>>, y: DataSrcV<Seq<char>> },
    FloatingDimensions { width: DataSrcV<Seq<char>>, height: DataSrcV<Seq<char>> },
    FloatingZIndex { z: DataSrcV<i16> },
    FloatingAttatchToParentAtTopLeft,
    FloatingAttatchToParentAtCenterLeft,
    FloatingAttatchToParentAtBottomLeft,
    FloatingAttatchToParentAtTopCenter,
    FloatingAttatchToParentAtCenter,
    FloatingAttatchToParentAtBottomCenter,
    FloatingAttatchToParentAtTopRight,
    FloatingAttatchToParentAtCenterRight,
    FloatingAttatchToParentAtBottomRight,
    FloatingAttatchElementAtTopLeft,
    FloatingAttatchElementAtCenterLeft,
    FloatingAttatchElementAtBottomLeft,
    FloatingAttatchElementAtTopCenter,
    FloatingAttatchElementAtCenter,
    FloatingAttatchElementAtBottomCenter,
    FloatingAttatchElementAtTopRight,
    FloatingAttatchElementAtCenterRight,
    FloatingAttatchElementAtBottomRight,
    FloatingPointerPassThrough,
    FloatingAttachElementToElement { other_element_id: Seq<char> },
    FloatingAttachElementToRoot,
    CustomElement(CustomElementSpecV),
    Shaders(Seq<ShaderSpecV>),
    Use { name: Seq<char>, params: Seq<(Seq<char>, DataSrcV<DeclarationV>)> },
    FontId(DataSrcV<u16>),
    AlignRight,
    AlignLeft,
    AlignCenter,
    LineHeight(DataSrcV<u16>),
    FontSize(DataSrcV<u16>),
    FontColor(DataSrcV<Seq<char>>),
    LetterSpacing(DataSrcV<u16>),
    WrapWords,
    WrapNewLines,
    WrapNone,
    Canvas { name: Seq<char>, world_width: Option<DataSrcV<Seq<char>>>, world_height: Option<DataSrcV<Seq<char>>>, min_zoom: Option<DataSrcV<Seq<char>>>, max_zoom: Option<DataSrcV<Seq<char>>>, initial_zoom: Option<DataSrcV<Seq<char>>>, initial_pan_x: Option<DataSrcV<Seq<char>>>, initial_pan_y: Option<DataSrcV<Seq<char>>> },
    CanvasWorldSize { name: Seq<char> },
}

impl DeepView for Config {
    type V = ConfigV;

    open spec fn deep_view(&self) -> ConfigV {
        match self {
            Config::Id(a0) => ConfigV::Id(a0.deep_view()),
            Config::IdIndexed(a0) => ConfigV::IdIndexed(a0.deep_view()),
            Config::GrowAll => ConfigV::GrowAll,
            Config::FitAll => ConfigV::FitAll,
            Config::AspectRatio(a0) => ConfigV::AspectRatio(a0.deep_view()),
            Config::GrowX => ConfigV::GrowX,
            Config::GrowXmin(a0) => ConfigV::GrowXmin(a0.deep_view()),
            Config::GrowXmax(a0) => ConfigV::GrowXmax(a0.deep_view()),
            Config::GrowXminmax { min, max } => ConfigV::GrowXminmax { min: min.deep_view(), max: max.deep_view() },
            Config::GrowY => ConfigV::GrowY,
            Config::GrowYmin(a0) => ConfigV::GrowYmin(a0.deep_view()),
            Config::GrowYmax(a0) => ConfigV::GrowYmax(a0.deep_view()),
            Config::GrowYminmax { min, max } => ConfigV::GrowYminmax { min: min.deep_view(), max: max.deep_view() },
            Config::FitX => ConfigV::FitX,
            Config::FitXmin(a0) => ConfigV::FitXmin(a0.deep_view()),
            Config::FitXmax(a0) => ConfigV::FitXmax(a0.deep_view()),
            Config::FitXminmax { min, max } => ConfigV::FitXminmax { min: min.deep_view(), max: max.deep_view() },
            Config::FitY => ConfigV::FitY,
            Config::FitYmin(a0) => ConfigV::FitYmin(a0.deep_view()),
            Config::FitYmax(a0) => ConfigV::FitYmax(a0.deep_view()),
            Config::FitYminmax { min, max } => ConfigV::FitYminmax { min: min.deep_view(), max: max.deep_view() },
            Config::FixedX(a0) => ConfigV::FixedX(a0.deep_view()),
            Config::FixedY(a0) => ConfigV::FixedY(a0.deep_view()),
            Config::FixedSquare(a0) => ConfigV::FixedSquare(a0.deep_view()),
            Config::PercentX(a0) => ConfigV::PercentX(a0.deep_view()),
            Config::PercentY(a0) => ConfigV::PercentY(a0.deep_view()),
            Config::PaddingAll(a0) => ConfigV::PaddingAll(a0.deep_view()),
            Config::PaddingTop(a0) => ConfigV::PaddingTop(a0.deep_view()),
            Config::PaddingBottom(a0) => ConfigV::PaddingBottom(a0.deep_view()),
            Config::PaddingLeft(a0) => ConfigV::PaddingLeft(a0.deep_view()),
            Config::PaddingRight(a0) => ConfigV::PaddingRight(a0.deep_view()),
            Config::ChildGap(a0) => ConfigV::ChildGap(a0.deep_view()),
            Config::Vertical => ConfigV::Vertical,
            Config::Horizontal => ConfigV::Horizontal,
            Config::ChildAlignmentXLeft => ConfigV::ChildAlignmentXLeft,
            Config::ChildAlignmentXRight => ConfigV::ChildAlignmentXRight,
            Config::ChildAlignmentXCenter => ConfigV::ChildAlignmentXCenter,
            Config::ChildAlignmentYTop => ConfigV::ChildAlignmentYTop,
            Config::ChildAlignmentYCenter => ConfigV::ChildAlignmentYCenter,
            Config::ChildAlignmentYBottom => ConfigV::ChildAlignmentYBottom,
            Config::Color(a0) => ConfigV::Color(a0.deep_view()),
            Config::RadiusAll(a0) => ConfigV::RadiusAll(a0.deep_view()),
            Config::RadiusTopLeft(a0) => ConfigV::RadiusTopLeft(a0.deep_view()),
            Config::RadiusTopRight(a0) => ConfigV::RadiusTopRight(a0.deep_view()),
            Config::RadiusBottomRight(a0) => ConfigV::RadiusBottomRight(a0.deep_view()),
            Config::RadiusBottomLeft(a0) => ConfigV::RadiusBottomLeft(a0.deep_view()),
            Config::BorderColor(a0) => ConfigV::BorderColor(a0.deep_view()),
            Config::BorderAll(a0) => ConfigV::BorderAll(a0.deep_view()),
            Config::BorderTop(a0) => ConfigV::BorderTop(a0.deep_view()),
            Config::BorderLeft(a0) => ConfigV::BorderLeft(a0.deep_view()),
            Config::BorderBottom(a0) => ConfigV::BorderBottom(a0.deep_view()),
            Config::BorderRight(a0) => ConfigV::BorderRight(a0.deep_view()),
            Config::BorderBetweenChildren(a0) => ConfigV::BorderBetweenChildren(a0.deep_view()),
            Config::Clip { vertical, horizontal } => ConfigV::Clip { vertical: vertical.deep_view(), horizontal: horizontal.deep_view() },
            Config::Image { name } => ConfigV::Image { name: name.deep_view() },
            Config::ImageLiteral(a0) => ConfigV::ImageLiteral(a0.deep_view()),
            Config::Floating => ConfigV::Floating,
            Config::FloatingClipToParent => ConfigV::FloatingClipToParent,
            Config::FloatingNoClip => ConfigV::FloatingNoClip,
            Config::FloatingPointerCapture => ConfigV::FloatingPointerCapture,
            Config::FloatingOffset { x, y } => ConfigV::FloatingOffset { x: x.deep_view(), y: y.deep_view() },
            Config::FloatingDimensions { width, height } => ConfigV::FloatingDimensions { width: width.deep_view(), height: height.deep_view() },
            Config::FloatingZIndex { z } => ConfigV::FloatingZIndex { z: z.deep_view() },
            Config::FloatingAttatchToParentAtTopLeft => ConfigV::FloatingAttatchToParentAtTopLeft,
            Config::FloatingAttatchToParentAtCenterLeft => ConfigV::FloatingAttatchToParentAtCenterLeft,
            Config::FloatingAttatchToParentAtBottomLeft => ConfigV::FloatingAttatchToParentAtBottomLeft,
            Config::FloatingAttatchToParentAtTopCenter => ConfigV::FloatingAttatchToParentAtTopCenter,
            Config::FloatingAttatchToParentAtCenter => ConfigV::FloatingAttatchToParentAtCenter,
            Config::FloatingAttatchToParentAtBottomCenter => ConfigV::FloatingAttatchToParentAtBottomCenter,
            Config::FloatingAttatchToParentAtTopRight => ConfigV::FloatingAttatchToParentAtTopRight,
            Config::FloatingAttatchToParentAtCenterRight => ConfigV::FloatingAttatchToParentAtCenterRight,
            Config::FloatingAttatchToParentAtBottomRight => ConfigV::FloatingAttatchToParentAtBottomRight,
            Config::FloatingAttatchElementAtTopLeft => ConfigV::FloatingAttatchElementAtTopLeft,
            Config::FloatingAttatchElementAtCenterLeft => ConfigV::FloatingAttatchElementAtCenterLeft,
            Config::FloatingAttatchElementAtBottomLeft => ConfigV::FloatingAttatchElementAtBottomLeft,
            Config::FloatingAttatchElementAtTopCenter => ConfigV::FloatingAttatchElementAtTopCenter,
            Config::FloatingAttatchElementAtCenter => ConfigV::FloatingAttatchElementAtCenter,
            Config::FloatingAttatchElementAtBottomCenter => ConfigV::FloatingAttatchElementAtBottomCenter,
            Config::FloatingAttatchElementAtTopRight => ConfigV::FloatingAttatchElementAtTopRight,
            Config::FloatingAttatchElementAtCenterRight => ConfigV::FloatingAttatchElementAtCenterRight,
            Config::FloatingAttatchElementAtBottomRight => ConfigV::FloatingAttatchElementAtBottomRight,
            Config::FloatingPointerPassThrough => ConfigV::FloatingPointerPassThrough,
            Config::FloatingAttachElementToElement { other_element_id } => ConfigV::FloatingAttachElementToElement { other_element_id: other_element_id.deep_view() },
            Config::FloatingAttachElementToRoot => ConfigV::FloatingAttachElementToRoot,
            Config::CustomElement(a0) => ConfigV::CustomElement(a0.deep_view()),
            Config::Shaders(a0) => ConfigV::Shaders(a0.deep_view()),
            Config::Use { name, params } => ConfigV::Use { name: name.deep_view(), params: params.deep_view() },
            Config::FontId(a0) => ConfigV::FontId(a0.deep_view()),
            Config::AlignRight => ConfigV::AlignRight,
            Config::AlignLeft => ConfigV::AlignLeft,
            Config::AlignCenter => ConfigV::AlignCenter,
            Config::LineHeight(a0) => ConfigV::LineHeight(a0.deep_view()),
            Config::FontSize(a0) => ConfigV::FontSize(a0.deep_view()),
            Config::FontColor(a0) => ConfigV::FontColor(a0.deep_view()),
            Config::LetterSpacing(a0) => ConfigV::LetterSpacing(a0.deep_view()),
            Config::WrapWords => ConfigV::WrapWords,
            Config::WrapNewLines => ConfigV::WrapNewLines,
            Config::WrapNone => ConfigV::WrapNone,
            Config::Canvas { name, world_width, world_height, min_zoom, max_zoom, initial_zoom, initial_pan_x, initial_pan_y } => ConfigV::Canvas { name: name.deep_view(), world_width: world_width.deep_view(), world_height: world_height.deep_view(), min_zoom: min_zoom.deep_view(), max_zoom: max_zoom.deep_view(), initial_zoom: initial_zoom.deep_view(), initial_pan_x: initial_pan_x.deep_view(), initial_pan_y: initial_pan_y.deep_view() },
            Config::CanvasWorldSize { name } => ConfigV::CanvasWorldSize { name: name.deep_view() },
        }
    }
}

/// One layout command.
#[derive(Clone, Debug, PartialEq)]
pub enum Layout {
    Element(Element),
    Declaration { name: String, value: DataSrc<Declaration> },
    Config(Config),
}

/// The model of a [`Layout`].
pub enum LayoutV {
    Element(ElementV),
    Declaration { name: Seq<char>, value: DataSrcV<DeclarationV> },
    Config(ConfigV),
}

impl DeepView for Layout {
    type V = LayoutV;

    open spec fn deep_view(&self) -> LayoutV {
        match self {
            Layout::Element(a0) => LayoutV::Element(a0.deep_view()),
            Layout::Declaration { name, value } => LayoutV::Declaration { name: name.deep_view(), value: value.deep_view() },
            Layout::Config(a0) => LayoutV::Config(a0.deep_view()),
        }
    }
}

} // verus!

verus! {

/// Appends `x` to `v`, with the effect on the models.
pub fn push_dv<T: DeepView>(v: &mut Vec<T>, x: T)
    ensures
        final(v).deep_view() == old(v).deep_view().push(x.deep_view()),
        final(v)@.len() == old(v)@.len() + 1,
{
    let ghost before = v.deep_view();
    let ghost xv = x.deep_view();
    v.push(x);
    assert forall|k: int| 0 <= k < v@.len() implies #[trigger] v.deep_view()[k] == before.push(
        xv,
    )[k] by {
        if k < before.len() {
            assert(v@[k] == old(v)@[k]);
        }
    }
    assert(v.deep_view() =~= before.push(xv));
}

/// Moves the elements of `w` to the end of `v`, with the effect on the
/// models.
pub fn append_dv<T: DeepView>(v: &mut Vec<T>, w: Vec<T>)
    ensures
        final(v).deep_view() == old(v).deep_view() + w.deep_view(),
{
    let ghost before = v.deep_view();
    let ghost v0 = v@;
    let ghost wv = w.deep_view();
    let ghost w0 = w@;
    let mut w = w;
    v.append(&mut w);
    assert forall|k: int| 0 <= k < v@.len() implies #[trigger] v.deep_view()[k] == (before
        + wv)[k] by {
        if k < v0.len() {
            assert(v@[k] == v0[k]);
        } else {
            assert(v@[k] == w0[k - v0.len()]);
        }
    }
    assert(v.deep_view() =~= before + wv);
}

/// Removes the last element of the non-empty `v`, with the effect on the
/// models.
pub fn pop_dv<T: DeepView>(v: &mut Vec<T>) -> (x: T)
    requires
        old(v)@.len() > 0,
    ensures
        final(v).deep_view() == old(v).deep_view().drop_last(),
        x.deep_view() == old(v).deep_view().last(),
        final(v)@.len() == old(v)@.len() - 1,
{
    let ghost before = v.deep_view();
    let ghost v0 = v@;
    let x = v.pop().unwrap();
    assert forall|k: int| 0 <= k < v@.len() implies #[trigger] v.deep_view()[k]
        == before.drop_last()[k] by {
        assert(v@[k] == v0[k]);
    }
    assert(v.deep_view() =~= before.drop_last());
    x
}

/// Removes the first element of the non-empty `v`, with the effect on the
/// models.
pub fn take_first_dv<T: DeepView>(v: &mut Vec<T>) -> (x: T)
    requires
        old(v)@.len() > 0,
    ensures
        final(v).deep_view() == old(v).deep_view().drop_first(),
        x.deep_view() == old(v).deep_view()[0],
{
    let ghost before = v.deep_view();
    let ghost v0 = v@;
    let x = v.remove(0);
    assert forall|k: int| 0 <= k < v@.len() implies #[trigger] v.deep_view()[k]
        == before.drop_first()[k] by {
        assert(v@[k] == v0[k + 1]);
    }
    assert(v.deep_view() =~= before.drop_first());
    x
}

/// Removes element `i` of `v`, with the effect on the models.
pub fn remove_dv<T: DeepView>(v: &mut Vec<T>, i: usize) -> (x: T)
    requires
        i < old(v)@.len(),
    ensures
        final(v).deep_view() == old(v).deep_view().remove(i as int),
        x.deep_view() == old(v).deep_view()[i as int],
        final(v)@.len() == old(v)@.len() - 1,
{
    let ghost before = v.deep_view();
    let ghost v0 = v@;
    let x = v.remove(i);
    assert forall|k: int| 0 <= k < v@.len() implies #[trigger] v.deep_view()[k]
        == before.remove(i as int)[k] by {
        if k < i {
            assert(v@[k] == v0[k]);
        } else {
            assert(v@[k] == v0[k + 1]);
        }
    }
    assert(v.deep_view() =~= before.remove(i as int));
    x
}

/// Inserts `x` at position `i` of `v`, with the effect on the models.
pub fn insert_dv<T: DeepView>(v: &mut Vec<T>, i: usize, x: T)
    requires
        i <= old(v)@.len(),
    ensures
        final(v).deep_view() == old(v).deep_view().insert(i as int, x.deep_view()),
        final(v)@.len() == old(v)@.len() + 1,
{
    let ghost before = v.deep_view();
    let ghost v0 = v@;
    let ghost xv = x.deep_view();
    v.insert(i, x);
    assert forall|k: int| 0 <= k < v@.len() implies #[trigger] v.deep_view()[k]
        == before.insert(i as int, xv)[k] by {
        if k < i {
            assert(v@[k] == v0[k]);
        } else if k > i {
            assert(v@[k] == v0[k - 1]);
        }
    }
    assert(v.deep_view() =~= before.insert(i as int, xv));
}

/// Replaces element `k` of `v` with `x`, with the effect on the models.
pub fn set_dv<T: DeepView>(v: &mut Vec<T>, k: usize, x: T)
    requires
        k < old(v)@.len(),
    ensures
        final(v).deep_view() == old(v).deep_view().update(k as int, x.deep_view()),
        final(v)@.len() == old(v)@.len(),
{
    let ghost before = v.deep_view();
    let ghost v0 = v@;
    let ghost xv = x.deep_view();
    v.set(k, x);
    assert forall|j: int| 0 <= j < v@.len() implies #[trigger] v.deep_view()[j] == before.update(
        k as int,
        xv,
    )[j] by {
        if j != k {
            assert(v@[j] == v0[j]);
        }
    }
    assert(v.deep_view() =~= before.update(k as int, xv));
}

} // verus!
