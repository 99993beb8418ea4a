//! The `config` block of an element: each list item a configuration
//! keyword and its argument. Sizing keywords written as separate items
//! (`width-grow`, `width-grow-min`, ...), scrolling and `shader` effects are
//! gathered over the whole block and emitted once at its end; a `floating`
//! command is moved to the front.
use vstd::prelude::*;
use crate::args::{
    child, child_at, text_of, text_node, emph_text, emph_node, trim_opt, trim_option, text_arg,
    text_arg_of, float_arg, float_arg_of, u16_arg, u16_arg_of, i16_arg, i16_arg_of, static_arg,
    static_arg_of, opt_chars, strs,
};
use crate::ctx::{CalcCtx, CtxV};
use crate::decls::{para_head, para_head_of, uv_of, variables, process_variables};
use crate::ir::{
    Config, ConfigV, CursorIcon, CustomElementSpec, CustomElementSpecV, DataSrc, DataSrcV, Element,
    ElementV, ImageDescriptor, ImageDescriptorV, Layout, LayoutV, ShaderSpec, ShaderSpecV, push_dv, pop_dv,
    append_dv, remove_dv, insert_dv,
};
use crate::keywords::{
    lists_word, spec_shader_param_keywords, spec_shape_param_keywords, shader_param_keywords,
    shape_param_keywords, list_contains,
};
use crate::md::{MdKind, MdKindV, MdNode, MdTree, trees};
use crate::shapes::{shader_default, shader_apply, shape_apply};
use crate::text::{chars_of, trim, trim_str, str_eq};

verus! {

/// A keyword that emits a fixed command.
#[derive(Clone, Copy, Debug, PartialEq, Eq)]
pub enum FlagCfg {

    GrowAll,
    FitAll,
    Vertical,
    Horizontal,
    ClipToParent,
    NoClip,
    PointerCapture,
    PointerPassThrough,
    AttachRoot,
}

/// A keyword whose argument is a name, a text or a colour. A colour's text
/// is kept as written: whether it spells a colour is decided where the
/// colour is drawn.
#[derive(Clone, Copy, Debug, PartialEq, Eq)]
pub enum TextCfg {
    IdIndexed,
    Color,
    BorderColor,
    FontColor,
}

/// A keyword whose argument is a number.
#[derive(Clone, Copy, Debug, PartialEq, Eq)]
pub enum FloatCfg {
    AspectRatio,
    FixedX,
    FixedY,
    FixedSquare,
    PercentX,
    PercentY,
    RadiusAll,
    RadiusTopLeft,
    RadiusTopRight,
    RadiusBottomLeft,
    RadiusBottomRight,
}

/// A keyword whose argument is a `u16`.
#[derive(Clone, Copy, Debug, PartialEq, Eq)]
pub enum U16Cfg {
    PaddingAll,
    PaddingTop,
    PaddingRight,
    PaddingBottom,
    PaddingLeft,
    ChildGap,
    BorderAll,
    BorderTop,
    BorderLeft,
    BorderBottom,
    BorderRight,
    BorderBetweenChildren,
    FontId,
    FontSize,
    LineHeight,
    LetterSpacing,
}

/// A keyword whose argument is one of a few words.
#[derive(Clone, Copy, Debug, PartialEq, Eq)]
pub enum WordCfg {
    AlignChildrenX,
    AlignChildrenY,
    Pointer,
    Align,
    Wrap,
    AttachParent,
    AttachSelf,
}

/// An event gate keyword.
#[derive(Clone, Copy, Debug, PartialEq, Eq)]
pub enum Gate {
    Hovered,
    UnHovered,
    Hover,
    Focused,
    UnFocused,
    Focus,
    KeyEvent,
    LeftPressed,
    LeftDown,
    LeftReleased,
    LeftClicked,
    LeftDoubleClicked,
    LeftTripleClicked,
    RightPressed,
    RightDown,
    RightReleased,
    RightClicked,
}

/// What a configuration keyword does. Sizing axes are numbered width-grow,
/// height-grow, width-fit, height-fit; gathered slots offset-x, offset-y,
/// floating width, floating height.
#[derive(Clone, Copy, Debug, PartialEq, Eq)]
pub enum CfgKind {
    Flag(FlagCfg),
    Text(TextCfg),
    Float(FloatCfg),
    U16(U16Cfg),
    ZIndex,
    Bare(u8),
    Min(u8),
    Max(u8),
    Slot(u8),
    Scroll(bool),
    Words(WordCfg),
    Shader,
    ShaderParam,
    ShapeParam,
    Image,
    Floating,
    Use,
    Gate(Gate),
    Other,
}

/// What the configuration keyword `k` does.
pub open spec fn cfg_kind(k: Seq<char>) -> CfgKind {

    if k == "grow"@ {
        CfgKind::Flag(FlagCfg::GrowAll)
    } else if k == "fit"@ {
        CfgKind::Flag(FlagCfg::FitAll)
    } else if k == "id-indexed"@ {
        CfgKind::Text(TextCfg::IdIndexed)
    } else if k == "aspect-ratio"@ {
        CfgKind::Float(FloatCfg::AspectRatio)
    } else if k == "width-grow"@ {
        CfgKind::Bare(0u8)
    } else if k == "width-grow-min"@ {
        CfgKind::Min(0u8)
    } else if k == "width-grow-max"@ {
        CfgKind::Max(0u8)
    } else if k == "height-grow"@ {
        CfgKind::Bare(1u8)
    } else if k == "height-grow-min"@ {
        CfgKind::Min(1u8)
    } else if k == "height-grow-max"@ {
        CfgKind::Max(1u8)
    } else if k == "width-fit"@ {
        CfgKind::Bare(2u8)
    } else if k == "width-fit-min"@ {
        CfgKind::Min(2u8)
    } else if k == "width-fit-max"@ {
        CfgKind::Max(2u8)
    } else if k == "height-fit"@ {
        CfgKind::Bare(3u8)
    } else if k == "height-fit-min"@ {
        CfgKind::Min(3u8)
    } else if k == "height-fit-max"@ {
        CfgKind::Max(3u8)
    } else if k == "width-fixed"@ {
        CfgKind::Float(FloatCfg::FixedX)
    } else if k == "height-fixed"@ {
        CfgKind::Float(FloatCfg::FixedY)
    } else if k == "fixed-square"@ {
        CfgKind::Float(FloatCfg::FixedSquare)
    } else if k == "width-percent"@ {
        CfgKind::Float(FloatCfg::PercentX)
    } else if k == "height-percent"@ {
        CfgKind::Float(FloatCfg::PercentY)
    } else if k == "padding-all"@ {
        CfgKind::U16(U16Cfg::PaddingAll)
    } else if k == "padding-top"@ {
        CfgKind::U16(U16Cfg::PaddingTop)
    } else if k == "padding-right"@ {
        CfgKind::U16(U16Cfg::PaddingRight)
    } else if k == "padding-bottom"@ {
        CfgKind::U16(U16Cfg::PaddingBottom)
    } else if k == "padding-left"@ {
        CfgKind::U16(U16Cfg::PaddingLeft)
    } else if k == "child-gap"@ {
        CfgKind::U16(U16Cfg::ChildGap)
    } else if k == "vertical"@ {
        CfgKind::Flag(FlagCfg::Vertical)
    } else if k == "horizontal"@ {
        CfgKind::Flag(FlagCfg::Horizontal)
    } else if k == "align-children-x"@ {
        CfgKind::Words(WordCfg::AlignChildrenX)
    } else if k == "align-children-y"@ {
        CfgKind::Words(WordCfg::AlignChildrenY)
    } else if k == "color"@ {
        CfgKind::Text(TextCfg::Color)
    } else if k == "shader"@ {
        CfgKind::Shader
    } else if lists_word(spec_shader_param_keywords(), k) {
        CfgKind::ShaderParam
    } else if lists_word(spec_shape_param_keywords(), k) {
        CfgKind::ShapeParam
    } else if k == "radius-all"@ {
        CfgKind::Float(FloatCfg::RadiusAll)
    } else if k == "radius-top-left"@ {
        CfgKind::Float(FloatCfg::RadiusTopLeft)
    } else if k == "radius-top-right"@ {
        CfgKind::Float(FloatCfg::RadiusTopRight)
    } else if k == "radius-bottom-left"@ {
        CfgKind::Float(FloatCfg::RadiusBottomLeft)
    } else if k == "radius-bottom-right"@ {
        CfgKind::Float(FloatCfg::RadiusBottomRight)
    } else if k == "border-color"@ {
        CfgKind::Text(TextCfg::BorderColor)
    } else if k == "border-all"@ {
        CfgKind::U16(U16Cfg::BorderAll)
    } else if k == "border-top"@ {
        CfgKind::U16(U16Cfg::BorderTop)
    } else if k == "border-left"@ {
        CfgKind::U16(U16Cfg::BorderLeft)
    } else if k == "border-bottom"@ {
        CfgKind::U16(U16Cfg::BorderBottom)
    } else if k == "border-right"@ {
        CfgKind::U16(U16Cfg::BorderRight)
    } else if k == "border-in-between"@ {
        CfgKind::U16(U16Cfg::BorderBetweenChildren)
    } else if k == "scroll-horizontal"@ {
        CfgKind::Scroll(true)
    } else if k == "scroll-vertical"@ {
        CfgKind::Scroll(false)
    } else if k == "image"@ {
        CfgKind::Image
    } else if k == "floating"@ {
        CfgKind::Floating
    } else if k == "clip-to-parent"@ {
        CfgKind::Flag(FlagCfg::ClipToParent)
    } else if k == "no-clip"@ {
        CfgKind::Flag(FlagCfg::NoClip)
    } else if k == "pointer-capture"@ {
        CfgKind::Flag(FlagCfg::PointerCapture)
    } else if k == "pointer-pass-through"@ {
        CfgKind::Flag(FlagCfg::PointerPassThrough)
    } else if k == "attach-root"@ {
        CfgKind::Flag(FlagCfg::AttachRoot)
    } else if k == "z-index"@ {
        CfgKind::ZIndex
    } else if k == "floating-dimensions-width"@ {
        CfgKind::Slot(2u8)
    } else if k == "floating-dimensions-height"@ {
        CfgKind::Slot(3u8)
    } else if k == "use"@ {
        CfgKind::Use
    } else if k == "hovered"@ {
        CfgKind::Gate(Gate::Hovered)
    } else if k == "unhovered"@ {
        CfgKind::Gate(Gate::UnHovered)
    } else if k == "hover"@ {
        CfgKind::Gate(Gate::Hover)
    } else if k == "focused"@ {
        CfgKind::Gate(Gate::Focused)
    } else if k == "unfocused"@ {
        CfgKind::Gate(Gate::UnFocused)
    } else if k == "focus"@ {
        CfgKind::Gate(Gate::Focus)
    } else if k == "key-event"@ {
        CfgKind::Gate(Gate::KeyEvent)
    } else if k == "left-pressed"@ {
        CfgKind::Gate(Gate::LeftPressed)
    } else if k == "left-down"@ {
        CfgKind::Gate(Gate::LeftDown)
    } else if k == "left-released"@ {
        CfgKind::Gate(Gate::LeftReleased)
    } else if k == "left-clicked"@ {
        CfgKind::Gate(Gate::LeftClicked)
    } else if k == "left-dbl-clicked"@ {
        CfgKind::Gate(Gate::LeftDoubleClicked)
    } else if k == "left-tpl-clicked"@ {
        CfgKind::Gate(Gate::LeftTripleClicked)
    } else if k == "right-pressed"@ {
        CfgKind::Gate(Gate::RightPressed)
    } else if k == "right-down"@ {
        CfgKind::Gate(Gate::RightDown)
    } else if k == "right-released"@ {
        CfgKind::Gate(Gate::RightReleased)
    } else if k == "right-clicked"@ {
        CfgKind::Gate(Gate::RightClicked)
    } else if k == "pointer"@ {
        CfgKind::Words(WordCfg::Pointer)
    } else if k == "font-id"@ {
        CfgKind::U16(U16Cfg::FontId)
    } else if k == "font-size"@ {
        CfgKind::U16(U16Cfg::FontSize)
    } else if k == "align"@ {
        CfgKind::Words(WordCfg::Align)
    } else if k == "line-height"@ {
        CfgKind::U16(U16Cfg::LineHeight)
    } else if k == "letter-spacing"@ {
        CfgKind::U16(U16Cfg::LetterSpacing)
    } else if k == "wrap"@ {
        CfgKind::Words(WordCfg::Wrap)
    } else if k == "font-color"@ {
        CfgKind::Text(TextCfg::FontColor)
    } else if k == "offset-x"@ {
        CfgKind::Slot(0u8)
    } else if k == "offset-y"@ {
        CfgKind::Slot(1u8)
    } else if k == "attatch-parent"@ {
        CfgKind::Words(WordCfg::AttachParent)
    } else if k == "attach-self"@ {
        CfgKind::Words(WordCfg::AttachSelf)
    } else {
        CfgKind::Other
    }
}

/// What the configuration keyword `k` does.
pub fn cfg_kind_of(k: &str) -> (r: CfgKind)
    ensures
        r == cfg_kind(k@),
{
    let kc = chars_of(k);

    if str_eq(k, "grow") {
        CfgKind::Flag(FlagCfg::GrowAll)
    } else if str_eq(k, "fit") {
        CfgKind::Flag(FlagCfg::FitAll)
    } else if str_eq(k, "id-indexed") {
        CfgKind::Text(TextCfg::IdIndexed)
    } else if str_eq(k, "aspect-ratio") {
        CfgKind::Float(FloatCfg::AspectRatio)
    } else if str_eq(k, "width-grow") {
        CfgKind::Bare(0)
    } else if str_eq(k, "width-grow-min") {
        CfgKind::Min(0)
    } else if str_eq(k, "width-grow-max") {
        CfgKind::Max(0)
    } else if str_eq(k, "height-grow") {
        CfgKind::Bare(1)
    } else if str_eq(k, "height-grow-min") {
        CfgKind::Min(1)
    } else if str_eq(k, "height-grow-max") {
        CfgKind::Max(1)
    } else if str_eq(k, "width-fit") {
        CfgKind::Bare(2)
    } else if str_eq(k, "width-fit-min") {
        CfgKind::Min(2)
    } else if str_eq(k, "width-fit-max") {
        CfgKind::Max(2)
    } else if str_eq(k, "height-fit") {
        CfgKind::Bare(3)
    } else if str_eq(k, "height-fit-min") {
        CfgKind::Min(3)
    } else if str_eq(k, "height-fit-max") {
        CfgKind::Max(3)
    } else if str_eq(k, "width-fixed") {
        CfgKind::Float(FloatCfg::FixedX)
    } else if str_eq(k, "height-fixed") {
        CfgKind::Float(FloatCfg::FixedY)
    } else if str_eq(k, "fixed-square") {
        CfgKind::Float(FloatCfg::FixedSquare)
    } else if str_eq(k, "width-percent") {
        CfgKind::Float(FloatCfg::PercentX)
    } else if str_eq(k, "height-percent") {
        CfgKind::Float(FloatCfg::PercentY)
    } else if str_eq(k, "padding-all") {
        CfgKind::U16(U16Cfg::PaddingAll)
    } else if str_eq(k, "padding-top") {
        CfgKind::U16(U16Cfg::PaddingTop)
    } else if str_eq(k, "padding-right") {
        CfgKind::U16(U16Cfg::PaddingRight)
    } else if str_eq(k, "padding-bottom") {
        CfgKind::U16(U16Cfg::PaddingBottom)
    } else if str_eq(k, "padding-left") {
        CfgKind::U16(U16Cfg::PaddingLeft)
    } else if str_eq(k, "child-gap") {
        CfgKind::U16(U16Cfg::ChildGap)
    } else if str_eq(k, "vertical") {
        CfgKind::Flag(FlagCfg::Vertical)
    } else if str_eq(k, "horizontal") {
        CfgKind::Flag(FlagCfg::Horizontal)
    } else if str_eq(k, "align-children-x") {
        CfgKind::Words(WordCfg::AlignChildrenX)
    } else if str_eq(k, "align-children-y") {
        CfgKind::Words(WordCfg::AlignChildrenY)
    } else if str_eq(k, "color") {
        CfgKind::Text(TextCfg::Color)
    } else if str_eq(k, "shader") {
        CfgKind::Shader
    } else if list_contains(&shader_param_keywords(), kc.as_slice()) {
        CfgKind::ShaderParam
    } else if list_contains(&shape_param_keywords(), kc.as_slice()) {
        CfgKind::ShapeParam
    } else if str_eq(k, "radius-all") {
        CfgKind::Float(FloatCfg::RadiusAll)
    } else if str_eq(k, "radius-top-left") {
        CfgKind::Float(FloatCfg::RadiusTopLeft)
    } else if str_eq(k, "radius-top-right") {
        CfgKind::Float(FloatCfg::RadiusTopRight)
    } else if str_eq(k, "radius-bottom-left") {
        CfgKind::Float(FloatCfg::RadiusBottomLeft)
    } else if str_eq(k, "radius-bottom-right") {
        CfgKind::Float(FloatCfg::RadiusBottomRight)
    } else if str_eq(k, "border-color") {
        CfgKind::Text(TextCfg::BorderColor)
    } else if str_eq(k, "border-all") {
        CfgKind::U16(U16Cfg::BorderAll)
    } else if str_eq(k, "border-top") {
        CfgKind::U16(U16Cfg::BorderTop)
    } else if str_eq(k, "border-left") {
        CfgKind::U16(U16Cfg::BorderLeft)
    } else if str_eq(k, "border-bottom") {
        CfgKind::U16(U16Cfg::BorderBottom)
    } else if str_eq(k, "border-right") {
        CfgKind::U16(U16Cfg::BorderRight)
    } else if str_eq(k, "border-in-between") {
        CfgKind::U16(U16Cfg::BorderBetweenChildren)
    } else if str_eq(k, "scroll-horizontal") {
        CfgKind::Scroll(true)
    } else if str_eq(k, "scroll-vertical") {
        CfgKind::Scroll(false)
    } else if str_eq(k, "image") {
        CfgKind::Image
    } else if str_eq(k, "floating") {
        CfgKind::Floating
    } else if str_eq(k, "clip-to-parent") {
        CfgKind::Flag(FlagCfg::ClipToParent)
    } else if str_eq(k, "no-clip") {
        CfgKind::Flag(FlagCfg::NoClip)
    } else if str_eq(k, "pointer-capture") {
        CfgKind::Flag(FlagCfg::PointerCapture)
    } else if str_eq(k, "pointer-pass-through") {
        CfgKind::Flag(FlagCfg::PointerPassThrough)
    } else if str_eq(k, "attach-root") {
        CfgKind::Flag(FlagCfg::AttachRoot)
    } else if str_eq(k, "z-index") {
        CfgKind::ZIndex
    } else if str_eq(k, "floating-dimensions-width") {
        CfgKind::Slot(2)
    } else if str_eq(k, "floating-dimensions-height") {
        CfgKind::Slot(3)
    } else if str_eq(k, "use") {
        CfgKind::Use
    } else if str_eq(k, "hovered") {
        CfgKind::Gate(Gate::Hovered)
    } else if str_eq(k, "unhovered") {
        CfgKind::Gate(Gate::UnHovered)
    } else if str_eq(k, "hover") {
        CfgKind::Gate(Gate::Hover)
    } else if str_eq(k, "focused") {
        CfgKind::Gate(Gate::Focused)
    } else if str_eq(k, "unfocused") {
        CfgKind::Gate(Gate::UnFocused)
    } else if str_eq(k, "focus") {
        CfgKind::Gate(Gate::Focus)
    } else if str_eq(k, "key-event") {
        CfgKind::Gate(Gate::KeyEvent)
    } else if str_eq(k, "left-pressed") {
        CfgKind::Gate(Gate::LeftPressed)
    } else if str_eq(k, "left-down") {
        CfgKind::Gate(Gate::LeftDown)
    } else if str_eq(k, "left-released") {
        CfgKind::Gate(Gate::LeftReleased)
    } else if str_eq(k, "left-clicked") {
        CfgKind::Gate(Gate::LeftClicked)
    } else if str_eq(k, "left-dbl-clicked") {
        CfgKind::Gate(Gate::LeftDoubleClicked)
    } else if str_eq(k, "left-tpl-clicked") {
        CfgKind::Gate(Gate::LeftTripleClicked)
    } else if str_eq(k, "right-pressed") {
        CfgKind::Gate(Gate::RightPressed)
    } else if str_eq(k, "right-down") {
        CfgKind::Gate(Gate::RightDown)
    } else if str_eq(k, "right-released") {
        CfgKind::Gate(Gate::RightReleased)
    } else if str_eq(k, "right-clicked") {
        CfgKind::Gate(Gate::RightClicked)
    } else if str_eq(k, "pointer") {
        CfgKind::Words(WordCfg::Pointer)
    } else if str_eq(k, "font-id") {
        CfgKind::U16(U16Cfg::FontId)
    } else if str_eq(k, "font-size") {
        CfgKind::U16(U16Cfg::FontSize)
    } else if str_eq(k, "align") {
        CfgKind::Words(WordCfg::Align)
    } else if str_eq(k, "line-height") {
        CfgKind::U16(U16Cfg::LineHeight)
    } else if str_eq(k, "letter-spacing") {
        CfgKind::U16(U16Cfg::LetterSpacing)
    } else if str_eq(k, "wrap") {
        CfgKind::Words(WordCfg::Wrap)
    } else if str_eq(k, "font-color") {
        CfgKind::Text(TextCfg::FontColor)
    } else if str_eq(k, "offset-x") {
        CfgKind::Slot(0)
    } else if str_eq(k, "offset-y") {
        CfgKind::Slot(1)
    } else if str_eq(k, "attatch-parent") {
        CfgKind::Words(WordCfg::AttachParent)
    } else if str_eq(k, "attach-self") {
        CfgKind::Words(WordCfg::AttachSelf)
    } else {
        CfgKind::Other
    }
}

/// The command a FlagCfg keyword emits.
pub open spec fn flag_config(f: FlagCfg) -> ConfigV {
    match f {
        FlagCfg::GrowAll => ConfigV::GrowAll,
        FlagCfg::FitAll => ConfigV::FitAll,
        FlagCfg::Vertical => ConfigV::Vertical,
        FlagCfg::Horizontal => ConfigV::Horizontal,
        FlagCfg::ClipToParent => ConfigV::FloatingClipToParent,
        FlagCfg::NoClip => ConfigV::FloatingNoClip,
        FlagCfg::PointerCapture => ConfigV::FloatingPointerCapture,
        FlagCfg::PointerPassThrough => ConfigV::FloatingPointerPassThrough,
        FlagCfg::AttachRoot => ConfigV::FloatingAttachElementToRoot,
    }
}

fn flag_config_exec(f: FlagCfg) -> (r: Config)
    ensures
        r.deep_view() == flag_config(f),
{
    match f {
        FlagCfg::GrowAll => Config::GrowAll,
        FlagCfg::FitAll => Config::FitAll,
        FlagCfg::Vertical => Config::Vertical,
        FlagCfg::Horizontal => Config::Horizontal,
        FlagCfg::ClipToParent => Config::FloatingClipToParent,
        FlagCfg::NoClip => Config::FloatingNoClip,
        FlagCfg::PointerCapture => Config::FloatingPointerCapture,
        FlagCfg::PointerPassThrough => Config::FloatingPointerPassThrough,
        FlagCfg::AttachRoot => Config::FloatingAttachElementToRoot,
    }
}

/// The command a TextCfg keyword emits.
pub open spec fn text_config(f: TextCfg, v: DataSrcV<Seq<char>>) -> ConfigV {
    match f {
        TextCfg::IdIndexed => ConfigV::IdIndexed(v),
        TextCfg::Color => ConfigV::Color(v),
        TextCfg::BorderColor => ConfigV::BorderColor(v),
        TextCfg::FontColor => ConfigV::FontColor(v),
    }
}

fn text_config_exec(f: TextCfg, v: DataSrc<String>) -> (r: Config)
    ensures
        r.deep_view() == text_config(f, v.deep_view()),
{
    match f {
        TextCfg::IdIndexed => Config::IdIndexed(v),
        TextCfg::Color => Config::Color(v),
        TextCfg::BorderColor => Config::BorderColor(v),
        TextCfg::FontColor => Config::FontColor(v),
    }
}

/// The command a FloatCfg keyword emits.
pub open spec fn float_config(f: FloatCfg, v: DataSrcV<Seq<char>>) -> ConfigV {
    match f {
        FloatCfg::AspectRatio => ConfigV::AspectRatio(v),
        FloatCfg::FixedX => ConfigV::FixedX(v),
        FloatCfg::FixedY => ConfigV::FixedY(v),
        FloatCfg::FixedSquare => ConfigV::FixedSquare(v),
        FloatCfg::PercentX => ConfigV::PercentX(v),
        FloatCfg::PercentY => ConfigV::PercentY(v),
        FloatCfg::RadiusAll => ConfigV::RadiusAll(v),
        FloatCfg::RadiusTopLeft => ConfigV::RadiusTopLeft(v),
        FloatCfg::RadiusTopRight => ConfigV::RadiusTopRight(v),
        FloatCfg::RadiusBottomLeft => ConfigV::RadiusBottomLeft(v),
        FloatCfg::RadiusBottomRight => ConfigV::RadiusBottomRight(v),
    }
}

fn float_config_exec(f: FloatCfg, v: DataSrc<String>) -> (r: Config)
    ensures
        r.deep_view() == float_config(f, v.deep_view()),
{
    match f {
        FloatCfg::AspectRatio => Config::AspectRatio(v),
        FloatCfg::FixedX => Config::FixedX(v),
        FloatCfg::FixedY => Config::FixedY(v),
        FloatCfg::FixedSquare => Config::FixedSquare(v),
        FloatCfg::PercentX => Config::PercentX(v),
        FloatCfg::PercentY => Config::PercentY(v),
        FloatCfg::RadiusAll => Config::RadiusAll(v),
        FloatCfg::RadiusTopLeft => Config::RadiusTopLeft(v),
        FloatCfg::RadiusTopRight => Config::RadiusTopRight(v),
        FloatCfg::RadiusBottomLeft => Config::RadiusBottomLeft(v),
        FloatCfg::RadiusBottomRight => Config::RadiusBottomRight(v),
    }
}

/// The command a U16Cfg keyword emits.
pub open spec fn u16_config(f: U16Cfg, v: DataSrcV<u16>) -> ConfigV {
    match f {
        U16Cfg::PaddingAll => ConfigV::PaddingAll(v),
        U16Cfg::PaddingTop => ConfigV::PaddingTop(v),
        U16Cfg::PaddingRight => ConfigV::PaddingRight(v),
        U16Cfg::PaddingBottom => ConfigV::PaddingBottom(v),
        U16Cfg::PaddingLeft => ConfigV::PaddingLeft(v),
        U16Cfg::ChildGap => ConfigV::ChildGap(v),
        U16Cfg::BorderAll => ConfigV::BorderAll(v),
        U16Cfg::BorderTop => ConfigV::BorderTop(v),
        U16Cfg::BorderLeft => ConfigV::BorderLeft(v),
        U16Cfg::BorderBottom => ConfigV::BorderBottom(v),
        U16Cfg::BorderRight => ConfigV::BorderRight(v),
        U16Cfg::BorderBetweenChildren => ConfigV::BorderBetweenChildren(v),
        U16Cfg::FontId => ConfigV::FontId(v),
        U16Cfg::FontSize => ConfigV::FontSize(v),
        U16Cfg::LineHeight => ConfigV::LineHeight(v),
        U16Cfg::LetterSpacing => ConfigV::LetterSpacing(v),
    }
}

fn u16_config_exec(f: U16Cfg, v: DataSrc<u16>) -> (r: Config)
    ensures
        r.deep_view() == u16_config(f, v.deep_view()),
{
    match f {
        U16Cfg::PaddingAll => Config::PaddingAll(v),
        U16Cfg::PaddingTop => Config::PaddingTop(v),
        U16Cfg::PaddingRight => Config::PaddingRight(v),
        U16Cfg::PaddingBottom => Config::PaddingBottom(v),
        U16Cfg::PaddingLeft => Config::PaddingLeft(v),
        U16Cfg::ChildGap => Config::ChildGap(v),
        U16Cfg::BorderAll => Config::BorderAll(v),
        U16Cfg::BorderTop => Config::BorderTop(v),
        U16Cfg::BorderLeft => Config::BorderLeft(v),
        U16Cfg::BorderBottom => Config::BorderBottom(v),
        U16Cfg::BorderRight => Config::BorderRight(v),
        U16Cfg::BorderBetweenChildren => Config::BorderBetweenChildren(v),
        U16Cfg::FontId => Config::FontId(v),
        U16Cfg::FontSize => Config::FontSize(v),
        U16Cfg::LineHeight => Config::LineHeight(v),
        U16Cfg::LetterSpacing => Config::LetterSpacing(v),
    }
}

/// The command a word argument selects, if it is one of the keyword's words.
pub open spec fn word_layout(w: WordCfg, word: Seq<char>) -> Option<LayoutV> {
    match w {
        WordCfg::AlignChildrenX => if word == "left"@ {
            Some(LayoutV::Config(ConfigV::ChildAlignmentXLeft))
        } else if word == "right"@ {
            Some(LayoutV::Config(ConfigV::ChildAlignmentXRight))
        } else if word == "center"@ {
            Some(LayoutV::Config(ConfigV::ChildAlignmentXCenter))
        } else {
            None
        },
        WordCfg::AlignChildrenY => if word == "top"@ {
            Some(LayoutV::Config(ConfigV::ChildAlignmentYTop))
        } else if word == "bottom"@ {
            Some(LayoutV::Config(ConfigV::ChildAlignmentYBottom))
        } else if word == "center"@ {
            Some(LayoutV::Config(ConfigV::ChildAlignmentYCenter))
        } else {
            None
        },
        WordCfg::Pointer => if word == "standard"@ {
            Some(LayoutV::Element(ElementV::Pointer(CursorIcon::Default)))
        } else if word == "resize-horizontal"@ {
            Some(LayoutV::Element(ElementV::Pointer(CursorIcon::EwResize)))
        } else {
            None
        },
        WordCfg::Align => if word == "left"@ {
            Some(LayoutV::Config(ConfigV::AlignLeft))
        } else if word == "center"@ {
            Some(LayoutV::Config(ConfigV::AlignCenter))
        } else if word == "right"@ {
            Some(LayoutV::Config(ConfigV::AlignRight))
        } else {
            None
        },
        WordCfg::Wrap => if word == "words"@ {
            Some(LayoutV::Config(ConfigV::WrapWords))
        } else if word == "lines"@ {
            Some(LayoutV::Config(ConfigV::WrapNewLines))
        } else if word == "none"@ {
            Some(LayoutV::Config(ConfigV::WrapNone))
        } else {
            None
        },
        WordCfg::AttachParent => if word == "top-left"@ {
            Some(LayoutV::Config(ConfigV::FloatingAttatchToParentAtTopLeft))
        } else if word == "center-left"@ {
            Some(LayoutV::Config(ConfigV::FloatingAttatchToParentAtCenterLeft))
        } else if word == "bottom-left"@ {
            Some(LayoutV::Config(ConfigV::FloatingAttatchToParentAtBottomLeft))
        } else if word == "top-center"@ {
            Some(LayoutV::Config(ConfigV::FloatingAttatchToParentAtTopCenter))
        } else if word == "center"@ {
            Some(LayoutV::Config(ConfigV::FloatingAttatchToParentAtCenter))
        } else if word == "bottom-center"@ {
            Some(LayoutV::Config(ConfigV::FloatingAttatchToParentAtBottomCenter))
        } else if word == "top-right"@ {
            Some(LayoutV::Config(ConfigV::FloatingAttatchToParentAtTopRight))
        } else if word == "center-right"@ {
            Some(LayoutV::Config(ConfigV::FloatingAttatchToParentAtCenterRight))
        } else if word == "bottom-right"@ {
            Some(LayoutV::Config(ConfigV::FloatingAttatchToParentAtBottomRight))
        } else {
            None
        },
        WordCfg::AttachSelf => if word == "top-left"@ {
            Some(LayoutV::Config(ConfigV::FloatingAttatchElementAtTopLeft))
        } else if word == "center-left"@ {
            Some(LayoutV::Config(ConfigV::FloatingAttatchElementAtCenterLeft))
        } else if word == "bottom-left"@ {
            Some(LayoutV::Config(ConfigV::FloatingAttatchElementAtBottomLeft))
        } else if word == "top-center"@ {
            Some(LayoutV::Config(ConfigV::FloatingAttatchElementAtTopCenter))
        } else if word == "center"@ {
            Some(LayoutV::Config(ConfigV::FloatingAttatchElementAtCenter))
        } else if word == "bottom-center"@ {
            Some(LayoutV::Config(ConfigV::FloatingAttatchElementAtBottomCenter))
        } else if word == "top-right"@ {
            Some(LayoutV::Config(ConfigV::FloatingAttatchElementAtTopRight))
        } else if word == "center-right"@ {
            Some(LayoutV::Config(ConfigV::FloatingAttatchElementAtCenterRight))
        } else if word == "bottom-right"@ {
            Some(LayoutV::Config(ConfigV::FloatingAttatchElementAtBottomRight))
        } else {
            None
        },
    }
}

/// The configuration keyword that writes the command `c`, for the commands
/// a keyword writes on its own (a flag, or one value after the keyword);
/// `None` for any other command.
pub open spec fn config_keyword(c: ConfigV) -> Option<Seq<char>> {
    match c {
        ConfigV::GrowAll => Some("grow"@),
        ConfigV::FitAll => Some("fit"@),
        ConfigV::Vertical => Some("vertical"@),
        ConfigV::Horizontal => Some("horizontal"@),
        ConfigV::FloatingClipToParent => Some("clip-to-parent"@),
        ConfigV::FloatingNoClip => Some("no-clip"@),
        ConfigV::FloatingPointerCapture => Some("pointer-capture"@),
        ConfigV::FloatingPointerPassThrough => Some("pointer-pass-through"@),
        ConfigV::FloatingAttachElementToRoot => Some("attach-root"@),
        ConfigV::IdIndexed(_) => Some("id-indexed"@),
        ConfigV::Color(_) => Some("color"@),
        ConfigV::BorderColor(_) => Some("border-color"@),
        ConfigV::FontColor(_) => Some("font-color"@),
        ConfigV::AspectRatio(_) => Some("aspect-ratio"@),
        ConfigV::FixedX(_) => Some("width-fixed"@),
        ConfigV::FixedY(_) => Some("height-fixed"@),
        ConfigV::FixedSquare(_) => Some("fixed-square"@),
        ConfigV::PercentX(_) => Some("width-percent"@),
        ConfigV::PercentY(_) => Some("height-percent"@),
        ConfigV::RadiusAll(_) => Some("radius-all"@),
        ConfigV::RadiusTopLeft(_) => Some("radius-top-left"@),
        ConfigV::RadiusTopRight(_) => Some("radius-top-right"@),
        ConfigV::RadiusBottomLeft(_) => Some("radius-bottom-left"@),
        ConfigV::RadiusBottomRight(_) => Some("radius-bottom-right"@),
        ConfigV::PaddingAll(_) => Some("padding-all"@),
        ConfigV::PaddingTop(_) => Some("padding-top"@),
        ConfigV::PaddingRight(_) => Some("padding-right"@),
        ConfigV::PaddingBottom(_) => Some("padding-bottom"@),
        ConfigV::PaddingLeft(_) => Some("padding-left"@),
        ConfigV::ChildGap(_) => Some("child-gap"@),
        ConfigV::BorderAll(_) => Some("border-all"@),
        ConfigV::BorderTop(_) => Some("border-top"@),
        ConfigV::BorderLeft(_) => Some("border-left"@),
        ConfigV::BorderBottom(_) => Some("border-bottom"@),
        ConfigV::BorderRight(_) => Some("border-right"@),
        ConfigV::BorderBetweenChildren(_) => Some("border-in-between"@),
        ConfigV::FontId(_) => Some("font-id"@),
        ConfigV::FontSize(_) => Some("font-size"@),
        ConfigV::LineHeight(_) => Some("line-height"@),
        ConfigV::LetterSpacing(_) => Some("letter-spacing"@),
        ConfigV::FloatingZIndex { .. } => Some("z-index"@),
        _ => None,
    }
}

/// The command `c` holds the argument written after its keyword in the
/// paragraph `p` (a flag holds none).
pub open spec fn config_carries(c: ConfigV, p: MdTree) -> bool {
    match c {
        ConfigV::IdIndexed(a) | ConfigV::Color(a) | ConfigV::BorderColor(a) | ConfigV::FontColor(a) => text_arg(p) == Some(a),
        ConfigV::AspectRatio(a) | ConfigV::FixedX(a) | ConfigV::FixedY(a) | ConfigV::FixedSquare(a) | ConfigV::PercentX(a) | ConfigV::PercentY(a) | ConfigV::RadiusAll(a) | ConfigV::RadiusTopLeft(a) | ConfigV::RadiusTopRight(a) | ConfigV::RadiusBottomLeft(a) | ConfigV::RadiusBottomRight(a) => float_arg(p) == Some(a),
        ConfigV::PaddingAll(a) | ConfigV::PaddingTop(a) | ConfigV::PaddingRight(a) | ConfigV::PaddingBottom(a) | ConfigV::PaddingLeft(a) | ConfigV::ChildGap(a) | ConfigV::BorderAll(a) | ConfigV::BorderTop(a) | ConfigV::BorderLeft(a) | ConfigV::BorderBottom(a) | ConfigV::BorderRight(a) | ConfigV::BorderBetweenChildren(a) | ConfigV::FontId(a) | ConfigV::FontSize(a) | ConfigV::LineHeight(a) | ConfigV::LetterSpacing(a) => u16_arg(p) == Some(a),
        ConfigV::FloatingZIndex { z } => i16_arg(p) == Some(z),
        _ => true,
    }
}

/// A keyword that writes a command on its own writes the command it names,
/// holding the argument written after it, or nothing where that argument is
/// missing; a flag always writes its command. Nothing else of the block
/// changes.
pub proof fn lemma_simple_keyword(p: MdTree, kw: Seq<char>, st: CfgSt)
    requires
        cfg_kind(kw) is Flag || cfg_kind(kw) is Text || cfg_kind(kw) is Float || cfg_kind(kw) is U16
            || cfg_kind(kw) is ZIndex,
    ensures
        ({
            let st1 = cfg_simple(p, kw, cfg_kind(kw), st);
            &&& st1.custom == st.custom
            &&& st1.ctx == st.ctx
            &&& st1.block == BlockV { out: st1.block.out, ..st.block }
            &&& st1.block.out != st.block.out ==> st1.block.out.drop_last() == st.block.out && (
            st1.block.out.last() matches LayoutV::Config(c) && config_keyword(c) == Some(kw) && config_carries(c, p))
            &&& cfg_kind(kw) is Flag ==> st1.block.out.len() == st.block.out.len() + 1
        }),
{
    reveal(cfg_simple);
    let st1 = cfg_simple(p, kw, cfg_kind(kw), st);
    if st1.block.out != st.block.out {
        assert(st1.block.out.drop_last() =~= st.block.out);
    }
}

/// The keyword and the word that select the command `l` among those chosen
/// by a word (an alignment, a pointer, a wrap mode, an attach point);
/// `None` for any other command.
pub open spec fn word_command(l: LayoutV) -> Option<(WordCfg, Seq<char>)> {
    match l {
        LayoutV::Config(ConfigV::ChildAlignmentXLeft) => Some((WordCfg::AlignChildrenX, "left"@)),
        LayoutV::Config(ConfigV::ChildAlignmentXRight) => Some((WordCfg::AlignChildrenX, "right"@)),
        LayoutV::Config(ConfigV::ChildAlignmentXCenter) => Some((WordCfg::AlignChildrenX, "center"@)),
        LayoutV::Config(ConfigV::ChildAlignmentYTop) => Some((WordCfg::AlignChildrenY, "top"@)),
        LayoutV::Config(ConfigV::ChildAlignmentYBottom) => Some((WordCfg::AlignChildrenY, "bottom"@)),
        LayoutV::Config(ConfigV::ChildAlignmentYCenter) => Some((WordCfg::AlignChildrenY, "center"@)),
        LayoutV::Element(ElementV::Pointer(CursorIcon::Default)) => Some((WordCfg::Pointer, "standard"@)),
        LayoutV::Element(ElementV::Pointer(CursorIcon::EwResize)) => Some((WordCfg::Pointer, "resize-horizontal"@)),
        LayoutV::Config(ConfigV::AlignLeft) => Some((WordCfg::Align, "left"@)),
        LayoutV::Config(ConfigV::AlignCenter) => Some((WordCfg::Align, "center"@)),
        LayoutV::Config(ConfigV::AlignRight) => Some((WordCfg::Align, "right"@)),
        LayoutV::Config(ConfigV::WrapWords) => Some((WordCfg::Wrap, "words"@)),
        LayoutV::Config(ConfigV::WrapNewLines) => Some((WordCfg::Wrap, "lines"@)),
        LayoutV::Config(ConfigV::WrapNone) => Some((WordCfg::Wrap, "none"@)),
        LayoutV::Config(ConfigV::FloatingAttatchToParentAtTopLeft) => Some((WordCfg::AttachParent, "top-left"@)),
        LayoutV::Config(ConfigV::FloatingAttatchToParentAtCenterLeft) => Some((WordCfg::AttachParent, "center-left"@)),
        LayoutV::Config(ConfigV::FloatingAttatchToParentAtBottomLeft) => Some((WordCfg::AttachParent, "bottom-left"@)),
        LayoutV::Config(ConfigV::FloatingAttatchToParentAtTopCenter) => Some((WordCfg::AttachParent, "top-center"@)),
        LayoutV::Config(ConfigV::FloatingAttatchToParentAtCenter) => Some((WordCfg::AttachParent, "center"@)),
        LayoutV::Config(ConfigV::FloatingAttatchToParentAtBottomCenter) => Some((WordCfg::AttachParent, "bottom-center"@)),
        LayoutV::Config(ConfigV::FloatingAttatchToParentAtTopRight) => Some((WordCfg::AttachParent, "top-right"@)),
        LayoutV::Config(ConfigV::FloatingAttatchToParentAtCenterRight) => Some((WordCfg::AttachParent, "center-right"@)),
        LayoutV::Config(ConfigV::FloatingAttatchToParentAtBottomRight) => Some((WordCfg::AttachParent, "bottom-right"@)),
        LayoutV::Config(ConfigV::FloatingAttatchElementAtTopLeft) => Some((WordCfg::AttachSelf, "top-left"@)),
        LayoutV::Config(ConfigV::FloatingAttatchElementAtCenterLeft) => Some((WordCfg::AttachSelf, "center-left"@)),
        LayoutV::Config(ConfigV::FloatingAttatchElementAtBottomLeft) => Some((WordCfg::AttachSelf, "bottom-left"@)),
        LayoutV::Config(ConfigV::FloatingAttatchElementAtTopCenter) => Some((WordCfg::AttachSelf, "top-center"@)),
        LayoutV::Config(ConfigV::FloatingAttatchElementAtCenter) => Some((WordCfg::AttachSelf, "center"@)),
        LayoutV::Config(ConfigV::FloatingAttatchElementAtBottomCenter) => Some((WordCfg::AttachSelf, "bottom-center"@)),
        LayoutV::Config(ConfigV::FloatingAttatchElementAtTopRight) => Some((WordCfg::AttachSelf, "top-right"@)),
        LayoutV::Config(ConfigV::FloatingAttatchElementAtCenterRight) => Some((WordCfg::AttachSelf, "center-right"@)),
        LayoutV::Config(ConfigV::FloatingAttatchElementAtBottomRight) => Some((WordCfg::AttachSelf, "bottom-right"@)),
        _ => None,
    }
}

/// What the words after the word-valued keywords are made of: enough of
/// each to tell any two of them apart.
pub proof fn lemma_config_words()
    ensures
        "bottom"@.len() == 6,
        "bottom"@[0] == 'b',
        "bottom-center"@.len() == 13,
        "bottom-left"@.len() == 11,
        "bottom-left"@[0] == 'b',
        "bottom-right"@.len() == 12,
        "bottom-right"@[0] == 'b',
        "center"@.len() == 6,
        "center"@[0] == 'c',
        "center-left"@.len() == 11,
        "center-left"@[0] == 'c',
        "center-right"@.len() == 12,
        "center-right"@[0] == 'c',
        "left"@.len() == 4,
        "left"@[0] == 'l',
        "lines"@.len() == 5,
        "lines"@[0] == 'l',
        "none"@.len() == 4,
        "none"@[0] == 'n',
        "resize-horizontal"@.len() == 17,
        "right"@.len() == 5,
        "right"@[0] == 'r',
        "standard"@.len() == 8,
        "standard"@[0] == 's',
        "top"@.len() == 3,
        "top-center"@.len() == 10,
        "top-left"@.len() == 8,
        "top-left"@[0] == 't',
        "top-right"@.len() == 9,
        "words"@.len() == 5,
        "words"@[0] == 'w',
{
    reveal_strlit("bottom");
    reveal_strlit("bottom-center");
    reveal_strlit("bottom-left");
    reveal_strlit("bottom-right");
    reveal_strlit("center");
    reveal_strlit("center-left");
    reveal_strlit("center-right");
    reveal_strlit("left");
    reveal_strlit("lines");
    reveal_strlit("none");
    reveal_strlit("resize-horizontal");
    reveal_strlit("right");
    reveal_strlit("standard");
    reveal_strlit("top");
    reveal_strlit("top-center");
    reveal_strlit("top-left");
    reveal_strlit("top-right");
    reveal_strlit("words");
}

/// A word-valued keyword emits the command its word names and no other: the
/// command for the keyword `w` and the word `word` is `l` exactly when `l` is
/// the command that `w` selects with `word` (`align-children-x left` is
/// the left child alignment, `right` the right one, and so on), and a word
/// that names no command emits nothing.
pub proof fn lemma_word_layout(w: WordCfg, word: Seq<char>, l: LayoutV)
    ensures
        word_layout(w, word) == Some(l) <==> word_command(l) == Some((w, word)),
        word_layout(w, word) is None <==> forall|c: LayoutV| #[trigger] word_command(c) != Some((w, word)),
{
    lemma_config_words();
    if word_layout(w, word) is Some {
        let c = word_layout(w, word)->0;
        assert(word_command(c) == Some((w, word)));
    }
}

fn word_layout_exec(w: WordCfg, word: &str) -> (r: Option<Layout>)
    ensures
        r.deep_view() == word_layout(w, word@),
{
    match w {
        WordCfg::AlignChildrenX => if str_eq(word, "left") {
            Some(Layout::Config(Config::ChildAlignmentXLeft))
        } else if str_eq(word, "right") {
            Some(Layout::Config(Config::ChildAlignmentXRight))
        } else if str_eq(word, "center") {
            Some(Layout::Config(Config::ChildAlignmentXCenter))
        } else {
            None
        },
        WordCfg::AlignChildrenY => if str_eq(word, "top") {
            Some(Layout::Config(Config::ChildAlignmentYTop))
        } else if str_eq(word, "bottom") {
            Some(Layout::Config(Config::ChildAlignmentYBottom))
        } else if str_eq(word, "center") {
            Some(Layout::Config(Config::ChildAlignmentYCenter))
        } else {
            None
        },
        WordCfg::Pointer => if str_eq(word, "standard") {
            Some(Layout::Element(Element::Pointer(CursorIcon::Default)))
        } else if str_eq(word, "resize-horizontal") {
            Some(Layout::Element(Element::Pointer(CursorIcon::EwResize)))
        } else {
            None
        },
        WordCfg::Align => if str_eq(word, "left") {
            Some(Layout::Config(Config::AlignLeft))
        } else if str_eq(word, "center") {
            Some(Layout::Config(Config::AlignCenter))
        } else if str_eq(word, "right") {
            Some(Layout::Config(Config::AlignRight))
        } else {
            None
        },
        WordCfg::Wrap => if str_eq(word, "words") {
            Some(Layout::Config(Config::WrapWords))
        } else if str_eq(word, "lines") {
            Some(Layout::Config(Config::WrapNewLines))
        } else if str_eq(word, "none") {
            Some(Layout::Config(Config::WrapNone))
        } else {
            None
        },
        WordCfg::AttachParent => if str_eq(word, "top-left") {
            Some(Layout::Config(Config::FloatingAttatchToParentAtTopLeft))
        } else if str_eq(word, "center-left") {
            Some(Layout::Config(Config::FloatingAttatchToParentAtCenterLeft))
        } else if str_eq(word, "bottom-left") {
            Some(Layout::Config(Config::FloatingAttatchToParentAtBottomLeft))
        } else if str_eq(word, "top-center") {
            Some(Layout::Config(Config::FloatingAttatchToParentAtTopCenter))
        } else if str_eq(word, "center") {
            Some(Layout::Config(Config::FloatingAttatchToParentAtCenter))
        } else if str_eq(word, "bottom-center") {
            Some(Layout::Config(Config::FloatingAttatchToParentAtBottomCenter))
        } else if str_eq(word, "top-right") {
            Some(Layout::Config(Config::FloatingAttatchToParentAtTopRight))
        } else if str_eq(word, "center-right") {
            Some(Layout::Config(Config::FloatingAttatchToParentAtCenterRight))
        } else if str_eq(word, "bottom-right") {
            Some(Layout::Config(Config::FloatingAttatchToParentAtBottomRight))
        } else {
            None
        },
        WordCfg::AttachSelf => if str_eq(word, "top-left") {
            Some(Layout::Config(Config::FloatingAttatchElementAtTopLeft))
        } else if str_eq(word, "center-left") {
            Some(Layout::Config(Config::FloatingAttatchElementAtCenterLeft))
        } else if str_eq(word, "bottom-left") {
            Some(Layout::Config(Config::FloatingAttatchElementAtBottomLeft))
        } else if str_eq(word, "top-center") {
            Some(Layout::Config(Config::FloatingAttatchElementAtTopCenter))
        } else if str_eq(word, "center") {
            Some(Layout::Config(Config::FloatingAttatchElementAtCenter))
        } else if str_eq(word, "bottom-center") {
            Some(Layout::Config(Config::FloatingAttatchElementAtBottomCenter))
        } else if str_eq(word, "top-right") {
            Some(Layout::Config(Config::FloatingAttatchElementAtTopRight))
        } else if str_eq(word, "center-right") {
            Some(Layout::Config(Config::FloatingAttatchElementAtCenterRight))
        } else if str_eq(word, "bottom-right") {
            Some(Layout::Config(Config::FloatingAttatchElementAtBottomRight))
        } else {
            None
        },
    }
}

/// The command that opens an event block of kind `g`.
pub open spec fn gate_open(g: Gate, ev: Option<DataSrcV<Seq<char>>>) -> ElementV {
    match g {
        Gate::Hovered => ElementV::HoveredOpened { event: ev },
        Gate::UnHovered => ElementV::UnHoveredOpened { event: ev },
        Gate::Hover => ElementV::HoverOpened { event: ev },
        Gate::Focused => ElementV::FocusedOpened { event: ev },
        Gate::UnFocused => ElementV::UnFocusedOpened { event: ev },
        Gate::Focus => ElementV::FocusOpened { event: ev },
        Gate::KeyEvent => ElementV::KeyEventOpened { event: ev },
        Gate::LeftPressed => ElementV::LeftPressedOpened { event: ev },
        Gate::LeftDown => ElementV::LeftDownOpened { event: ev },
        Gate::LeftReleased => ElementV::LeftReleasedOpened { event: ev },
        Gate::LeftClicked => ElementV::LeftClickedOpened { event: ev },
        Gate::LeftDoubleClicked => ElementV::LeftDoubleClickedOpened { event: ev },
        Gate::LeftTripleClicked => ElementV::LeftTripleClickedOpened { event: ev },
        Gate::RightPressed => ElementV::RightPressedOpened { event: ev },
        Gate::RightDown => ElementV::RightDownOpened { event: ev },
        Gate::RightReleased => ElementV::RightReleasedOpened { event: ev },
        Gate::RightClicked => ElementV::RightClickedOpened { event: ev },
    }
}

fn gate_open_exec(g: Gate, ev: Option<DataSrc<String>>) -> (r: Element)
    ensures
        r.deep_view() == gate_open(g, ev.deep_view()),
{
    match g {
        Gate::Hovered => Element::HoveredOpened { event: ev },
        Gate::UnHovered => Element::UnHoveredOpened { event: ev },
        Gate::Hover => Element::HoverOpened { event: ev },
        Gate::Focused => Element::FocusedOpened { event: ev },
        Gate::UnFocused => Element::UnFocusedOpened { event: ev },
        Gate::Focus => Element::FocusOpened { event: ev },
        Gate::KeyEvent => Element::KeyEventOpened { event: ev },
        Gate::LeftPressed => Element::LeftPressedOpened { event: ev },
        Gate::LeftDown => Element::LeftDownOpened { event: ev },
        Gate::LeftReleased => Element::LeftReleasedOpened { event: ev },
        Gate::LeftClicked => Element::LeftClickedOpened { event: ev },
        Gate::LeftDoubleClicked => Element::LeftDoubleClickedOpened { event: ev },
        Gate::LeftTripleClicked => Element::LeftTripleClickedOpened { event: ev },
        Gate::RightPressed => Element::RightPressedOpened { event: ev },
        Gate::RightDown => Element::RightDownOpened { event: ev },
        Gate::RightReleased => Element::RightReleasedOpened { event: ev },
        Gate::RightClicked => Element::RightClickedOpened { event: ev },
    }
}

/// The command that closes an event block of kind `g`.
pub open spec fn gate_close(g: Gate) -> ElementV {
    match g {
        Gate::Hovered => ElementV::HoveredClosed,
        Gate::UnHovered => ElementV::UnHoveredClosed,
        Gate::Hover => ElementV::HoverClosed,
        Gate::Focused => ElementV::FocusedClosed,
        Gate::UnFocused => ElementV::UnFocusedClosed,
        Gate::Focus => ElementV::FocusClosed,
        Gate::KeyEvent => ElementV::KeyEventClosed,
        Gate::LeftPressed => ElementV::LeftPressedClosed,
        Gate::LeftDown => ElementV::LeftDownClosed,
        Gate::LeftReleased => ElementV::LeftReleasedClosed,
        Gate::LeftClicked => ElementV::LeftClickedClosed,
        Gate::LeftDoubleClicked => ElementV::LeftDoubleClickedClosed,
        Gate::LeftTripleClicked => ElementV::LeftTripleClickedClosed,
        Gate::RightPressed => ElementV::RightPressedClosed,
        Gate::RightDown => ElementV::RightDownClosed,
        Gate::RightReleased => ElementV::RightReleasedClosed,
        Gate::RightClicked => ElementV::RightClickedClosed,
    }
}

fn gate_close_exec(g: Gate) -> (r: Element)
    ensures
        r.deep_view() == gate_close(g),
{
    match g {
        Gate::Hovered => Element::HoveredClosed,
        Gate::UnHovered => Element::UnHoveredClosed,
        Gate::Hover => Element::HoverClosed,
        Gate::Focused => Element::FocusedClosed,
        Gate::UnFocused => Element::UnFocusedClosed,
        Gate::Focus => Element::FocusClosed,
        Gate::KeyEvent => Element::KeyEventClosed,
        Gate::LeftPressed => Element::LeftPressedClosed,
        Gate::LeftDown => Element::LeftDownClosed,
        Gate::LeftReleased => Element::LeftReleasedClosed,
        Gate::LeftClicked => Element::LeftClickedClosed,
        Gate::LeftDoubleClicked => Element::LeftDoubleClickedClosed,
        Gate::LeftTripleClicked => Element::LeftTripleClickedClosed,
        Gate::RightPressed => Element::RightPressedClosed,
        Gate::RightDown => Element::RightDownClosed,
        Gate::RightReleased => Element::RightReleasedClosed,
        Gate::RightClicked => Element::RightClickedClosed,
    }
}
/// One grow/fit axis of a block: the bare keyword and its `-min` / `-max`
/// companions.
#[derive(Debug)]
pub struct Axis {
    pub bare: bool,
    pub min: Option<DataSrc<String>>,
    pub max: Option<DataSrc<String>>,
}

/// The model of an [`Axis`].
pub struct AxisV {
    pub bare: bool,
    pub min: Option<DataSrcV<Seq<char>>>,
    pub max: Option<DataSrcV<Seq<char>>>,
}

impl DeepView for Axis {
    type V = AxisV;

    open spec fn deep_view(&self) -> AxisV {
        AxisV { bare: self.bare, min: self.min.deep_view(), max: self.max.deep_view() }
    }
}

/// What a config block gathers over all its items.
#[derive(Debug)]
pub struct Block {
    pub out: Vec<Layout>,
    pub axes: Vec<Axis>,
    pub slots: Vec<Option<DataSrc<String>>>,
    pub scroll_h: bool,
    pub scroll_v: bool,
    pub shaders: Vec<ShaderSpec>,
}

/// The model of a [`Block`].
pub struct BlockV {
    pub out: Seq<LayoutV>,
    pub axes: Seq<AxisV>,
    pub slots: Seq<Option<DataSrcV<Seq<char>>>>,
    pub scroll_h: bool,
    pub scroll_v: bool,
    pub shaders: Seq<ShaderSpecV>,
}

impl DeepView for Block {
    type V = BlockV;

    open spec fn deep_view(&self) -> BlockV {
        BlockV {
            out: self.out.deep_view(),
            axes: self.axes.deep_view(),
            slots: self.slots.deep_view(),
            scroll_h: self.scroll_h,
            scroll_v: self.scroll_v,
            shaders: self.shaders.deep_view(),
        }
    }
}

/// A block before its first item.
pub open spec fn block_init() -> BlockV {
    BlockV {
        out: Seq::empty(),
        axes: Seq::new(4, |i: int| AxisV { bare: false, min: None, max: None }),
        slots: Seq::new(4, |i: int| None),
        scroll_h: false,
        scroll_v: false,
        shaders: Seq::empty(),
    }
}

/// The state while a config block is read: what it has gathered, the shape
/// its shape keywords change (if any) and the `calc` context.
pub struct CfgSt {
    pub block: BlockV,
    pub custom: Option<CustomElementSpecV>,
    pub ctx: CtxV,
}

/// `st` with `l` emitted.
pub open spec fn emit(st: CfgSt, l: LayoutV) -> CfgSt {
    CfgSt { block: BlockV { out: st.block.out.push(l), ..st.block }, ..st }
}

/// `st` with the commands `ls` emitted and the context `c`.
pub open spec fn emit_all(st: CfgSt, ls: Seq<LayoutV>, c: CtxV) -> CfgSt {
    CfgSt { block: BlockV { out: st.block.out + ls, ..st.block }, custom: st.custom, ctx: c }
}

/// `st` with axis `a` replaced by `ax`.
pub open spec fn with_axis(st: CfgSt, a: u8, ax: AxisV) -> CfgSt {
    CfgSt { block: BlockV { axes: st.block.axes.update(a as int, ax), ..st.block }, ..st }
}

/// `st` with slot `s` set to `v`.
pub open spec fn with_slot(st: CfgSt, s: u8, v: Option<DataSrcV<Seq<char>>>) -> CfgSt {
    CfgSt { block: BlockV { slots: st.block.slots.update(s as int, v), ..st.block }, ..st }
}

/// The first text child of `cs[j..]`, trimmed.
pub open spec fn first_text(cs: Seq<MdTree>, j: int) -> Option<Seq<char>>
    decreases cs.len() - j,
{
    if j < 0 || j >= cs.len() {
        None
    } else {
        match cs[j].kind {
            MdKindV::Text(t) => Some(trim(t)),
            _ => first_text(cs, j + 1),
        }
    }
}

/// The name a `shader` item gives, from `cs[k..]`: the first emphasis that
/// has a text child, or the first text that is not blank, trimmed.
pub open spec fn shader_name_from(cs: Seq<MdTree>, k: int) -> Option<Seq<char>>
    decreases cs.len() - k,
{
    if k < 0 || k >= cs.len() {
        None
    } else {
        match cs[k].kind {
            MdKindV::Emphasis => match first_text(cs[k].children, 0) {
                Some(n) => Some(n),
                None => shader_name_from(cs, k + 1),
            },
            MdKindV::Text(t) => if trim(t).len() > 0 {
                Some(trim(t))
            } else {
                shader_name_from(cs, k + 1)
            },
            _ => shader_name_from(cs, k + 1),
        }
    }
}

/// The command an `image` item emits: a literal rectangle after an
/// emphasised atlas name, else a lookup of the name (emphasised, or written
/// bare).
pub open spec fn image_config(p: MdTree) -> Option<ConfigV> {
    let emphasis_name = trim_opt(emph_text(child(p, 2)));
    let bare_name = match text_of(child(p, 1)) {
        Some(t) => if trim(t).len() > 0 {
            Some(trim(t))
        } else {
            None
        },
        None => None,
    };
    let name = match emphasis_name {
        Some(n) => Some(n),
        None => bare_name,
    };
    match name {
        Some(n) => match uv_of(child(p, 3)) {
            Some(ps) => Some(
                ConfigV::ImageLiteral(
                    ImageDescriptorV { atlas: n, u1: ps[0], v1: ps[1], u2: ps[2], v2: ps[3] },
                ),
            ),
            None => Some(ConfigV::Image { name: trim(n) }),
        },
        None => None,
    }
}

/// The command an axis emits at the end of its block, if any.
pub open spec fn axis_config(a: u8, ax: AxisV) -> Option<ConfigV> {
    match (ax.min, ax.max) {
        (Some(mn), Some(mx)) => Some(
            if a == 0 {
                ConfigV::GrowXminmax { min: mn, max: mx }
            } else if a == 1 {
                ConfigV::GrowYminmax { min: mn, max: mx }
            } else if a == 2 {
                ConfigV::FitXminmax { min: mn, max: mx }
            } else {
                ConfigV::FitYminmax { min: mn, max: mx }
            },
        ),
        (Some(mn), None) => Some(
            if a == 0 {
                ConfigV::GrowXmin(mn)
            } else if a == 1 {
                ConfigV::GrowYmin(mn)
            } else if a == 2 {
                ConfigV::FitXmin(mn)
            } else {
                ConfigV::FitYmin(mn)
            },
        ),
        (None, Some(mx)) => Some(
            if a == 0 {
                ConfigV::GrowXmax(mx)
            } else if a == 1 {
                ConfigV::GrowYmax(mx)
            } else if a == 2 {
                ConfigV::FitXmax(mx)
            } else {
                ConfigV::FitYmax(mx)
            },
        ),
        (None, None) => if ax.bare {
            Some(
                if a == 0 {
                    ConfigV::GrowX
                } else if a == 1 {
                    ConfigV::GrowY
                } else if a == 2 {
                    ConfigV::FitX
                } else {
                    ConfigV::FitY
                },
            )
        } else {
            None
        },
    }
}

/// `out` with `c` emitted, if there is one.
pub open spec fn push_opt(out: Seq<LayoutV>, c: Option<ConfigV>) -> Seq<LayoutV> {
    match c {
        Some(c) => out.push(LayoutV::Config(c)),
        None => out,
    }
}

/// A gathered value, or a static zero.
pub open spec fn or_zero(v: Option<DataSrcV<Seq<char>>>) -> DataSrcV<Seq<char>> {
    match v {
        Some(x) => x,
        None => DataSrcV::Static("0.0"@),
    }
}

/// The index of the first `floating` command of `s[i..]`.
pub open spec fn floating_pos(s: Seq<LayoutV>, i: int) -> Option<int>
    decreases s.len() - i,
{
    if i < 0 || i >= s.len() {
        None
    } else if s[i] == LayoutV::Config(ConfigV::Floating) {
        Some(i)
    } else {
        floating_pos(s, i + 1)
    }
}

/// `s` with its first `floating` command moved to the front.
pub open spec fn hoist_floating(s: Seq<LayoutV>) -> Seq<LayoutV> {
    match floating_pos(s, 0) {
        Some(k) => if k != 0 {
            seq![s[k]] + s.remove(k)
        } else {
            s
        },
        None => s,
    }
}

/// There is a `floating` command in `s[i..]` exactly where `floating_pos`
/// finds one, and it finds the first.
pub proof fn lemma_floating_pos(s: Seq<LayoutV>, i: int)
    requires
        0 <= i,
    ensures
        match floating_pos(s, i) {
            Some(k) => i <= k < s.len() && s[k] == LayoutV::Config(ConfigV::Floating)
                && forall|j: int| i <= j < k ==> s[j] != LayoutV::Config(ConfigV::Floating),
            None => forall|j: int| i <= j < s.len() ==> s[j] != LayoutV::Config(ConfigV::Floating),
        },
    decreases s.len() - i,
{
    if i < s.len() && s[i] != LayoutV::Config(ConfigV::Floating) {
        lemma_floating_pos(s, i + 1);
    }
}

/// Moving the first `floating` command to the front keeps every command and
/// leaves `floating` first wherever there is one.
pub proof fn lemma_hoist_floating(s: Seq<LayoutV>)
    ensures
        hoist_floating(s).to_multiset() == s.to_multiset(),
        s.contains(LayoutV::Config(ConfigV::Floating)) ==> hoist_floating(s)[0] == LayoutV::Config(ConfigV::Floating),
{
    lemma_floating_pos(s, 0);
    match floating_pos(s, 0) {
        Some(k) => if k != 0 {
            let f = s[k];
            assert(s =~= s.take(k) + (seq![f] + s.skip(k + 1)));
            assert(s.remove(k) =~= s.take(k) + s.skip(k + 1));
            vstd::seq_lib::lemma_multiset_commutative(s.take(k), seq![f] + s.skip(k + 1));
            vstd::seq_lib::lemma_multiset_commutative(seq![f], s.skip(k + 1));
            vstd::seq_lib::lemma_multiset_commutative(s.take(k), s.skip(k + 1));
            vstd::seq_lib::lemma_multiset_commutative(seq![f], s.remove(k));
        },
        None => {},
    }
}

/// The commands of a block once all its items are read: what the items
/// emitted, then the scroll clip, the four sizing axes, the offset, the
/// floating dimensions and the shaders; the first `floating` moved to the
/// front.
#[verifier::opaque]
pub open spec fn finish(b: BlockV) -> Seq<LayoutV> {
    let o1 = if b.scroll_h || b.scroll_v {
        b.out.push(
            LayoutV::Config(
                ConfigV::Clip {
                    vertical: DataSrcV::Static(b.scroll_v),
                    horizontal: DataSrcV::Static(b.scroll_h),
                },
            ),
        )
    } else {
        b.out
    };
    let o2 = push_opt(o1, axis_config(0, b.axes[0]));
    let o3 = push_opt(o2, axis_config(1, b.axes[1]));
    let o4 = push_opt(o3, axis_config(2, b.axes[2]));
    let o5 = push_opt(o4, axis_config(3, b.axes[3]));
    let o6 = if b.slots[0] is Some || b.slots[1] is Some {
        o5.push(LayoutV::Config(ConfigV::FloatingOffset { x: or_zero(b.slots[0]), y: or_zero(b.slots[1]) }))
    } else {
        o5
    };
    let o7 = if b.slots[2] is Some || b.slots[3] is Some {
        o6.push(
            LayoutV::Config(
                ConfigV::FloatingDimensions { width: or_zero(b.slots[2]), height: or_zero(b.slots[3]) },
            ),
        )
    } else {
        o6
    };
    let o8 = if b.shaders.len() > 0 {
        o7.push(LayoutV::Config(ConfigV::Shaders(b.shaders)))
    } else {
        o7
    };
    hoist_floating(o8)
}

/// The commands of the config block `items`, the shape after its shape
/// keywords, and the context after it.
pub open spec fn configs(items: Seq<MdTree>, custom: Option<CustomElementSpecV>, c: CtxV) -> (Seq<LayoutV>, Option<CustomElementSpecV>, CtxV)
    decreases items, 1int,
{
    let st = cfg_fold(items, CfgSt { block: block_init(), custom, ctx: c });
    (finish(st.block), st.custom, st.ctx)
}

/// A config block that has a `floating` command has it first.
pub proof fn lemma_block_floating_first(items: Seq<MdTree>, custom: Option<CustomElementSpecV>, c: CtxV)
    ensures
        configs(items, custom, c).0.contains(LayoutV::Config(ConfigV::Floating))
            ==> configs(items, custom, c).0[0] == LayoutV::Config(ConfigV::Floating),
{
    reveal(finish);
    let b = cfg_fold(items, CfgSt { block: block_init(), custom, ctx: c }).block;
    let o = finish(b);
    let f = LayoutV::Config(ConfigV::Floating);
    if o.contains(f) {
        let o1 = if b.scroll_h || b.scroll_v {
            b.out.push(
                LayoutV::Config(
                    ConfigV::Clip {
                        vertical: DataSrcV::Static(b.scroll_v),
                        horizontal: DataSrcV::Static(b.scroll_h),
                    },
                ),
            )
        } else {
            b.out
        };
        let o2 = push_opt(o1, axis_config(0, b.axes[0]));
        let o3 = push_opt(o2, axis_config(1, b.axes[1]));
        let o4 = push_opt(o3, axis_config(2, b.axes[2]));
        let o5 = push_opt(o4, axis_config(3, b.axes[3]));
        let o6 = if b.slots[0] is Some || b.slots[1] is Some {
            o5.push(LayoutV::Config(ConfigV::FloatingOffset { x: or_zero(b.slots[0]), y: or_zero(b.slots[1]) }))
        } else {
            o5
        };
        let o7 = if b.slots[2] is Some || b.slots[3] is Some {
            o6.push(
                LayoutV::Config(
                    ConfigV::FloatingDimensions { width: or_zero(b.slots[2]), height: or_zero(b.slots[3]) },
                ),
            )
        } else {
            o6
        };
        let o8 = if b.shaders.len() > 0 {
            o7.push(LayoutV::Config(ConfigV::Shaders(b.shaders)))
        } else {
            o7
        };
        assert(o == hoist_floating(o8));
        lemma_hoist_floating(o8);
        vstd::seq_lib::to_multiset_contains(o, f);
        vstd::seq_lib::to_multiset_contains(o8, f);
    }
}

/// `st` after the items `items`, in order.
pub open spec fn cfg_fold(items: Seq<MdTree>, st: CfgSt) -> CfgSt
    decreases items, 0int,
{
    if items.len() == 0 {
        st
    } else {
        cfg_item(items.last(), cfg_fold(items.drop_last(), st))
    }
}

/// `st` after a config item with the keyword `kw`, of kind `k`, in the
/// paragraph `p`, for every kind but `floating`, `use` and the event gates.
#[verifier::opaque]
pub open spec fn cfg_simple(p: MdTree, kw: Seq<char>, k: CfgKind, st: CfgSt) -> CfgSt {
    match k {
        CfgKind::Flag(f) => emit(st, LayoutV::Config(flag_config(f))),
        CfgKind::Text(t) => match text_arg(p) {
            Some(v) => emit(st, LayoutV::Config(text_config(t, v))),
            None => st,
        },
        CfgKind::Float(t) => match float_arg(p) {
            Some(v) => emit(st, LayoutV::Config(float_config(t, v))),
            None => st,
        },
        CfgKind::U16(t) => match u16_arg(p) {
            Some(v) => emit(st, LayoutV::Config(u16_config(t, v))),
            None => st,
        },
        CfgKind::ZIndex => match i16_arg(p) {
            Some(z) => emit(st, LayoutV::Config(ConfigV::FloatingZIndex { z })),
            None => st,
        },
        CfgKind::Bare(a) => with_axis(st, a, AxisV { bare: true, ..st.block.axes[a as int] }),
        CfgKind::Min(a) => with_axis(st, a, AxisV { min: float_arg(p), ..st.block.axes[a as int] }),
        CfgKind::Max(a) => with_axis(st, a, AxisV { max: float_arg(p), ..st.block.axes[a as int] }),
        CfgKind::Slot(s) => with_slot(st, s, float_arg(p)),
        CfgKind::Scroll(h) => if h {
            CfgSt { block: BlockV { scroll_h: true, ..st.block }, ..st }
        } else {
            CfgSt { block: BlockV { scroll_v: true, ..st.block }, ..st }
        },
        CfgKind::Words(w) => match static_arg(p) {
            Some(word) => match word_layout(w, word) {
                Some(l) => emit(st, l),
                None => st,
            },
            None => st,
        },
        CfgKind::Shader => match shader_name_from(p.children, 1) {
            Some(n) => if n.len() > 0 {
                CfgSt {
                    block: BlockV {
                        shaders: st.block.shaders.push(shader_default(trim(n))),
                        ..st.block
                    },
                    ..st
                }
            } else {
                st
            },
            None => st,
        },
        CfgKind::ShaderParam => if st.block.shaders.len() > 0 {
            CfgSt {
                block: BlockV {
                    shaders: st.block.shaders.update(
                        st.block.shaders.len() - 1,
                        shader_apply(st.block.shaders.last(), kw, p),
                    ),
                    ..st.block
                },
                ..st
            }
        } else {
            st
        },
        CfgKind::ShapeParam => match st.custom {
            Some(c) => CfgSt { custom: Some(shape_apply(c, kw, p)), ..st },
            None => st,
        },
        CfgKind::Image => match image_config(p) {
            Some(c) => emit(st, LayoutV::Config(c)),
            None => st,
        },
        _ => st,
    }
}

/// `st` after the config item `item`.
pub open spec fn cfg_item(item: MdTree, st: CfgSt) -> CfgSt
    decreases item, 2int,
{
    match para_head(item) {
        None => st,
        Some((p, kw)) => match cfg_kind(kw) {
            CfgKind::Floating => {
                let st1 = emit(st, LayoutV::Config(ConfigV::Floating));
                if item.children.len() > 1 && item.children[1].kind is List {
                    let (cs, _, c2) = configs(item.children[1].children, None, st1.ctx);
                    emit_all(st1, cs, c2)
                } else {
                    st1
                }
            },
            CfgKind::Use => match text_of(child(p, 1)) {
                Some(rn) => {
                    let (params, c2) = if item.children.len() > 1 && item.children[1].kind is List {
                        variables(item.children[1].children, st.ctx)
                    } else {
                        (Seq::empty(), st.ctx)
                    };
                    emit(CfgSt { ctx: c2, ..st }, LayoutV::Config(ConfigV::Use { name: trim(rn), params }))
                },
                None => st,
            },
            CfgKind::Gate(g) => {
                let st1 = emit(st, LayoutV::Element(gate_open(g, text_arg(p))));
                let st2 = if item.children.len() > 1 && item.children[1].kind is List {
                    let (cs, _, c2) = configs(item.children[1].children, None, st1.ctx);
                    emit_all(st1, cs, c2)
                } else {
                    st1
                };
                emit(st2, LayoutV::Element(gate_close(g)))
            },
            k => cfg_simple(p, kw, k, st),
        },
    }
}

/// The state of a block in a [`CfgSt`].
pub open spec fn cfg_st(b: &Block, custom: &Option<CustomElementSpec>, ctx: &CalcCtx) -> CfgSt {
    CfgSt { block: b.deep_view(), custom: custom.deep_view(), ctx: ctx.deep_view() }
}

impl Block {
    /// A block before its first item.
    pub fn new() -> (r: Block)
        ensures
            r.deep_view() == block_init(),
            r.axes@.len() == 4,
            r.slots@.len() == 4,
    {
        let mut axes: Vec<Axis> = Vec::new();
        let mut slots: Vec<Option<DataSrc<String>>> = Vec::new();
        let mut i: usize = 0;
        assert(axes.deep_view() =~= Seq::new(0, |i: int| AxisV { bare: false, min: None, max: None }));
        assert(slots.deep_view() =~= Seq::new(0, |i: int| None::<DataSrcV<Seq<char>>>));
        while i < 4
            invariant
                i <= 4,
                axes.deep_view() == Seq::new(i as nat, |i: int| AxisV { bare: false, min: None, max: None }),
                slots.deep_view() == Seq::new(i as nat, |i: int| None::<DataSrcV<Seq<char>>>),
                axes@.len() == i,
                slots@.len() == i,
            decreases 4 - i,
        {
            push_dv(&mut axes, Axis { bare: false, min: None, max: None });
            push_dv(&mut slots, None);
            i = i + 1;
            assert(axes.deep_view() =~= Seq::new(i as nat, |i: int| AxisV { bare: false, min: None, max: None }));
            assert(slots.deep_view() =~= Seq::new(i as nat, |i: int| None::<DataSrcV<Seq<char>>>));
        }
        let r = Block { out: Vec::new(), axes, slots, scroll_h: false, scroll_v: false, shaders: Vec::new() };
        assert(r.out.deep_view() =~= Seq::empty());
        assert(r.shaders.deep_view() =~= Seq::empty());
        r
    }
}

fn set_at<T: DeepView>(v: &mut Vec<T>, k: usize, x: T)
    requires
        k < old(v)@.len(),
    ensures
        final(v)@.len() == old(v)@.len(),
        final(v).deep_view() == old(v).deep_view().update(k as int, x.deep_view()),
{
    let ghost before = v.deep_view();
    let ghost v0 = v@;
    let ghost xv = x.deep_view();
    v.set(k, x);
    assert forall|j: int| 0 <= j < v@.len() implies #[trigger] v.deep_view()[j] == before.update(
        k as int,
        xv,
    )[j] by {
        if j != k {
            assert(v@[j] == v0[j]);
        }
    }
    assert(v.deep_view() =~= before.update(k as int, xv));
}

fn replace_at<T: DeepView>(v: &mut Vec<T>, k: usize, x: T) -> (old_x: T)
    requires
        k < old(v)@.len(),
    ensures
        final(v)@.len() == old(v)@.len(),
        final(v).deep_view() == old(v).deep_view().update(k as int, x.deep_view()),
        old_x.deep_view() == old(v).deep_view()[k as int],
{
    let ghost before = v.deep_view();
    let ghost v0 = v@;
    let ghost xv = x.deep_view();
    let mut x = x;
    let ghost vk = v0[k as int];
    v.push(x);
    let old_x = v.swap_remove(k);
    assert(old_x == vk);
    assert forall|j: int| 0 <= j < v@.len() implies #[trigger] v.deep_view()[j] == before.update(
        k as int,
        xv,
    )[j] by {
        if j != k {
            assert(v@[j] == v0[j]);
        }
    }
    assert(v.deep_view() =~= before.update(k as int, xv));
    old_x
}

fn first_text_of(cs: &Vec<MdNode>) -> (r: Option<String>)
    ensures
        opt_chars(r) == first_text(trees(cs@), 0),
{
    let ghost ts = trees(cs@);
    let mut j: usize = 0;
    while j < cs.len()
        invariant
            j <= cs@.len(),
            ts == trees(cs@),
            first_text(ts, 0) == first_text(ts, j as int),
        decreases cs@.len() - j,
    {
        match &cs[j].kind {
            MdKind::Text(t) => {
                return Some(trim_str(t.as_str()));
            },
            _ => {},
        }
        j = j + 1;
    }
    None
}

/// The name the `shader` item paragraph `p` gives.
fn shader_name_of(p: &MdNode) -> (r: Option<String>)
    ensures
        opt_chars(r) == shader_name_from(p.model().children, 1),
{
    let ghost cs = p.model().children;
    proof {
        lemma_children(p);
    }
    let mut k: usize = 1;
    while k < p.children.len()
        invariant
            1 <= k,
            cs == p.model().children,
            cs == trees(p.children@),
            shader_name_from(cs, 1) == shader_name_from(cs, k as int),
        decreases p.children@.len() - k,
    {
        let c = &p.children[k];
        proof {
            lemma_children(c);
        }
        match &c.kind {
            MdKind::Emphasis => {
                match first_text_of(&c.children) {
                    Some(n) => {
                        return Some(n);
                    },
                    None => {},
                }
            },
            MdKind::Text(t) => {
                let tt = trim_str(t.as_str());
                if tt.unicode_len() > 0 {
                    return Some(tt);
                }
            },
            _ => {},
        }
        k = k + 1;
    }
    None
}

/// The children of a node are the models of its child nodes.
pub proof fn lemma_children(n: &MdNode)
    ensures
        n.model().children == trees(n.children@),
{
    assert(n.model().children =~= trees(n.children@));
}

fn image_config_of(p: &MdNode) -> (r: Option<Config>)
    ensures
        r.deep_view() == image_config(p.model()),
{
    let emphasis_name = trim_option(emph_node(child_at(p, 2)));
    let bare_name = match text_node(child_at(p, 1)) {
        Some(t) => {
            let tt = trim_str(t.as_str());
            if tt.unicode_len() > 0 {
                Some(tt)
            } else {
                None
            }
        },
        None => None,
    };
    let name = match emphasis_name {
        Some(n) => Some(n),
        None => bare_name,
    };
    match name {
        Some(n) => {
            let uv = match text_node(child_at(p, 3)) {
                Some(t) => {
                    let tt = trim_str(t.as_str());
                    crate::args::parse_uv_rect(tt.as_str())
                },
                None => None,
            };
            match uv {
                Some(ps) => {
                    let ghost m = strs(ps@);
                    assert(m[0] == ps@[0]@ && m[1] == ps@[1]@ && m[2] == ps@[2]@ && m[3] == ps@[3]@);
                    Some(
                        Config::ImageLiteral(
                            ImageDescriptor {
                                atlas: n,
                                u1: ps[0].clone(),
                                v1: ps[1].clone(),
                                u2: ps[2].clone(),
                                v2: ps[3].clone(),
                            },
                        ),
                    )
                },
                None => Some(Config::Image { name: trim_str(n.as_str()) }),
            }
        },
        None => None,
    }
}

fn axis_config_exec(a: u8, ax: Axis) -> (r: Option<Config>)
    ensures
        r.deep_view() == axis_config(a, ax.deep_view()),
{
    match (ax.min, ax.max) {
        (Some(mn), Some(mx)) => Some(
            if a == 0 {
                Config::GrowXminmax { min: mn, max: mx }
            } else if a == 1 {
                Config::GrowYminmax { min: mn, max: mx }
            } else if a == 2 {
                Config::FitXminmax { min: mn, max: mx }
            } else {
                Config::FitYminmax { min: mn, max: mx }
            },
        ),
        (Some(mn), None) => Some(
            if a == 0 {
                Config::GrowXmin(mn)
            } else if a == 1 {
                Config::GrowYmin(mn)
            } else if a == 2 {
                Config::FitXmin(mn)
            } else {
                Config::FitYmin(mn)
            },
        ),
        (None, Some(mx)) => Some(
            if a == 0 {
                Config::GrowXmax(mx)
            } else if a == 1 {
                Config::GrowYmax(mx)
            } else if a == 2 {
                Config::FitXmax(mx)
            } else {
                Config::FitYmax(mx)
            },
        ),
        (None, None) => if ax.bare {
            Some(
                if a == 0 {
                    Config::GrowX
                } else if a == 1 {
                    Config::GrowY
                } else if a == 2 {
                    Config::FitX
                } else {
                    Config::FitY
                },
            )
        } else {
            None
        },
    }
}

fn push_opt_exec(out: &mut Vec<Layout>, c: Option<Config>)
    ensures
        final(out).deep_view() == push_opt(old(out).deep_view(), c.deep_view()),
{
    match c {
        Some(c) => push_dv(out, Layout::Config(c)),
        None => {},
    }
}

fn or_zero_exec(v: Option<DataSrc<String>>) -> (r: DataSrc<String>)
    ensures
        r.deep_view() == or_zero(v.deep_view()),
{
    match v {
        Some(x) => x,
        None => DataSrc::Static("0.0".to_owned()),
    }
}

fn hoist_floating_exec(out: Vec<Layout>) -> (r: Vec<Layout>)
    ensures
        r.deep_view() == hoist_floating(out.deep_view()),
{
    let ghost s = out.deep_view();
    let mut out = out;
    let mut i: usize = 0;
    let mut found = false;
    while i < out.len() && !found
        invariant
            s == out.deep_view(),
            i <= out@.len(),
            floating_pos(s, 0) == if found { Some(i as int) } else { floating_pos(s, i as int) },
            found ==> i < out@.len(),
        decreases out@.len() - i + (if found { 0int } else { 1int }),
    {
        let is_floating = match &out[i] {
            Layout::Config(Config::Floating) => true,
            _ => false,
        };
        assert(s[i as int] == out@[i as int].deep_view());
        if is_floating {
            found = true;
        } else {
            i = i + 1;
        }
    }
    if found && i != 0 {
        let f = remove_dv(&mut out, i);
        insert_dv(&mut out, 0, f);
        assert(out.deep_view() =~= seq![s[i as int]] + s.remove(i as int));
    }
    out
}

/// The commands of a block once all its items are read (see [`finish`]).
fn finish_exec(b: Block) -> (r: Vec<Layout>)
    requires
        b.axes@.len() == 4,
        b.slots@.len() == 4,
    ensures
        r.deep_view() == finish(b.deep_view()),
{
    reveal(finish);
    let ghost bv = b.deep_view();
    let Block { out, axes, slots, scroll_h, scroll_v, shaders } = b;
    let mut out = out;
    if scroll_h || scroll_v {
        push_dv(
            &mut out,
            Layout::Config(Config::Clip { vertical: DataSrc::Static(scroll_v), horizontal: DataSrc::Static(scroll_h) }),
        );
    }
    let mut axes = axes;
    let a3 = pop_dv(&mut axes);
    let a2 = pop_dv(&mut axes);
    let a1 = pop_dv(&mut axes);
    let a0 = pop_dv(&mut axes);
    push_opt_exec(&mut out, axis_config_exec(0, a0));
    push_opt_exec(&mut out, axis_config_exec(1, a1));
    push_opt_exec(&mut out, axis_config_exec(2, a2));
    push_opt_exec(&mut out, axis_config_exec(3, a3));
    let mut slots = slots;
    let s3 = pop_dv(&mut slots);
    let s2 = pop_dv(&mut slots);
    let s1 = pop_dv(&mut slots);
    let s0 = pop_dv(&mut slots);
    if s0.is_some() || s1.is_some() {
        push_dv(&mut out, Layout::Config(Config::FloatingOffset { x: or_zero_exec(s0), y: or_zero_exec(s1) }));
    }
    if s2.is_some() || s3.is_some() {
        push_dv(
            &mut out,
            Layout::Config(Config::FloatingDimensions { width: or_zero_exec(s2), height: or_zero_exec(s3) }),
        );
    }
    if shaders.len() > 0 {
        push_dv(&mut out, Layout::Config(Config::Shaders(shaders)));
    }
    hoist_floating_exec(out)
}

/// The commands of the config block `items` (see [`configs`]).
pub fn process_configs(items: &Vec<MdNode>, custom: Option<CustomElementSpec>, ctx: &mut CalcCtx) -> (r: (Vec<Layout>, Option<CustomElementSpec>))
    ensures
        (r.0.deep_view(), r.1.deep_view(), final(ctx).deep_view()) == configs(
            trees(items@),
            custom.deep_view(),
            old(ctx).deep_view(),
        ),
    decreases items, 1int,
{
    let ghost all = trees(items@);
    let ghost init = CfgSt { block: block_init(), custom: custom.deep_view(), ctx: ctx.deep_view() };
    let mut block = Block::new();
    let mut custom = custom;
    let mut i: usize = 0;
    assert(all.take(0) =~= Seq::<MdTree>::empty());
    while i < items.len()
        invariant
            i <= items@.len(),
            all == trees(items@),
            cfg_st(&block, &custom, ctx) == cfg_fold(all.take(i as int), init),
            block.axes@.len() == 4,
            block.slots@.len() == 4,
        decreases items@.len() - i,
    {
        assert(all.take(i + 1).drop_last() =~= all.take(i as int));
        assert(all.take(i + 1).last() == items@[i as int].model());
        config_item(&items[i], &mut block, &mut custom, ctx);
        i = i + 1;
    }
    assert(all.take(i as int) =~= all);
    (finish_exec(block), custom)
}

pub fn nested_list(item: &MdNode) -> (r: Option<&MdNode>)
    ensures
        match r {
            Some(l) => item.model().children.len() > 1 && item.model().children[1].kind is List
                && l.model() == item.model().children[1] && l.children@ == item.children@[1].children@
                && l == item.children@[1],
            None => !(item.model().children.len() > 1 && item.model().children[1].kind is List),
        },
{
    proof {
        lemma_children(item);
    }
    if item.children.len() > 1 {
        let l = &item.children[1];
        match &l.kind {
            MdKind::List => Some(l),
            _ => None,
        }
    } else {
        None
    }
}

fn arm_flag(p: &MdNode, kw: &String, k: CfgKind, b: &mut Block, custom: &mut Option<CustomElementSpec>, ctx: &CalcCtx)
    requires
        old(b).axes@.len() == 4,
        old(b).slots@.len() == 4,
        k == cfg_kind(kw@),
        k is Flag,
    ensures
        cfg_st(final(b), final(custom), ctx) == cfg_simple(p.model(), kw@, k, cfg_st(old(b), old(custom), ctx)),
        final(b).axes@.len() == 4,
        final(b).slots@.len() == 4,
{
    reveal(cfg_simple);
    let ghost st = cfg_st(b, custom, ctx);
    match k {
        CfgKind::Flag(f) => push_dv(&mut b.out, Layout::Config(flag_config_exec(f))),
        _ => {},
    }
}

fn arm_text(p: &MdNode, kw: &String, k: CfgKind, b: &mut Block, custom: &mut Option<CustomElementSpec>, ctx: &CalcCtx)
    requires
        old(b).axes@.len() == 4,
        old(b).slots@.len() == 4,
        k == cfg_kind(kw@),
        k is Text,
    ensures
        cfg_st(final(b), final(custom), ctx) == cfg_simple(p.model(), kw@, k, cfg_st(old(b), old(custom), ctx)),
        final(b).axes@.len() == 4,
        final(b).slots@.len() == 4,
{
    reveal(cfg_simple);
    let ghost st = cfg_st(b, custom, ctx);
    match k {
        CfgKind::Text(t) => match text_arg_of(p) {
            Some(v) => push_dv(&mut b.out, Layout::Config(text_config_exec(t, v))),
            None => {},
        },
        _ => {},
    }
}

fn arm_float(p: &MdNode, kw: &String, k: CfgKind, b: &mut Block, custom: &mut Option<CustomElementSpec>, ctx: &CalcCtx)
    requires
        old(b).axes@.len() == 4,
        old(b).slots@.len() == 4,
        k == cfg_kind(kw@),
        k is Float,
    ensures
        cfg_st(final(b), final(custom), ctx) == cfg_simple(p.model(), kw@, k, cfg_st(old(b), old(custom), ctx)),
        final(b).axes@.len() == 4,
        final(b).slots@.len() == 4,
{
    reveal(cfg_simple);
    let ghost st = cfg_st(b, custom, ctx);
    match k {
        CfgKind::Float(t) => match float_arg_of(p) {
            Some(v) => push_dv(&mut b.out, Layout::Config(float_config_exec(t, v))),
            None => {},
        },
        _ => {},
    }
}

fn arm_u16(p: &MdNode, kw: &String, k: CfgKind, b: &mut Block, custom: &mut Option<CustomElementSpec>, ctx: &CalcCtx)
    requires
        old(b).axes@.len() == 4,
        old(b).slots@.len() == 4,
        k == cfg_kind(kw@),
        k is U16,
    ensures
        cfg_st(final(b), final(custom), ctx) == cfg_simple(p.model(), kw@, k, cfg_st(old(b), old(custom), ctx)),
        final(b).axes@.len() == 4,
        final(b).slots@.len() == 4,
{
    reveal(cfg_simple);
    let ghost st = cfg_st(b, custom, ctx);
    match k {
        CfgKind::U16(t) => match u16_arg_of(p) {
            Some(v) => push_dv(&mut b.out, Layout::Config(u16_config_exec(t, v))),
            None => {},
        },
        _ => {},
    }
}

fn arm_z_index(p: &MdNode, kw: &String, k: CfgKind, b: &mut Block, custom: &mut Option<CustomElementSpec>, ctx: &CalcCtx)
    requires
        old(b).axes@.len() == 4,
        old(b).slots@.len() == 4,
        k == cfg_kind(kw@),
        k is ZIndex,
    ensures
        cfg_st(final(b), final(custom), ctx) == cfg_simple(p.model(), kw@, k, cfg_st(old(b), old(custom), ctx)),
        final(b).axes@.len() == 4,
        final(b).slots@.len() == 4,
{
    reveal(cfg_simple);
    let ghost st = cfg_st(b, custom, ctx);
    match k {
        CfgKind::ZIndex => match i16_arg_of(p) {
            Some(z) => push_dv(&mut b.out, Layout::Config(Config::FloatingZIndex { z })),
            None => {},
        },
        _ => {},
    }
}

fn arm_bare(p: &MdNode, kw: &String, k: CfgKind, b: &mut Block, custom: &mut Option<CustomElementSpec>, ctx: &CalcCtx)
    requires
        old(b).axes@.len() == 4,
        old(b).slots@.len() == 4,
        k == cfg_kind(kw@),
        k is Bare,
    ensures
        cfg_st(final(b), final(custom), ctx) == cfg_simple(p.model(), kw@, k, cfg_st(old(b), old(custom), ctx)),
        final(b).axes@.len() == 4,
        final(b).slots@.len() == 4,
{
    reveal(cfg_simple);
    let ghost st = cfg_st(b, custom, ctx);
    match k {
        CfgKind::Bare(a) => {
            let ax = replace_at(&mut b.axes, a as usize, Axis { bare: false, min: None, max: None });
            set_at(&mut b.axes, a as usize, Axis { bare: true, min: ax.min, max: ax.max });
            assert(b.axes.deep_view() =~= st.block.axes.update(
                a as int,
                AxisV { bare: true, ..st.block.axes[a as int] },
            ));
        },
        _ => {},
    }
}

fn arm_min(p: &MdNode, kw: &String, k: CfgKind, b: &mut Block, custom: &mut Option<CustomElementSpec>, ctx: &CalcCtx)
    requires
        old(b).axes@.len() == 4,
        old(b).slots@.len() == 4,
        k == cfg_kind(kw@),
        k is Min,
    ensures
        cfg_st(final(b), final(custom), ctx) == cfg_simple(p.model(), kw@, k, cfg_st(old(b), old(custom), ctx)),
        final(b).axes@.len() == 4,
        final(b).slots@.len() == 4,
{
    reveal(cfg_simple);
    let ghost st = cfg_st(b, custom, ctx);
    match k {
        CfgKind::Min(a) => {
            let ax = replace_at(&mut b.axes, a as usize, Axis { bare: false, min: None, max: None });
            set_at(&mut b.axes, a as usize, Axis { bare: ax.bare, min: float_arg_of(p), max: ax.max });
            assert(b.axes.deep_view() =~= st.block.axes.update(
                a as int,
                AxisV { min: float_arg(p.model()), ..st.block.axes[a as int] },
            ));
        },
        _ => {},
    }
}

fn arm_max(p: &MdNode, kw: &String, k: CfgKind, b: &mut Block, custom: &mut Option<CustomElementSpec>, ctx: &CalcCtx)
    requires
        old(b).axes@.len() == 4,
        old(b).slots@.len() == 4,
        k == cfg_kind(kw@),
        k is Max,
    ensures
        cfg_st(final(b), final(custom), ctx) == cfg_simple(p.model(), kw@, k, cfg_st(old(b), old(custom), ctx)),
        final(b).axes@.len() == 4,
        final(b).slots@.len() == 4,
{
    reveal(cfg_simple);
    let ghost st = cfg_st(b, custom, ctx);
    match k {
        CfgKind::Max(a) => {
            let ax = replace_at(&mut b.axes, a as usize, Axis { bare: false, min: None, max: None });
            set_at(&mut b.axes, a as usize, Axis { bare: ax.bare, min: ax.min, max: float_arg_of(p) });
            assert(b.axes.deep_view() =~= st.block.axes.update(
                a as int,
                AxisV { max: float_arg(p.model()), ..st.block.axes[a as int] },
            ));
        },
        _ => {},
    }
}

fn arm_slot(p: &MdNode, kw: &String, k: CfgKind, b: &mut Block, custom: &mut Option<CustomElementSpec>, ctx: &CalcCtx)
    requires
        old(b).axes@.len() == 4,
        old(b).slots@.len() == 4,
        k == cfg_kind(kw@),
        k is Slot,
    ensures
        cfg_st(final(b), final(custom), ctx) == cfg_simple(p.model(), kw@, k, cfg_st(old(b), old(custom), ctx)),
        final(b).axes@.len() == 4,
        final(b).slots@.len() == 4,
{
    reveal(cfg_simple);
    let ghost st = cfg_st(b, custom, ctx);
    match k {
        CfgKind::Slot(sl) => {
            set_at(&mut b.slots, sl as usize, float_arg_of(p));
        },
        _ => {},
    }
}

fn arm_scroll(p: &MdNode, kw: &String, k: CfgKind, b: &mut Block, custom: &mut Option<CustomElementSpec>, ctx: &CalcCtx)
    requires
        old(b).axes@.len() == 4,
        old(b).slots@.len() == 4,
        k == cfg_kind(kw@),
        k is Scroll,
    ensures
        cfg_st(final(b), final(custom), ctx) == cfg_simple(p.model(), kw@, k, cfg_st(old(b), old(custom), ctx)),
        final(b).axes@.len() == 4,
        final(b).slots@.len() == 4,
{
    reveal(cfg_simple);
    let ghost st = cfg_st(b, custom, ctx);
    match k {
        CfgKind::Scroll(h) => if h {
            b.scroll_h = true;
        } else {
            b.scroll_v = true;
        },
        _ => {},
    }
}

fn arm_words(p: &MdNode, kw: &String, k: CfgKind, b: &mut Block, custom: &mut Option<CustomElementSpec>, ctx: &CalcCtx)
    requires
        old(b).axes@.len() == 4,
        old(b).slots@.len() == 4,
        k == cfg_kind(kw@),
        k is Words,
    ensures
        cfg_st(final(b), final(custom), ctx) == cfg_simple(p.model(), kw@, k, cfg_st(old(b), old(custom), ctx)),
        final(b).axes@.len() == 4,
        final(b).slots@.len() == 4,
{
    reveal(cfg_simple);
    let ghost st = cfg_st(b, custom, ctx);
    match k {
        CfgKind::Words(w) => match static_arg_of(p) {
            Some(word) => match word_layout_exec(w, word.as_str()) {
                Some(l) => push_dv(&mut b.out, l),
                None => {},
            },
            None => {},
        },
        _ => {},
    }
}

fn arm_shader(p: &MdNode, kw: &String, k: CfgKind, b: &mut Block, custom: &mut Option<CustomElementSpec>, ctx: &CalcCtx)
    requires
        old(b).axes@.len() == 4,
        old(b).slots@.len() == 4,
        k == cfg_kind(kw@),
        k is Shader,
    ensures
        cfg_st(final(b), final(custom), ctx) == cfg_simple(p.model(), kw@, k, cfg_st(old(b), old(custom), ctx)),
        final(b).axes@.len() == 4,
        final(b).slots@.len() == 4,
{
    reveal(cfg_simple);
    let ghost st = cfg_st(b, custom, ctx);
    match k {
        CfgKind::Shader => match shader_name_of(p) {
            Some(n) => if n.unicode_len() > 0 {
                push_dv(&mut b.shaders, ShaderSpec::with_name(trim_str(n.as_str())));
            },
            None => {},
        },
        _ => {},
    }
}

fn arm_shader_param(p: &MdNode, kw: &String, k: CfgKind, b: &mut Block, custom: &mut Option<CustomElementSpec>, ctx: &CalcCtx)
    requires
        old(b).axes@.len() == 4,
        old(b).slots@.len() == 4,
        k == cfg_kind(kw@),
        k is ShaderParam,
    ensures
        cfg_st(final(b), final(custom), ctx) == cfg_simple(p.model(), kw@, k, cfg_st(old(b), old(custom), ctx)),
        final(b).axes@.len() == 4,
        final(b).slots@.len() == 4,
{
    reveal(cfg_simple);
    let ghost st = cfg_st(b, custom, ctx);
    match k {
        CfgKind::ShaderParam => if b.shaders.len() > 0 {
            let mut sp = pop_dv(&mut b.shaders);
            sp.apply_param(kw.as_str(), p);
            push_dv(&mut b.shaders, sp);
            assert(b.shaders.deep_view() =~= st.block.shaders.update(
                st.block.shaders.len() - 1,
                shader_apply(st.block.shaders.last(), kw@, p.model()),
            ));
        },
        _ => {},
    }
}

fn arm_shape_param(p: &MdNode, kw: &String, k: CfgKind, b: &mut Block, custom: &mut Option<CustomElementSpec>, ctx: &CalcCtx)
    requires
        old(b).axes@.len() == 4,
        old(b).slots@.len() == 4,
        k == cfg_kind(kw@),
        k is ShapeParam,
    ensures
        cfg_st(final(b), final(custom), ctx) == cfg_simple(p.model(), kw@, k, cfg_st(old(b), old(custom), ctx)),
        final(b).axes@.len() == 4,
        final(b).slots@.len() == 4,
{
    reveal(cfg_simple);
    let ghost st = cfg_st(b, custom, ctx);
    match k {
        CfgKind::ShapeParam => match custom.take() {
            Some(c) => {
                *custom = Some(c.apply_param(kw.as_str(), p));
            },
            None => {},
        },
        _ => {},
    }
}

fn arm_image(p: &MdNode, kw: &String, k: CfgKind, b: &mut Block, custom: &mut Option<CustomElementSpec>, ctx: &CalcCtx)
    requires
        old(b).axes@.len() == 4,
        old(b).slots@.len() == 4,
        k == cfg_kind(kw@),
        k is Image,
    ensures
        cfg_st(final(b), final(custom), ctx) == cfg_simple(p.model(), kw@, k, cfg_st(old(b), old(custom), ctx)),
        final(b).axes@.len() == 4,
        final(b).slots@.len() == 4,
{
    reveal(cfg_simple);
    let ghost st = cfg_st(b, custom, ctx);
    match k {
        CfgKind::Image => match image_config_of(p) {
            Some(c) => push_dv(&mut b.out, Layout::Config(c)),
            None => {},
        },
        _ => {},
    }
}

/// The block `b` after a config item of kind `k` (see [`cfg_simple`]).
fn simple_item(p: &MdNode, kw: &String, k: CfgKind, b: &mut Block, custom: &mut Option<CustomElementSpec>, ctx: &CalcCtx)
    requires
        old(b).axes@.len() == 4,
        old(b).slots@.len() == 4,
        k == cfg_kind(kw@),
    ensures
        cfg_st(final(b), final(custom), ctx) == cfg_simple(p.model(), kw@, k, cfg_st(old(b), old(custom), ctx)),
        final(b).axes@.len() == 4,
        final(b).slots@.len() == 4,
{
    reveal(cfg_simple);
    let ghost st = cfg_st(b, custom, ctx);
    match k {
        CfgKind::Flag(_) => arm_flag(p, kw, k, b, custom, ctx),
        CfgKind::Text(_) => arm_text(p, kw, k, b, custom, ctx),
        CfgKind::Float(_) => arm_float(p, kw, k, b, custom, ctx),
        CfgKind::U16(_) => arm_u16(p, kw, k, b, custom, ctx),
        CfgKind::ZIndex => arm_z_index(p, kw, k, b, custom, ctx),
        CfgKind::Bare(_) => arm_bare(p, kw, k, b, custom, ctx),
        CfgKind::Min(_) => arm_min(p, kw, k, b, custom, ctx),
        CfgKind::Max(_) => arm_max(p, kw, k, b, custom, ctx),
        CfgKind::Slot(_) => arm_slot(p, kw, k, b, custom, ctx),
        CfgKind::Scroll(_) => arm_scroll(p, kw, k, b, custom, ctx),
        CfgKind::Words(_) => arm_words(p, kw, k, b, custom, ctx),
        CfgKind::Shader => arm_shader(p, kw, k, b, custom, ctx),
        CfgKind::ShaderParam => arm_shader_param(p, kw, k, b, custom, ctx),
        CfgKind::ShapeParam => arm_shape_param(p, kw, k, b, custom, ctx),
        CfgKind::Image => arm_image(p, kw, k, b, custom, ctx),
        _ => {},
    }
}

/// The block `b` after the config item `item` (see [`cfg_item`]).
fn config_item(item: &MdNode, b: &mut Block, custom: &mut Option<CustomElementSpec>, ctx: &mut CalcCtx)
    requires
        old(b).axes@.len() == 4,
        old(b).slots@.len() == 4,
    ensures
        cfg_st(final(b), final(custom), final(ctx)) == cfg_item(item.model(), cfg_st(old(b), old(custom), old(ctx))),
        final(b).axes@.len() == 4,
        final(b).slots@.len() == 4,
    decreases item, 2int,
{
    let ghost st0 = cfg_st(b, custom, ctx);
    let (p, kw) = match para_head_of(item) {
        Some(h) => h,
        None => return,
    };
    let k = cfg_kind_of(kw.as_str());
    match k {
        CfgKind::Floating => {
            push_dv(&mut b.out, Layout::Config(Config::Floating));
            let ghost st1 = cfg_st(b, custom, ctx);
            assert(st1 == emit(st0, LayoutV::Config(ConfigV::Floating)));
            match nested_list(item) {
                Some(l) => {
                    proof {
                        lemma_children(l);
                    }
                    assert(trees(l.children@) == item.model().children[1].children);
                    let (cs, _) = process_configs(&l.children, None, ctx);
                    let ghost r = configs(item.model().children[1].children, None, st1.ctx);
                    assert(cs.deep_view() == r.0);
                    assert(ctx.deep_view() == r.2);
                    append_dv(&mut b.out, cs);
                    assert(cfg_st(b, custom, ctx) == emit_all(st1, r.0, r.2));
                },
                None => {},
            }
            assert(cfg_st(b, custom, ctx) == cfg_item(item.model(), st0));
        },
        CfgKind::Use => match text_node(child_at(p, 1)) {
            Some(rn) => {
                let params = match nested_list(item) {
                    Some(l) => {
                        proof {
                            lemma_children(l);
                        }
                        process_variables(&l.children, ctx)
                    },
                    None => {
                        let e: Vec<(String, DataSrc<crate::ir::Declaration>)> = Vec::new();
                        assert(e.deep_view() =~= Seq::empty());
                        e
                    },
                };
                push_dv(&mut b.out, Layout::Config(Config::Use { name: trim_str(rn.as_str()), params }));
                },
            None => {},
        },
        CfgKind::Gate(g) => {
            push_dv(&mut b.out, Layout::Element(gate_open_exec(g, text_arg_of(p))));
            match nested_list(item) {
                Some(l) => {
                    proof {
                        lemma_children(l);
                    }
                    let (cs, _) = process_configs(&l.children, None, ctx);
                    append_dv(&mut b.out, cs);
                },
                None => {},
            }
            push_dv(&mut b.out, Layout::Element(gate_close_exec(g)));
            assert(cfg_st(b, custom, ctx) == cfg_item(item.model(), st0));
        },
        _ => simple_item(p, &kw, k, b, custom, ctx),
    }
}

/// A config item keeps whether there is a shape to change.
pub proof fn lemma_item_keeps_custom(item: MdTree, st: CfgSt)
    ensures
        (cfg_item(item, st).custom is Some) == (st.custom is Some),
{
    reveal(cfg_simple);
}

/// A config block keeps whether there is a shape to change.
pub proof fn lemma_fold_keeps_custom(items: Seq<MdTree>, st: CfgSt)
    ensures
        (cfg_fold(items, st).custom is Some) == (st.custom is Some),
    decreases items.len(),
{
    if items.len() > 0 {
        lemma_fold_keeps_custom(items.drop_last(), st);
        lemma_item_keeps_custom(items.last(), cfg_fold(items.drop_last(), st));
    }
}

/// The commands of a config block, its shape and the context after it, as
/// [`configs`] gives them (kept folded where a caller only passes them on).
#[verifier::opaque]
pub open spec fn config_block(items: Seq<MdTree>, custom: Option<CustomElementSpecV>, c: CtxV) -> (Seq<LayoutV>, Option<CustomElementSpecV>, CtxV) {
    configs(items, custom, c)
}

/// The commands of the config block `items` (see [`config_block`]).
pub fn process_config_block(items: &Vec<MdNode>, custom: Option<CustomElementSpec>, ctx: &mut CalcCtx) -> (r: (Vec<Layout>, Option<CustomElementSpec>))
    ensures
        (r.0.deep_view(), r.1.deep_view(), final(ctx).deep_view()) == config_block(
            trees(items@),
            custom.deep_view(),
            old(ctx).deep_view(),
        ),
{
    reveal(config_block);
    process_configs(items, custom, ctx)
}

/// A config block keeps a shape to change.
pub proof fn lemma_block_keeps_custom(items: Seq<MdTree>, sp: CustomElementSpecV, c: CtxV)
    ensures
        config_block(items, Some(sp), c).1 is Some,
{
    reveal(config_block);
    lemma_fold_keeps_custom(items, CfgSt { block: block_init(), custom: Some(sp), ctx: c });
}

} // verus!
