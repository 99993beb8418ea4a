//! The keyword tables of the layout grammar.
use vstd::prelude::*;

verus! {

/// Every keyword the grammar looks for as the *first token* of a list item:
/// element, config, declaration and header keywords. Sorted, so membership
/// can be decided by binary search.
pub open spec fn spec_leading_keywords() -> Seq<&'static str> {
    seq![
        "align", "align-children-x", "align-children-y", "arc", "aspect-ratio", "attach-root",
        "attach-self", "attatch-parent", "bevel-highlight", "bevel-light-angle", "bevel-shade",
        "bevel-width", "bezier", "blur-radius", "blur-tint", "border-all", "border-bottom",
        "border-color", "border-in-between", "border-left", "border-right", "border-top",
        "calc", "canvas", "center", "center-x", "center-y", "child-gap", "circle",
        "clip-to-parent", "color", "config", "ctrl1-x", "ctrl1-y", "ctrl2-x", "ctrl2-y",
        "declarations", "element", "end-angle", "eye-x", "eye-y", "eye-z", "far", "fit",
        "fixed-square", "floating", "floating-dimensions-height", "floating-dimensions-width",
        "fn", "focus", "focused", "font", "font-color", "font-id", "font-size", "fov", "from",
        "from-x", "from-y", "get-bool", "get-color", "get-event", "get-image", "get-numeric",
        "get-text", "glow-blur", "glow-color", "glow-spread", "grow", "height-fit",
        "height-fit-max", "height-fit-min", "height-fixed", "height-grow", "height-grow-max",
        "height-grow-min", "height-percent", "horizontal", "hover", "hovered", "id-indexed",
        "if", "if-index", "if-index-not", "if-not", "image", "item", "key-event",
        "left-clicked", "left-dbl-clicked", "left-down", "left-pressed", "left-released",
        "left-tpl-clicked", "letter-spacing", "line", "line-height", "list", "load",
        "max-zoom", "min-zoom", "near", "no-clip", "offset-x", "offset-y", "ortho-height",
        "padding-all", "padding-bottom", "padding-left", "padding-right", "padding-top",
        "pan-x", "pan-y", "pointer", "pointer-capture", "pointer-pass-through", "radius",
        "radius-all", "radius-bottom-left", "radius-bottom-right", "radius-top-left",
        "radius-top-right", "render-window", "right-clicked", "right-down", "right-pressed",
        "right-released", "ring", "scroll-horizontal", "scroll-vertical", "set-bool",
        "set-color", "set-event", "set-image", "set-numeric", "set-text", "shader",
        "shader-param-1", "shader-param-2", "shader-param-3", "shader-param-4",
        "shader-param-5", "shader-param-6", "shader-param-7", "shader-param-8", "shadow-blur",
        "shadow-color", "shadow-offset-x", "shadow-offset-y", "shadow-spread", "start-angle",
        "target-x", "target-y", "target-z", "text", "thickness", "to", "to-x", "to-y",
        "unfocused", "unhovered", "up-x", "up-y", "up-z", "use", "vertical", "width",
        "width-fit", "width-fit-max", "width-fit-min", "width-fixed", "width-grow",
        "width-grow-max", "width-grow-min", "width-percent", "world-height", "world-width",
        "wrap", "z-index", "zoom",
    ]
}

/// Executable twin of [`spec_leading_keywords`].
pub fn leading_keywords() -> (r: Vec<&'static str>)
    ensures
        r@ == spec_leading_keywords(),
{
    let r = vec![
        "align", "align-children-x", "align-children-y", "arc", "aspect-ratio", "attach-root",
        "attach-self", "attatch-parent", "bevel-highlight", "bevel-light-angle", "bevel-shade",
        "bevel-width", "bezier", "blur-radius", "blur-tint", "border-all", "border-bottom",
        "border-color", "border-in-between", "border-left", "border-right", "border-top",
        "calc", "canvas", "center", "center-x", "center-y", "child-gap", "circle",
        "clip-to-parent", "color", "config", "ctrl1-x", "ctrl1-y", "ctrl2-x", "ctrl2-y",
        "declarations", "element", "end-angle", "eye-x", "eye-y", "eye-z", "far", "fit",
        "fixed-square", "floating", "floating-dimensions-height", "floating-dimensions-width",
        "fn", "focus", "focused", "font", "font-color", "font-id", "font-size", "fov", "from",
        "from-x", "from-y", "get-bool", "get-color", "get-event", "get-image", "get-numeric",
        "get-text", "glow-blur", "glow-color", "glow-spread", "grow", "height-fit",
        "height-fit-max", "height-fit-min", "height-fixed", "height-grow", "height-grow-max",
        "height-grow-min", "height-percent", "horizontal", "hover", "hovered", "id-indexed",
        "if", "if-index", "if-index-not", "if-not", "image", "item", "key-event",
        "left-clicked", "left-dbl-clicked", "left-down", "left-pressed", "left-released",
        "left-tpl-clicked", "letter-spacing", "line", "line-height", "list", "load",
        "max-zoom", "min-zoom", "near", "no-clip", "offset-x", "offset-y", "ortho-height",
        "padding-all", "padding-bottom", "padding-left", "padding-right", "padding-top",
        "pan-x", "pan-y", "pointer", "pointer-capture", "pointer-pass-through", "radius",
        "radius-all", "radius-bottom-left", "radius-bottom-right", "radius-top-left",
        "radius-top-right", "render-window", "right-clicked", "right-down", "right-pressed",
        "right-released", "ring", "scroll-horizontal", "scroll-vertical", "set-bool",
        "set-color", "set-event", "set-image", "set-numeric", "set-text", "shader",
        "shader-param-1", "shader-param-2", "shader-param-3", "shader-param-4",
        "shader-param-5", "shader-param-6", "shader-param-7", "shader-param-8", "shadow-blur",
        "shadow-color", "shadow-offset-x", "shadow-offset-y", "shadow-spread", "start-angle",
        "target-x", "target-y", "target-z", "text", "thickness", "to", "to-x", "to-y",
        "unfocused", "unhovered", "up-x", "up-y", "up-z", "use", "vertical", "width",
        "width-fit", "width-fit-max", "width-fit-min", "width-fixed", "width-grow",
        "width-grow-max", "width-grow-min", "width-percent", "world-height", "world-width",
        "wrap", "z-index", "zoom",
    ];
    assert(r@ =~= spec_leading_keywords());
    r
}

/// Every keyword that tunes a `shader` effect: the built-in named parameters
/// and the positional `shader-param-1` .. `shader-param-8`. Sorted.
pub open spec fn spec_shader_param_keywords() -> Seq<&'static str> {
    seq![
        "bevel-highlight", "bevel-light-angle", "bevel-shade", "bevel-width", "blur-radius",
        "blur-tint", "glow-blur", "glow-color", "glow-spread", "shader-param-1",
        "shader-param-2", "shader-param-3", "shader-param-4", "shader-param-5",
        "shader-param-6", "shader-param-7", "shader-param-8", "shadow-blur", "shadow-color",
        "shadow-offset-x", "shadow-offset-y", "shadow-spread",
    ]
}

/// Executable twin of [`spec_shader_param_keywords`].
pub fn shader_param_keywords() -> (r: Vec<&'static str>)
    ensures
        r@ == spec_shader_param_keywords(),
{
    let r = vec![
        "bevel-highlight", "bevel-light-angle", "bevel-shade", "bevel-width", "blur-radius",
        "blur-tint", "glow-blur", "glow-color", "glow-spread", "shader-param-1",
        "shader-param-2", "shader-param-3", "shader-param-4", "shader-param-5",
        "shader-param-6", "shader-param-7", "shader-param-8", "shadow-blur", "shadow-color",
        "shadow-offset-x", "shadow-offset-y", "shadow-spread",
    ];
    assert(r@ =~= spec_shader_param_keywords());
    r
}

/// Every config keyword that sets a parameter of a drawn shape (or of a
/// `render-window` camera) rather than becoming a config of its own. Sorted.
pub open spec fn spec_shape_param_keywords() -> Seq<&'static str> {
    seq![
        "center", "center-x", "center-y", "ctrl1-x", "ctrl1-y", "ctrl2-x", "ctrl2-y",
        "end-angle", "eye-x", "eye-y", "eye-z", "far", "fov", "from", "from-x", "from-y",
        "near", "ortho-height", "radius", "start-angle", "target-x", "target-y", "target-z",
        "thickness", "to", "to-x", "to-y", "up-x", "up-y", "up-z", "width",
    ]
}

/// Executable twin of [`spec_shape_param_keywords`].
pub fn shape_param_keywords() -> (r: Vec<&'static str>)
    ensures
        r@ == spec_shape_param_keywords(),
{
    let r = vec![
        "center", "center-x", "center-y", "ctrl1-x", "ctrl1-y", "ctrl2-x", "ctrl2-y",
        "end-angle", "eye-x", "eye-y", "eye-z", "far", "fov", "from", "from-x", "from-y",
        "near", "ortho-height", "radius", "start-angle", "target-x", "target-y", "target-z",
        "thickness", "to", "to-x", "to-y", "up-x", "up-y", "up-z", "width",
    ];
    assert(r@ =~= spec_shape_param_keywords());
    r
}
/// `w` is one of the words of `list`.
pub open spec fn lists_word(list: Seq<&'static str>, w: Seq<char>) -> bool {
    exists|i: int| 0 <= i < list.len() && list[i]@ == w
}

/// Every shader keyword, and `shader` itself, is a leading keyword, so the
/// backtick pre-pass recognises each of them as the first word of an item.
pub proof fn lemma_shader_keywords_are_leading()
    ensures
        forall|i: int|
            0 <= i < spec_shader_param_keywords().len() ==> #[trigger] lists_word(
                spec_leading_keywords(),
                spec_shader_param_keywords()[i]@,
            ),
        lists_word(spec_leading_keywords(), "shader"@),
{
    let l = spec_leading_keywords();
    let s = spec_shader_param_keywords();
    assert(l[136] == "shader");
    assert forall|i: int| 0 <= i < s.len() implies lists_word(l, #[trigger] s[i]@) by {
        let k: int = if i < 4 {
            i + 8
        } else if i < 6 {
            i + 9
        } else if i < 9 {
            i + 59
        } else {
            i + 128
        };
        assert(l[k] == s[i]);
    }
}

/// Whether the characters `w` spell exactly `s`.
pub fn chars_eq_str(w: &[char], s: &str) -> (r: bool)
    ensures
        r == (w@ == s@),
{
    let n = s.unicode_len();
    if w.len() != n {
        return false;
    }
    let mut i: usize = 0;
    while i < n
        invariant
            n == s@.len(),
            w@.len() == n,
            i <= n,
            forall|j: int| 0 <= j < i ==> w@[j] == s@[j],
        decreases n - i,
    {
        if w[i] != s.get_char(i) {
            return false;
        }
        i = i + 1;
    }
    assert(w@ =~= s@);
    true
}

/// Whether `w` is one of the words of `list`.
pub fn list_contains(list: &Vec<&'static str>, w: &[char]) -> (r: bool)
    ensures
        r == lists_word(list@, w@),
{
    let mut i: usize = 0;
    while i < list.len()
        invariant
            i <= list@.len(),
            forall|j: int| 0 <= j < i ==> list@[j]@ != w@,
        decreases list@.len() - i,
    {
        if chars_eq_str(w, list[i]) {
            return true;
        }
        i = i + 1;
    }
    false
}

} // verus!
