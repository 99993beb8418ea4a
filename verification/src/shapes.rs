//! The drawn shapes (`circle`, `ring`, `line`, `arc`, `bezier`,
//! `render-window`) and the `shader` effects of an element: their defaults
//! and how a parameter keyword changes them.
use vstd::prelude::*;
use crate::args::{float_arg, float_arg_of, text_arg, text_arg_of, anchor_arg, anchor_arg_of, frac_text, frac_string};
use crate::ir::{CustomElementSpec, CustomElementSpecV, DataSrc, DataSrcV, ShaderSpec, ShaderSpecV, push_dv};
use crate::md::{MdNode, MdTree};
use crate::text::str_eq;

verus! {

/// A static number written as `t`.
pub open spec fn num(t: Seq<char>) -> DataSrcV<Seq<char>> {
    DataSrcV::Static(t)
}

/// `old`, or the value `v` where `hit` and there is one.
pub open spec fn upd(old: DataSrcV<Seq<char>>, hit: bool, v: Option<DataSrcV<Seq<char>>>) -> DataSrcV<Seq<char>> {
    if hit {
        match v {
            Some(x) => x,
            None => old,
        }
    } else {
        old
    }
}

fn upd_exec(old: DataSrc<String>, hit: bool, p: &MdNode) -> (r: DataSrc<String>)
    ensures
        r.deep_view() == upd(old.deep_view(), hit, float_arg(p.model())),
{
    if hit {
        match float_arg_of(p) {
            Some(x) => x,
            None => old,
        }
    } else {
        old
    }
}

fn lit(t: &str) -> (r: DataSrc<String>)
    ensures
        r.deep_view() == num(t@),
{
    DataSrc::Static(t.to_owned())
}

/// What the bare `ring` keyword draws: a 1px inscribed outline.
pub open spec fn ring_default() -> CustomElementSpecV {
    CustomElementSpecV::Ring { thickness: num("1.0"@) }
}

/// What the bare `line` keyword draws: a 1px vertical line down the centre.
pub open spec fn line_default() -> CustomElementSpecV {
    CustomElementSpecV::Line {
        from_x: num("0.5"@),
        from_y: num("0.0"@),
        to_x: num("0.5"@),
        to_y: num("1.0"@),
        thickness: num("1.0"@),
    }
}

/// What the bare `arc` keyword draws: a 1px half circle opening downward.
pub open spec fn arc_default() -> CustomElementSpecV {
    CustomElementSpecV::Arc {
        center_x: num("0.5"@),
        center_y: num("0.5"@),
        radius: num("1.0"@),
        start_angle: num("0.0"@),
        end_angle: num("180.0"@),
        thickness: num("1.0"@),
    }
}

/// What the bare `bezier` keyword draws: a 1px arch from the bottom-left to
/// the bottom-right corner.
pub open spec fn bezier_default() -> CustomElementSpecV {
    CustomElementSpecV::Bezier {
        from_x: num("0.0"@),
        from_y: num("1.0"@),
        ctrl1_x: num("0.33"@),
        ctrl1_y: num("0.0"@),
        ctrl2_x: num("0.66"@),
        ctrl2_y: num("0.0"@),
        to_x: num("1.0"@),
        to_y: num("1.0"@),
        thickness: num("1.0"@),
    }
}

/// What the bare `render-window` keyword draws: the scene through the
/// `default` camera, with no overrides.
pub open spec fn render_window_default() -> CustomElementSpecV {
    CustomElementSpecV::RenderWindow {
        camera: "default"@,

        eye_x: None,
        eye_y: None,
        eye_z: None,
        target_x: None,
        target_y: None,
        target_z: None,
        up_x: None,
        up_y: None,
        up_z: None,
        fov: None,
        near: None,
        far: None,
        ortho_height: None,
    }
}

impl CustomElementSpec {
    /// The bare `ring` shape.
    pub fn ring() -> (r: Self)
        ensures
            r.deep_view() == ring_default(),
    {
        CustomElementSpec::Ring { thickness: lit("1.0") }
    }

    /// The bare `line` shape.
    pub fn line() -> (r: Self)
        ensures
            r.deep_view() == line_default(),
    {
        CustomElementSpec::Line {
            from_x: lit("0.5"),
            from_y: lit("0.0"),
            to_x: lit("0.5"),
            to_y: lit("1.0"),
            thickness: lit("1.0"),
        }
    }

    /// The bare `arc` shape.
    pub fn arc() -> (r: Self)
        ensures
            r.deep_view() == arc_default(),
    {
        CustomElementSpec::Arc {
            center_x: lit("0.5"),
            center_y: lit("0.5"),
            radius: lit("1.0"),
            start_angle: lit("0.0"),
            end_angle: lit("180.0"),
            thickness: lit("1.0"),
        }
    }

    /// The bare `render-window` element.
    pub fn render_window() -> (r: Self)
        ensures
            r.deep_view() == render_window_default(),
    {
        CustomElementSpec::RenderWindow {
            camera: "default".to_owned(),

            eye_x: None,
            eye_y: None,
            eye_z: None,
            target_x: None,
            target_y: None,
            target_z: None,
            up_x: None,
            up_y: None,
            up_z: None,
            fov: None,
            near: None,
            far: None,
            ortho_height: None,
        }
    }

    /// The bare `bezier` shape.
    pub fn bezier() -> (r: Self)
        ensures
            r.deep_view() == bezier_default(),
    {
        CustomElementSpec::Bezier {
            from_x: lit("0.0"),
            from_y: lit("1.0"),
            ctrl1_x: lit("0.33"),
            ctrl1_y: lit("0.0"),
            ctrl2_x: lit("0.66"),
            ctrl2_y: lit("0.0"),
            to_x: lit("1.0"),
            to_y: lit("1.0"),
            thickness: lit("1.0"),
        }
    }
}

/// `sp` after the shape parameter keyword `key` with the argument in the
/// paragraph `p`: a `render-window` camera keyword sets its override (to
/// nothing, without an argument); an anchor word moves the `from`, `to` or
/// `center` point and nothing else; otherwise a numeric argument sets the
/// named geometry value. Keywords that do not apply to the shape change
/// nothing.
pub open spec fn shape_apply(sp: CustomElementSpecV, key: Seq<char>, p: MdTree) -> CustomElementSpecV {
    match sp {
        CustomElementSpecV::RenderWindow { camera, eye_x, eye_y, eye_z, target_x, target_y, target_z, up_x, up_y, up_z, fov, near, far, ortho_height } => CustomElementSpecV::RenderWindow {
            camera,
            eye_x: if key == "eye-x"@ { float_arg(p) } else { eye_x },
            eye_y: if key == "eye-y"@ { float_arg(p) } else { eye_y },
            eye_z: if key == "eye-z"@ { float_arg(p) } else { eye_z },
            target_x: if key == "target-x"@ { float_arg(p) } else { target_x },
            target_y: if key == "target-y"@ { float_arg(p) } else { target_y },
            target_z: if key == "target-z"@ { float_arg(p) } else { target_z },
            up_x: if key == "up-x"@ { float_arg(p) } else { up_x },
            up_y: if key == "up-y"@ { float_arg(p) } else { up_y },
            up_z: if key == "up-z"@ { float_arg(p) } else { up_z },
            fov: if key == "fov"@ { float_arg(p) } else { fov },
            near: if key == "near"@ { float_arg(p) } else { near },
            far: if key == "far"@ { float_arg(p) } else { far },
            ortho_height: if key == "ortho-height"@ { float_arg(p) } else { ortho_height },
        },
        _ => match anchor_arg(p) {
            Some((x, y)) => {
                let ax = num(frac_text(x));
                let ay = num(frac_text(y));
                match sp {
                    CustomElementSpecV::Line { from_x, from_y, to_x, to_y, thickness } => 
                    if key == "from"@ {
                        CustomElementSpecV::Line { from_x: ax, from_y: ay, to_x: to_x, to_y: to_y, thickness: thickness }
                    } else if key == "to"@ {
                        CustomElementSpecV::Line { from_x: from_x, from_y: from_y, to_x: ax, to_y: ay, thickness: thickness }
                    } else {
                        sp
                    },
                    CustomElementSpecV::Bezier { from_x, from_y, ctrl1_x, ctrl1_y, ctrl2_x, ctrl2_y, to_x, to_y, thickness } => 
                    if key == "from"@ {
                        CustomElementSpecV::Bezier { from_x: ax, from_y: ay, ctrl1_x: ctrl1_x, ctrl1_y: ctrl1_y, ctrl2_x: ctrl2_x, ctrl2_y: ctrl2_y, to_x: to_x, to_y: to_y, thickness: thickness }
                    } else if key == "to"@ {
                        CustomElementSpecV::Bezier { from_x: from_x, from_y: from_y, ctrl1_x: ctrl1_x, ctrl1_y: ctrl1_y, ctrl2_x: ctrl2_x, ctrl2_y: ctrl2_y, to_x: ax, to_y: ay, thickness: thickness }
                    } else {
                        sp
                    },
                    CustomElementSpecV::Arc { center_x, center_y, radius, start_angle, end_angle, thickness } => 
                    if key == "center"@ {
                        CustomElementSpecV::Arc { center_x: ax, center_y: ay, radius: radius, start_angle: start_angle, end_angle: end_angle, thickness: thickness }
                    } else {
                        sp
                    },
                    _ => sp,
                }
            },
            None => {
                let v = float_arg(p);
                match sp {
                    CustomElementSpecV::Circle => sp,
                    CustomElementSpecV::Ring { thickness } => CustomElementSpecV::Ring {
                        thickness: upd(thickness, (key == "thickness"@ || key == "width"@), v),
                    },
                    CustomElementSpecV::Line { from_x, from_y, to_x, to_y, thickness } => CustomElementSpecV::Line {
                        from_x: upd(from_x, key == "from-x"@, v),
                        from_y: upd(from_y, key == "from-y"@, v),
                        to_x: upd(to_x, key == "to-x"@, v),
                        to_y: upd(to_y, key == "to-y"@, v),
                        thickness: upd(thickness, (key == "thickness"@ || key == "width"@), v),
                    },
                    CustomElementSpecV::Arc { center_x, center_y, radius, start_angle, end_angle, thickness } => CustomElementSpecV::Arc {
                        center_x: upd(center_x, key == "center-x"@, v),
                        center_y: upd(center_y, key == "center-y"@, v),
                        radius: upd(radius, key == "radius"@, v),
                        start_angle: upd(start_angle, key == "start-angle"@, v),
                        end_angle: upd(end_angle, key == "end-angle"@, v),
                        thickness: upd(thickness, (key == "thickness"@ || key == "width"@), v),
                    },
                    CustomElementSpecV::Bezier { from_x, from_y, ctrl1_x, ctrl1_y, ctrl2_x, ctrl2_y, to_x, to_y, thickness } => CustomElementSpecV::Bezier {
                        from_x: upd(from_x, key == "from-x"@, v),
                        from_y: upd(from_y, key == "from-y"@, v),
                        ctrl1_x: upd(ctrl1_x, key == "ctrl1-x"@, v),
                        ctrl1_y: upd(ctrl1_y, key == "ctrl1-y"@, v),
                        ctrl2_x: upd(ctrl2_x, key == "ctrl2-x"@, v),
                        ctrl2_y: upd(ctrl2_y, key == "ctrl2-y"@, v),
                        to_x: upd(to_x, key == "to-x"@, v),
                        to_y: upd(to_y, key == "to-y"@, v),
                        thickness: upd(thickness, (key == "thickness"@ || key == "width"@), v),
                    },
                    CustomElementSpecV::RenderWindow { .. } => sp,
                }
            },
        },
    }
}

/// Whether `key` names a parameter of the shape `sp`: one of its geometry
/// values (or the `from` / `to` / `center` point it moves), or, for a
/// `render-window`, one of its camera keywords.
pub open spec fn shape_takes(sp: CustomElementSpecV, key: Seq<char>) -> bool {
    let thick = key == "thickness"@ || key == "width"@;
    match sp {
        CustomElementSpecV::Circle => false,
        CustomElementSpecV::Ring { .. } => thick,
        CustomElementSpecV::Line { .. } => thick || key == "from"@ || key == "to"@ || key == "from-x"@
            || key == "from-y"@ || key == "to-x"@ || key == "to-y"@,
        CustomElementSpecV::Arc { .. } => thick || key == "center"@ || key == "center-x"@ || key
            == "center-y"@ || key == "radius"@ || key == "start-angle"@ || key == "end-angle"@,
        CustomElementSpecV::Bezier { .. } => thick || key == "from"@ || key == "to"@ || key
            == "from-x"@ || key == "from-y"@ || key == "ctrl1-x"@ || key == "ctrl1-y"@ || key
            == "ctrl2-x"@ || key == "ctrl2-y"@ || key == "to-x"@ || key == "to-y"@,
        CustomElementSpecV::RenderWindow { .. } => key == "eye-x"@ || key == "eye-y"@ || key
            == "eye-z"@ || key == "target-x"@ || key == "target-y"@ || key == "target-z"@ || key
            == "up-x"@ || key == "up-y"@ || key == "up-z"@ || key == "fov"@ || key == "near"@
            || key == "far"@ || key == "ortho-height"@,
    }
}

/// A keyword that names no parameter of the shape leaves it unchanged, and
/// so does, on a drawn shape, a paragraph with neither a number nor an
/// anchor word after the keyword.
pub proof fn lemma_shape_apply_ignores(sp: CustomElementSpecV, key: Seq<char>, p: MdTree)
    ensures
        !shape_takes(sp, key) ==> shape_apply(sp, key, p) == sp,
        !(sp is RenderWindow) && anchor_arg(p) is None && float_arg(p) is None ==> shape_apply(
            sp,
            key,
            p,
        ) == sp,
{
}

/// The geometry value of a drawn shape that the parameter keyword `key`
/// names (`width` is another name of `thickness`); `None` where the shape has
/// no value of that name.
pub open spec fn shape_field(sp: CustomElementSpecV, key: Seq<char>) -> Option<DataSrcV<Seq<char>>> {
    let thick = key == "thickness"@ || key == "width"@;
    match sp {
        CustomElementSpecV::Ring { thickness } => if thick {
            Some(thickness)
        } else {
            None
        },
        CustomElementSpecV::Line { from_x, from_y, to_x, to_y, thickness } => if key == "from-x"@ {
            Some(from_x)
        } else if key == "from-y"@ {
            Some(from_y)
        } else if key == "to-x"@ {
            Some(to_x)
        } else if key == "to-y"@ {
            Some(to_y)
        } else if thick {
            Some(thickness)
        } else {
            None
        },
        CustomElementSpecV::Arc { center_x, center_y, radius, start_angle, end_angle, thickness } => if key
            == "center-x"@ {
            Some(center_x)
        } else if key == "center-y"@ {
            Some(center_y)
        } else if key == "radius"@ {
            Some(radius)
        } else if key == "start-angle"@ {
            Some(start_angle)
        } else if key == "end-angle"@ {
            Some(end_angle)
        } else if thick {
            Some(thickness)
        } else {
            None
        },
        CustomElementSpecV::Bezier { from_x, from_y, ctrl1_x, ctrl1_y, ctrl2_x, ctrl2_y, to_x, to_y, thickness } =>
        if key == "from-x"@ {
            Some(from_x)
        } else if key == "from-y"@ {
            Some(from_y)
        } else if key == "ctrl1-x"@ {
            Some(ctrl1_x)
        } else if key == "ctrl1-y"@ {
            Some(ctrl1_y)
        } else if key == "ctrl2-x"@ {
            Some(ctrl2_x)
        } else if key == "ctrl2-y"@ {
            Some(ctrl2_y)
        } else if key == "to-x"@ {
            Some(to_x)
        } else if key == "to-y"@ {
            Some(to_y)
        } else if thick {
            Some(thickness)
        } else {
            None
        },
        _ => None,
    }
}

/// The two keywords `key` and `k2` name the same value of a shape.
pub open spec fn same_field(key: Seq<char>, k2: Seq<char>) -> bool {
    key == k2 || ((key == "thickness"@ || key == "width"@) && (k2 == "thickness"@ || k2 == "width"@))
}

/// The keywords of the two coordinates of the point that an anchor word
/// after `key` moves (`from`, `to`, `center`).
pub open spec fn point_keys(key: Seq<char>) -> Option<(Seq<char>, Seq<char>)> {
    if key == "from"@ {
        Some(("from-x"@, "from-y"@))
    } else if key == "to"@ {
        Some(("to-x"@, "to-y"@))
    } else if key == "center"@ {
        Some(("center-x"@, "center-y"@))
    } else {
        None
    }
}

/// The camera override of a `render-window` that the keyword `key` names;
/// `None` where `key` names none (or the shape is no `render-window`).
pub open spec fn camera_field(sp: CustomElementSpecV, key: Seq<char>) -> Option<Option<DataSrcV<Seq<char>>>> {
    match sp {
        CustomElementSpecV::RenderWindow { camera, eye_x, eye_y, eye_z, target_x, target_y, target_z, up_x, up_y, up_z, fov, near, far, ortho_height } =>
        if key == "eye-x"@ {
            Some(eye_x)
        } else if key == "eye-y"@ {
            Some(eye_y)
        } else if key == "eye-z"@ {
            Some(eye_z)
        } else if key == "target-x"@ {
            Some(target_x)
        } else if key == "target-y"@ {
            Some(target_y)
        } else if key == "target-z"@ {
            Some(target_z)
        } else if key == "up-x"@ {
            Some(up_x)
        } else if key == "up-y"@ {
            Some(up_y)
        } else if key == "up-z"@ {
            Some(up_z)
        } else if key == "fov"@ {
            Some(fov)
        } else if key == "near"@ {
            Some(near)
        } else if key == "far"@ {
            Some(far)
        } else if key == "ortho-height"@ {
            Some(ortho_height)
        } else {
            None
        },
        _ => None,
    }
}

/// What the parameter keywords of shapes and cameras are made of: enough
/// of each to tell any two of them apart.
pub proof fn lemma_param_words()
    ensures
        "thickness"@.len() == 9,
        "thickness"@[0] == 't',
        "width"@.len() == 5,
        "width"@[0] == 'w',
        "from-x"@.len() == 6,
        "from-x"@[0] == 'f',
        "from-x"@[5] == 'x',
        "from-y"@.len() == 6,
        "from-y"@[0] == 'f',
        "from-y"@[5] == 'y',
        "to-x"@.len() == 4,
        "to-x"@[0] == 't',
        "to-x"@[3] == 'x',
        "to-y"@.len() == 4,
        "to-y"@[0] == 't',
        "to-y"@[3] == 'y',
        "center-x"@.len() == 8,
        "center-x"@[0] == 'c',
        "center-x"@[7] == 'x',
        "center-y"@.len() == 8,
        "center-y"@[0] == 'c',
        "center-y"@[7] == 'y',
        "radius"@.len() == 6,
        "radius"@[0] == 'r',
        "start-angle"@.len() == 11,
        "end-angle"@.len() == 9,
        "end-angle"@[0] == 'e',
        "ctrl1-x"@.len() == 7,
        "ctrl1-x"@[4] == '1',
        "ctrl1-x"@[6] == 'x',
        "ctrl1-y"@.len() == 7,
        "ctrl1-y"@[4] == '1',
        "ctrl1-y"@[6] == 'y',
        "ctrl2-x"@.len() == 7,
        "ctrl2-x"@[4] == '2',
        "ctrl2-x"@[6] == 'x',
        "ctrl2-y"@.len() == 7,
        "ctrl2-y"@[4] == '2',
        "ctrl2-y"@[6] == 'y',
        "from"@.len() == 4,
        "from"@[0] == 'f',
        "to"@.len() == 2,
        "center"@.len() == 6,
        "center"@[0] == 'c',
        "eye-x"@.len() == 5,
        "eye-x"@[0] == 'e',
        "eye-x"@[4] == 'x',
        "eye-y"@.len() == 5,
        "eye-y"@[0] == 'e',
        "eye-y"@[4] == 'y',
        "eye-z"@.len() == 5,
        "eye-z"@[0] == 'e',
        "eye-z"@[4] == 'z',
        "target-x"@.len() == 8,
        "target-x"@[0] == 't',
        "target-x"@[7] == 'x',
        "target-y"@.len() == 8,
        "target-y"@[0] == 't',
        "target-y"@[7] == 'y',
        "target-z"@.len() == 8,
        "target-z"@[0] == 't',
        "target-z"@[7] == 'z',
        "up-x"@.len() == 4,
        "up-x"@[0] == 'u',
        "up-x"@[3] == 'x',
        "up-y"@.len() == 4,
        "up-y"@[0] == 'u',
        "up-y"@[3] == 'y',
        "up-z"@.len() == 4,
        "up-z"@[0] == 'u',
        "up-z"@[3] == 'z',
        "fov"@.len() == 3,
        "fov"@[1] == 'o',
        "near"@.len() == 4,
        "near"@[0] == 'n',
        "far"@.len() == 3,
        "far"@[1] == 'a',
        "ortho-height"@.len() == 12,
{
    reveal_strlit("thickness");
    reveal_strlit("width");
    reveal_strlit("from-x");
    reveal_strlit("from-y");
    reveal_strlit("to-x");
    reveal_strlit("to-y");
    reveal_strlit("center-x");
    reveal_strlit("center-y");
    reveal_strlit("radius");
    reveal_strlit("start-angle");
    reveal_strlit("end-angle");
    reveal_strlit("ctrl1-x");
    reveal_strlit("ctrl1-y");
    reveal_strlit("ctrl2-x");
    reveal_strlit("ctrl2-y");
    reveal_strlit("from");
    reveal_strlit("to");
    reveal_strlit("center");
    reveal_strlit("eye-x");
    reveal_strlit("eye-y");
    reveal_strlit("eye-z");
    reveal_strlit("target-x");
    reveal_strlit("target-y");
    reveal_strlit("target-z");
    reveal_strlit("up-x");
    reveal_strlit("up-y");
    reveal_strlit("up-z");
    reveal_strlit("fov");
    reveal_strlit("near");
    reveal_strlit("far");
    reveal_strlit("ortho-height");
}

/// A numeric argument after a keyword that names a value of a drawn shape
/// sets that value and no other: every keyword then reads the argument
/// where it names the same value as `key`, and what it read before
/// otherwise.
pub proof fn lemma_shape_numeric_param(sp: CustomElementSpecV, key: Seq<char>, p: MdTree)
    requires
        shape_field(sp, key) is Some,
        anchor_arg(p) is None,
        float_arg(p) is Some,
    ensures
        forall|k2: Seq<char>|
            #[trigger] shape_field(shape_apply(sp, key, p), k2) == if same_field(key, k2) {
                float_arg(p)
            } else {
                shape_field(sp, k2)
            },
{
    lemma_param_words();
}

/// An anchor word after `from`, `to` or `center` moves that point of a
/// shape that has it to the anchor's fractions and changes no other value;
/// after any other keyword it changes nothing.
pub proof fn lemma_shape_anchor_param(sp: CustomElementSpecV, key: Seq<char>, p: MdTree)
    requires
        !(sp is RenderWindow),
        anchor_arg(p) is Some,
    ensures
        point_keys(key) is Some && shape_field(sp, (point_keys(key)->0).0) is Some ==> forall|k2: Seq<char>|
            #[trigger] shape_field(shape_apply(sp, key, p), k2) == if k2 == (point_keys(key)->0).0 {
                Some(num(frac_text((anchor_arg(p)->0).0)))
            } else if k2 == (point_keys(key)->0).1 {
                Some(num(frac_text((anchor_arg(p)->0).1)))
            } else {
                shape_field(sp, k2)
            },
        point_keys(key) is None ==> shape_apply(sp, key, p) == sp,
{
    lemma_param_words();
}

/// A camera keyword of a `render-window` sets that override to the number
/// after it (to nothing without one) and changes no other override nor the
/// camera's name.
pub proof fn lemma_camera_param(sp: CustomElementSpecV, key: Seq<char>, p: MdTree)
    requires
        camera_field(sp, key) is Some,
    ensures
        shape_apply(sp, key, p) is RenderWindow,
        shape_apply(sp, key, p)->camera == sp->camera,
        forall|k2: Seq<char>|
            #[trigger] camera_field(shape_apply(sp, key, p), k2) == if k2 == key {
                Some(float_arg(p))
            } else {
                camera_field(sp, k2)
            },
{
    lemma_param_words();
}

impl CustomElementSpec {
    /// This shape after the shape parameter keyword `key` with the argument
    /// in the paragraph `p` (see [`shape_apply`]).
    pub fn apply_param(self, key: &str, p: &MdNode) -> (r: Self)
        ensures
            r.deep_view() == shape_apply(self.deep_view(), key@, p.model()),
    {
        match self {
            CustomElementSpec::RenderWindow { camera, eye_x, eye_y, eye_z, target_x, target_y, target_z, up_x, up_y, up_z, fov, near, far, ortho_height } => {
                return CustomElementSpec::RenderWindow {
                    camera,
                    eye_x: if str_eq(key, "eye-x") { float_arg_of(p) } else { eye_x },
                    eye_y: if str_eq(key, "eye-y") { float_arg_of(p) } else { eye_y },
                    eye_z: if str_eq(key, "eye-z") { float_arg_of(p) } else { eye_z },
                    target_x: if str_eq(key, "target-x") { float_arg_of(p) } else { target_x },
                    target_y: if str_eq(key, "target-y") { float_arg_of(p) } else { target_y },
                    target_z: if str_eq(key, "target-z") { float_arg_of(p) } else { target_z },
                    up_x: if str_eq(key, "up-x") { float_arg_of(p) } else { up_x },
                    up_y: if str_eq(key, "up-y") { float_arg_of(p) } else { up_y },
                    up_z: if str_eq(key, "up-z") { float_arg_of(p) } else { up_z },
                    fov: if str_eq(key, "fov") { float_arg_of(p) } else { fov },
                    near: if str_eq(key, "near") { float_arg_of(p) } else { near },
                    far: if str_eq(key, "far") { float_arg_of(p) } else { far },
                    ortho_height: if str_eq(key, "ortho-height") { float_arg_of(p) } else { ortho_height },
                };
            },
            _ => {},
        }
        match anchor_arg_of(p) {
            Some((x, y)) => {
                match self {
                    CustomElementSpec::Line { from_x, from_y, to_x, to_y, thickness } => {
                        if str_eq(key, "from") {
                            return CustomElementSpec::Line { from_x: lit_owned(frac_string(x)), from_y: lit_owned(frac_string(y)), to_x: to_x, to_y: to_y, thickness: thickness };
                        }
                        if str_eq(key, "to") {
                            return CustomElementSpec::Line { from_x: from_x, from_y: from_y, to_x: lit_owned(frac_string(x)), to_y: lit_owned(frac_string(y)), thickness: thickness };
                        }
                        CustomElementSpec::Line { from_x, from_y, to_x, to_y, thickness }
                    },
                    CustomElementSpec::Bezier { from_x, from_y, ctrl1_x, ctrl1_y, ctrl2_x, ctrl2_y, to_x, to_y, thickness } => {
                        if str_eq(key, "from") {
                            return CustomElementSpec::Bezier { from_x: lit_owned(frac_string(x)), from_y: lit_owned(frac_string(y)), ctrl1_x: ctrl1_x, ctrl1_y: ctrl1_y, ctrl2_x: ctrl2_x, ctrl2_y: ctrl2_y, to_x: to_x, to_y: to_y, thickness: thickness };
                        }
                        if str_eq(key, "to") {
                            return CustomElementSpec::Bezier { from_x: from_x, from_y: from_y, ctrl1_x: ctrl1_x, ctrl1_y: ctrl1_y, ctrl2_x: ctrl2_x, ctrl2_y: ctrl2_y, to_x: lit_owned(frac_string(x)), to_y: lit_owned(frac_string(y)), thickness: thickness };
                        }
                        CustomElementSpec::Bezier { from_x, from_y, ctrl1_x, ctrl1_y, ctrl2_x, ctrl2_y, to_x, to_y, thickness }
                    },
                    CustomElementSpec::Arc { center_x, center_y, radius, start_angle, end_angle, thickness } => {
                        if str_eq(key, "center") {
                            return CustomElementSpec::Arc { center_x: lit_owned(frac_string(x)), center_y: lit_owned(frac_string(y)), radius: radius, start_angle: start_angle, end_angle: end_angle, thickness: thickness };
                        }
                        CustomElementSpec::Arc { center_x, center_y, radius, start_angle, end_angle, thickness }
                    },
                    other => other,
                }
            },
            None => match self {
                CustomElementSpec::Circle => CustomElementSpec::Circle,
                CustomElementSpec::Ring { thickness } => CustomElementSpec::Ring {
                    thickness: upd_exec(thickness, (str_eq(key, "thickness") || str_eq(key, "width")), p),
                },
                CustomElementSpec::Line { from_x, from_y, to_x, to_y, thickness } => CustomElementSpec::Line {
                    from_x: upd_exec(from_x, str_eq(key, "from-x"), p),
                    from_y: upd_exec(from_y, str_eq(key, "from-y"), p),
                    to_x: upd_exec(to_x, str_eq(key, "to-x"), p),
                    to_y: upd_exec(to_y, str_eq(key, "to-y"), p),
                    thickness: upd_exec(thickness, (str_eq(key, "thickness") || str_eq(key, "width")), p),
                },
                CustomElementSpec::Arc { center_x, center_y, radius, start_angle, end_angle, thickness } => CustomElementSpec::Arc {
                    center_x: upd_exec(center_x, str_eq(key, "center-x"), p),
                    center_y: upd_exec(center_y, str_eq(key, "center-y"), p),
                    radius: upd_exec(radius, str_eq(key, "radius"), p),
                    start_angle: upd_exec(start_angle, str_eq(key, "start-angle"), p),
                    end_angle: upd_exec(end_angle, str_eq(key, "end-angle"), p),
                    thickness: upd_exec(thickness, (str_eq(key, "thickness") || str_eq(key, "width")), p),
                },
                CustomElementSpec::Bezier { from_x, from_y, ctrl1_x, ctrl1_y, ctrl2_x, ctrl2_y, to_x, to_y, thickness } => CustomElementSpec::Bezier {
                    from_x: upd_exec(from_x, str_eq(key, "from-x"), p),
                    from_y: upd_exec(from_y, str_eq(key, "from-y"), p),
                    ctrl1_x: upd_exec(ctrl1_x, str_eq(key, "ctrl1-x"), p),
                    ctrl1_y: upd_exec(ctrl1_y, str_eq(key, "ctrl1-y"), p),
                    ctrl2_x: upd_exec(ctrl2_x, str_eq(key, "ctrl2-x"), p),
                    ctrl2_y: upd_exec(ctrl2_y, str_eq(key, "ctrl2-y"), p),
                    to_x: upd_exec(to_x, str_eq(key, "to-x"), p),
                    to_y: upd_exec(to_y, str_eq(key, "to-y"), p),
                    thickness: upd_exec(thickness, (str_eq(key, "thickness") || str_eq(key, "width")), p),
                },
                other => other,
            },
        }
    }
}

fn lit_owned(t: String) -> (r: DataSrc<String>)
    ensures
        r.deep_view() == num(t@),
{
    DataSrc::Static(t)
}

/// The effect `name` with its defaults, before any parameter keyword. Each
/// colour starts with no value written (the effect's own default colour
/// applies).
pub open spec fn shader_default(name: Seq<char>) -> ShaderSpecV {
    ShaderSpecV {
        name,
        shadow_offset_x: num("0.0"@),
        shadow_offset_y: num("2.0"@),
        shadow_blur: num("8.0"@),
        shadow_spread: num("0.0"@),
        shadow_color: Seq::empty(),
        bevel_width: num("6.0"@),
        bevel_light_angle: num("225.0"@),
        bevel_highlight: num("0.9"@),
        bevel_shade: num("0.6"@),
        glow_blur: num("8.0"@),
        glow_spread: num("0.0"@),
        glow_color: Seq::empty(),
        blur_radius: num("8.0"@),
        blur_tint: Seq::empty(),
        custom: Seq::new(8, |i: int| num("0.0"@)),
    }
}

/// The custom-shader slot a `shader-param-N` keyword sets.
pub open spec fn custom_slot(key: Seq<char>) -> Option<int> {

    if key == "shader-param-1"@ {
        Some(0)
    } else if key == "shader-param-2"@ {
        Some(1)
    } else if key == "shader-param-3"@ {
        Some(2)
    } else if key == "shader-param-4"@ {
        Some(3)
    } else if key == "shader-param-5"@ {
        Some(4)
    } else if key == "shader-param-6"@ {
        Some(5)
    } else if key == "shader-param-7"@ {
        Some(6)
    } else if key == "shader-param-8"@ {
        Some(7)
    } else {
        None
    }
}

/// `sp` after the shader parameter keyword `key` with the argument in the
/// paragraph `p`: `shader-param-N` and the numeric tunables take a numeric
/// argument, the colour tunables add the value written; without a usable
/// argument nothing changes.
pub open spec fn shader_apply(sp: ShaderSpecV, key: Seq<char>, p: MdTree) -> ShaderSpecV {
    match custom_slot(key) {
        Some(k) => match float_arg(p) {
            Some(v) => if k < sp.custom.len() {
                ShaderSpecV { custom: sp.custom.update(k, v), ..sp }
            } else {
                sp
            },
            None => sp,
        },
        None => 
if key == "shadow-offset-x"@ {
            match float_arg(p) {
                Some(v) => ShaderSpecV { shadow_offset_x: v, ..sp },
                None => sp,
            }
        } else if key == "shadow-offset-y"@ {
            match float_arg(p) {
                Some(v) => ShaderSpecV { shadow_offset_y: v, ..sp },
                None => sp,
            }
        } else if key == "shadow-blur"@ {
            match float_arg(p) {
                Some(v) => ShaderSpecV { shadow_blur: v, ..sp },
                None => sp,
            }
        } else if key == "shadow-spread"@ {
            match float_arg(p) {
                Some(v) => ShaderSpecV { shadow_spread: v, ..sp },
                None => sp,
            }
        } else if key == "bevel-width"@ {
            match float_arg(p) {
                Some(v) => ShaderSpecV { bevel_width: v, ..sp },
                None => sp,
            }
        } else if key == "bevel-light-angle"@ {
            match float_arg(p) {
                Some(v) => ShaderSpecV { bevel_light_angle: v, ..sp },
                None => sp,
            }
        } else if key == "bevel-highlight"@ {
            match float_arg(p) {
                Some(v) => ShaderSpecV { bevel_highlight: v, ..sp },
                None => sp,
            }
        } else if key == "bevel-shade"@ {
            match float_arg(p) {
                Some(v) => ShaderSpecV { bevel_shade: v, ..sp },
                None => sp,
            }
        } else if key == "glow-blur"@ {
            match float_arg(p) {
                Some(v) => ShaderSpecV { glow_blur: v, ..sp },
                None => sp,
            }
        } else if key == "glow-spread"@ {
            match float_arg(p) {
                Some(v) => ShaderSpecV { glow_spread: v, ..sp },
                None => sp,
            }
        } else if key == "blur-radius"@ {
            match float_arg(p) {
                Some(v) => ShaderSpecV { blur_radius: v, ..sp },
                None => sp,
            }
        } else if key == "shadow-color"@ {
            match text_arg(p) {
                Some(v) => ShaderSpecV { shadow_color: sp.shadow_color.push(v), ..sp },
                None => sp,
            }
        } else if key == "glow-color"@ {
            match text_arg(p) {
                Some(v) => ShaderSpecV { glow_color: sp.glow_color.push(v), ..sp },
                None => sp,
            }
        } else if key == "blur-tint"@ {
            match text_arg(p) {
                Some(v) => ShaderSpecV { blur_tint: sp.blur_tint.push(v), ..sp },
                None => sp,
            }
        } else {
            sp
        },
    }
}

/// The numeric tunable of an effect that the keyword `key` names (a
/// `shader-param-N` names the N-th custom value); `None` where it names none.
pub open spec fn shader_value(sp: ShaderSpecV, key: Seq<char>) -> Option<DataSrcV<Seq<char>>> {
    if key == "shadow-offset-x"@ {
        Some(sp.shadow_offset_x)
    } else if key == "shadow-offset-y"@ {
        Some(sp.shadow_offset_y)
    } else if key == "shadow-blur"@ {
        Some(sp.shadow_blur)
    } else if key == "shadow-spread"@ {
        Some(sp.shadow_spread)
    } else if key == "bevel-width"@ {
        Some(sp.bevel_width)
    } else if key == "bevel-light-angle"@ {
        Some(sp.bevel_light_angle)
    } else if key == "bevel-highlight"@ {
        Some(sp.bevel_highlight)
    } else if key == "bevel-shade"@ {
        Some(sp.bevel_shade)
    } else if key == "glow-blur"@ {
        Some(sp.glow_blur)
    } else if key == "glow-spread"@ {
        Some(sp.glow_spread)
    } else if key == "blur-radius"@ {
        Some(sp.blur_radius)
    } else if key == "shader-param-1"@ {
        if sp.custom.len() > 0 {
            Some(sp.custom[0])
        } else {
            None
        }
    } else if key == "shader-param-2"@ {
        if sp.custom.len() > 1 {
            Some(sp.custom[1])
        } else {
            None
        }
    } else if key == "shader-param-3"@ {
        if sp.custom.len() > 2 {
            Some(sp.custom[2])
        } else {
            None
        }
    } else if key == "shader-param-4"@ {
        if sp.custom.len() > 3 {
            Some(sp.custom[3])
        } else {
            None
        }
    } else if key == "shader-param-5"@ {
        if sp.custom.len() > 4 {
            Some(sp.custom[4])
        } else {
            None
        }
    } else if key == "shader-param-6"@ {
        if sp.custom.len() > 5 {
            Some(sp.custom[5])
        } else {
            None
        }
    } else if key == "shader-param-7"@ {
        if sp.custom.len() > 6 {
            Some(sp.custom[6])
        } else {
            None
        }
    } else if key == "shader-param-8"@ {
        if sp.custom.len() > 7 {
            Some(sp.custom[7])
        } else {
            None
        }
    } else {
        None
    }
}

/// The colours written so far for the colour tunable of an effect that the
/// keyword `key` names; `None` where it names none.
pub open spec fn shader_colors(sp: ShaderSpecV, key: Seq<char>) -> Option<Seq<DataSrcV<Seq<char>>>> {
    if key == "shadow-color"@ {
        Some(sp.shadow_color)
    } else if key == "glow-color"@ {
        Some(sp.glow_color)
    } else if key == "blur-tint"@ {
        Some(sp.blur_tint)
    } else {
        None
    }
}

/// What the shader parameter keywords are made of: enough of each to tell
/// any two of them apart.
pub proof fn lemma_shader_words()
    ensures
        "shadow-offset-x"@.len() == 15,
        "shadow-offset-x"@[0] == 's',
        "shadow-offset-x"@[14] == 'x',
        "shadow-offset-y"@.len() == 15,
        "shadow-offset-y"@[0] == 's',
        "shadow-offset-y"@[14] == 'y',
        "shadow-blur"@.len() == 11,
        "shadow-blur"@[0] == 's',
        "shadow-spread"@.len() == 13,
        "bevel-width"@.len() == 11,
        "bevel-width"@[0] == 'b',
        "bevel-width"@[1] == 'e',
        "bevel-width"@[6] == 'w',
        "bevel-light-angle"@.len() == 17,
        "bevel-highlight"@.len() == 15,
        "bevel-highlight"@[0] == 'b',
        "bevel-shade"@.len() == 11,
        "bevel-shade"@[0] == 'b',
        "bevel-shade"@[1] == 'e',
        "bevel-shade"@[6] == 's',
        "glow-blur"@.len() == 9,
        "glow-blur"@[0] == 'g',
        "glow-spread"@.len() == 11,
        "glow-spread"@[0] == 'g',
        "blur-radius"@.len() == 11,
        "blur-radius"@[0] == 'b',
        "blur-radius"@[1] == 'l',
        "shadow-color"@.len() == 12,
        "glow-color"@.len() == 10,
        "blur-tint"@.len() == 9,
        "blur-tint"@[0] == 'b',
        "shader-param-1"@.len() == 14,
        "shader-param-1"@[13] == '1',
        "shader-param-2"@.len() == 14,
        "shader-param-2"@[13] == '2',
        "shader-param-3"@.len() == 14,
        "shader-param-3"@[13] == '3',
        "shader-param-4"@.len() == 14,
        "shader-param-4"@[13] == '4',
        "shader-param-5"@.len() == 14,
        "shader-param-5"@[13] == '5',
        "shader-param-6"@.len() == 14,
        "shader-param-6"@[13] == '6',
        "shader-param-7"@.len() == 14,
        "shader-param-7"@[13] == '7',
        "shader-param-8"@.len() == 14,
        "shader-param-8"@[13] == '8',
{
    reveal_strlit("shadow-offset-x");
    reveal_strlit("shadow-offset-y");
    reveal_strlit("shadow-blur");
    reveal_strlit("shadow-spread");
    reveal_strlit("bevel-width");
    reveal_strlit("bevel-light-angle");
    reveal_strlit("bevel-highlight");
    reveal_strlit("bevel-shade");
    reveal_strlit("glow-blur");
    reveal_strlit("glow-spread");
    reveal_strlit("blur-radius");
    reveal_strlit("shadow-color");
    reveal_strlit("glow-color");
    reveal_strlit("blur-tint");
    reveal_strlit("shader-param-1");
    reveal_strlit("shader-param-2");
    reveal_strlit("shader-param-3");
    reveal_strlit("shader-param-4");
    reveal_strlit("shader-param-5");
    reveal_strlit("shader-param-6");
    reveal_strlit("shader-param-7");
    reveal_strlit("shader-param-8");
}

/// A number after a keyword that names a numeric tunable of an effect sets
/// that tunable and nothing else: the effect's name, its other tunables and
/// its colours stay.
pub proof fn lemma_shader_numeric_param(sp: ShaderSpecV, key: Seq<char>, p: MdTree)
    requires
        shader_value(sp, key) is Some,
        float_arg(p) is Some,
    ensures
        shader_apply(sp, key, p).name == sp.name,
        forall|k2: Seq<char>|
            #[trigger] shader_value(shader_apply(sp, key, p), k2) == if k2 == key {
                float_arg(p)
            } else {
                shader_value(sp, k2)
            },
        forall|k2: Seq<char>| #[trigger] shader_colors(shader_apply(sp, key, p), k2) == shader_colors(sp, k2),
{
    lemma_shader_words();
}

/// A value after a colour keyword of an effect is added to that colour's
/// values and changes nothing else.
pub proof fn lemma_shader_color_param(sp: ShaderSpecV, key: Seq<char>, p: MdTree)
    requires
        shader_colors(sp, key) is Some,
        text_arg(p) is Some,
    ensures
        shader_apply(sp, key, p).name == sp.name,
        forall|k2: Seq<char>|
            #[trigger] shader_colors(shader_apply(sp, key, p), k2) == if k2 == key {
                Some(shader_colors(sp, key)->0.push(text_arg(p)->0))
            } else {
                shader_colors(sp, k2)
            },
        forall|k2: Seq<char>| #[trigger] shader_value(shader_apply(sp, key, p), k2) == shader_value(sp, k2),
{
    lemma_shader_words();
}

/// The kind of effect a shader name selects: a built-in alias, or a custom
/// shader.
#[derive(Clone, Copy, Debug, PartialEq, Eq)]
pub enum EffectKind {
    DropShadow,
    RaisedEdge,
    InnerGlow,
    Blur,
    Custom,
}

/// The kind of effect `name` selects.
pub open spec fn effect_kind(name: Seq<char>) -> EffectKind {
    if name == "drop_shadow"@ || name == "shadow"@ {
        EffectKind::DropShadow
    } else if name == "raised_edge"@ || name == "bevel"@ {
        EffectKind::RaisedEdge
    } else if name == "inner_glow"@ || name == "glow"@ {
        EffectKind::InnerGlow
    } else if name == "blur"@ {
        EffectKind::Blur
    } else {
        EffectKind::Custom
    }
}

impl ShaderSpec {
    /// The effect `name` with its defaults.
    pub fn with_name(name: String) -> (r: Self)
        ensures
            r.deep_view() == shader_default(name@),
    {
        let mut custom: Vec<DataSrc<String>> = Vec::new();
        let mut i: usize = 0;
        assert(custom.deep_view() =~= Seq::new(0, |j: int| num("0.0"@)));
        while i < 8
            invariant
                i <= 8,
                custom.deep_view() == Seq::new(i as nat, |j: int| num("0.0"@)),
            decreases 8 - i,
        {
            push_dv(&mut custom, lit("0.0"));
            i = i + 1;
            assert(custom.deep_view() =~= Seq::new(i as nat, |j: int| num("0.0"@)));
        }
        let r = ShaderSpec {
            name,
            shadow_offset_x: lit("0.0"),
            shadow_offset_y: lit("2.0"),
            shadow_blur: lit("8.0"),
            shadow_spread: lit("0.0"),
            shadow_color: Vec::new(),
            bevel_width: lit("6.0"),
            bevel_light_angle: lit("225.0"),
            bevel_highlight: lit("0.9"),
            bevel_shade: lit("0.6"),
            glow_blur: lit("8.0"),
            glow_spread: lit("0.0"),
            glow_color: Vec::new(),
            blur_radius: lit("8.0"),
            blur_tint: Vec::new(),
            custom,
        };

        assert(r.shadow_color.deep_view() =~= Seq::empty());
        assert(r.glow_color.deep_view() =~= Seq::empty());
        assert(r.blur_tint.deep_view() =~= Seq::empty());
        r
    }

    /// The kind of effect this shader's name selects.
    pub fn kind(&self) -> (k: EffectKind)
        ensures
            k == effect_kind(self.name@),
    {
        let n = self.name.as_str();
        if str_eq(n, "drop_shadow") || str_eq(n, "shadow") {
            EffectKind::DropShadow
        } else if str_eq(n, "raised_edge") || str_eq(n, "bevel") {
            EffectKind::RaisedEdge
        } else if str_eq(n, "inner_glow") || str_eq(n, "glow") {
            EffectKind::InnerGlow
        } else if str_eq(n, "blur") {
            EffectKind::Blur
        } else {
            EffectKind::Custom
        }
    }

    /// This effect after the shader parameter keyword `key` with the argument
    /// in the paragraph `p` (see [`shader_apply`]).
    pub fn apply_param(&mut self, key: &str, p: &MdNode)
        ensures
            final(self).deep_view() == shader_apply(old(self).deep_view(), key@, p.model()),
    {
        let slot = custom_slot_of(key);
        match slot {
            Some(k) => {
                match float_arg_of(p) {
                    Some(v) => if k < self.custom.len() {
                        set_dv(&mut self.custom, k, v);
                    },
                    None => {},
                }
                return;
            },
            None => {},
        }

        if str_eq(key, "shadow-offset-x") {
            match float_arg_of(p) {
                Some(v) => { self.shadow_offset_x = v; },
                None => {},
            }
        }
        else if str_eq(key, "shadow-offset-y") {
            match float_arg_of(p) {
                Some(v) => { self.shadow_offset_y = v; },
                None => {},
            }
        }
        else if str_eq(key, "shadow-blur") {
            match float_arg_of(p) {
                Some(v) => { self.shadow_blur = v; },
                None => {},
            }
        }
        else if str_eq(key, "shadow-spread") {
            match float_arg_of(p) {
                Some(v) => { self.shadow_spread = v; },
                None => {},
            }
        }
        else if str_eq(key, "bevel-width") {
            match float_arg_of(p) {
                Some(v) => { self.bevel_width = v; },
                None => {},
            }
        }
        else if str_eq(key, "bevel-light-angle") {
            match float_arg_of(p) {
                Some(v) => { self.bevel_light_angle = v; },
                None => {},
            }
        }
        else if str_eq(key, "bevel-highlight") {
            match float_arg_of(p) {
                Some(v) => { self.bevel_highlight = v; },
                None => {},
            }
        }
        else if str_eq(key, "bevel-shade") {
            match float_arg_of(p) {
                Some(v) => { self.bevel_shade = v; },
                None => {},
            }
        }
        else if str_eq(key, "glow-blur") {
            match float_arg_of(p) {
                Some(v) => { self.glow_blur = v; },
                None => {},
            }
        }
        else if str_eq(key, "glow-spread") {
            match float_arg_of(p) {
                Some(v) => { self.glow_spread = v; },
                None => {},
            }
        }
        else if str_eq(key, "blur-radius") {
            match float_arg_of(p) {
                Some(v) => { self.blur_radius = v; },
                None => {},
            }
        }
        else if str_eq(key, "shadow-color") {
            match text_arg_of(p) {
                Some(v) => push_dv(&mut self.shadow_color, v),
                None => {},
            }
        }
        else if str_eq(key, "glow-color") {
            match text_arg_of(p) {
                Some(v) => push_dv(&mut self.glow_color, v),
                None => {},
            }
        }
        else if str_eq(key, "blur-tint") {
            match text_arg_of(p) {
                Some(v) => push_dv(&mut self.blur_tint, v),
                None => {},
            }
        }
    }
}

fn custom_slot_of(key: &str) -> (r: Option<usize>)
    ensures
        match r {
            Some(k) => custom_slot(key@) == Some(k as int),
            None => custom_slot(key@) is None,
        },
{

    if str_eq(key, "shader-param-1") {
        Some(0)
    } else if str_eq(key, "shader-param-2") {
        Some(1)
    } else if str_eq(key, "shader-param-3") {
        Some(2)
    } else if str_eq(key, "shader-param-4") {
        Some(3)
    } else if str_eq(key, "shader-param-5") {
        Some(4)
    } else if str_eq(key, "shader-param-6") {
        Some(5)
    } else if str_eq(key, "shader-param-7") {
        Some(6)
    } else if str_eq(key, "shader-param-8") {
        Some(7)
    } else {
        None
    }
}

fn set_dv(v: &mut Vec<DataSrc<String>>, k: usize, x: DataSrc<String>)
    requires
        k < old(v)@.len(),
    ensures
        final(v).deep_view() == old(v).deep_view().update(k as int, x.deep_view()),
{
    let ghost before = v.deep_view();
    let ghost v0 = v@;
    let ghost xv = x.deep_view();
    v.set(k, x);
    assert forall|j: int| 0 <= j < v@.len() implies #[trigger] v.deep_view()[j] == before.update(
        k as int,
        xv,
    )[j] by {
        if j != k {
            assert(v@[j] == v0[j]);
        }
    }
    assert(v.deep_view() =~= before.update(k as int, xv));
}

} // verus!
