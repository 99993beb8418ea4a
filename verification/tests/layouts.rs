use telera::args::{parse_index_arg, parse_uv_rect};
use telera::document::{process_layout, FontLoad, ImageLoad, ShaderLoad};
use telera::ir::{Config, CustomElementSpec, DataSrc, Declaration, Element, Layout};

/// The number a static value reads as.
fn num(v: &DataSrc<String>) -> Option<f32> {
    match v {
        DataSrc::Static(t) => t.parse::<f32>().ok(),
        DataSrc::Dynamic(_) => None,
    }
}

fn opt_num(v: &Option<DataSrc<String>>) -> Option<f32> {
    v.as_ref().and_then(num)
}

fn configs(body: &[Layout]) -> Vec<&Config> {
    body.iter()
        .filter_map(|c| match c {
            Layout::Config(c) => Some(c),
            _ => None,
        })
        .collect()
}

fn custom_specs(body: &[Layout]) -> Vec<&CustomElementSpec> {
    body.iter()
        .filter_map(|c| match c {
            Layout::Config(Config::CustomElement(s)) => Some(s),
            _ => None,
        })
        .collect()
}

/// Every `*Opened` has a matching `*Closed` and the stream never dips below
/// zero depth.
fn well_nested(body: &[Layout]) -> bool {
    let mut depth = 0i32;
    for c in body {
        if let Layout::Element(e) = c {
            let n = format!("{e:?}");
            if n.contains("Opened") {
                depth += 1;
            } else if n.contains("Closed") {
                depth -= 1;
            }
        }
        if depth < 0 {
            return false;
        }
    }
    depth == 0
}

#[test]
fn canvas_parses() {
    let src = "\
# root
- `canvas` board
    - `config`
        - `world-width` 4000
        - `world-height` 3000
        - `min-zoom` 0.25
        - `max-zoom` 8
        - `zoom` 2
        - `pan-x` 15
        - `color` grey
    - `element` node
        - `config`
            - `width-fixed` 120
"
    .to_string();
    let body = process_layout(src).expect("canvas should parse").body;

    // exactly one Config::Canvas, fully populated
    let canvas = body
        .iter()
        .find_map(|c| match c {
            Layout::Config(cfg @ Config::Canvas { .. }) => Some(cfg.clone()),
            _ => None,
        })
        .expect("a Config::Canvas");
    let Config::Canvas {
        name,
        world_width,
        world_height,
        min_zoom,
        max_zoom,
        initial_zoom,
        initial_pan_x,
        initial_pan_y,
    } = canvas
    else {
        unreachable!()
    };
    assert_eq!(name, "board");
    assert_eq!(opt_num(&world_width), Some(4000.0));
    assert_eq!(opt_num(&world_height), Some(3000.0));
    assert_eq!(opt_num(&min_zoom), Some(0.25));
    assert_eq!(opt_num(&max_zoom), Some(8.0));
    assert_eq!(opt_num(&initial_zoom), Some(2.0));
    assert_eq!(opt_num(&initial_pan_x), Some(15.0));
    assert_eq!(initial_pan_y, None);

    // the plain `color` keyword still reached the outer container
    assert!(body.iter().any(|c| matches!(c, Layout::Config(Config::Color(_)))));

    // world-wrapper scaffolding, correctly paired and nested
    let world_open = body
        .iter()
        .position(|c| matches!(c, Layout::Element(Element::CanvasWorldOpened { .. })))
        .unwrap();
    let world_close = body
        .iter()
        .position(|c| matches!(c, Layout::Element(Element::CanvasWorldClosed)))
        .unwrap();
    assert!(world_open < world_close);
    assert!(body[world_open..world_close]
        .iter()
        .any(|c| matches!(c, Layout::Config(Config::CanvasWorldSize { .. }))));
    // the `node` child's config sits inside the world scope
    let node_fixed = body
        .iter()
        .position(|c| matches!(c, Layout::Config(Config::FixedX(_))))
        .unwrap();
    assert!(world_open < node_fixed && node_fixed < world_close);

    assert!(well_nested(&body));
}

#[test]
fn canvas_bare_parses() {
    let src = "\
# root
- `canvas` board
    - `element` node
"
    .to_string();
    let body = process_layout(src).unwrap().body;
    assert!(body.iter().any(|c| matches!(
        c,
        Layout::Config(Config::Canvas { world_width: None, initial_zoom: None, .. })
    )));
    assert!(body
        .iter()
        .any(|c| matches!(c, Layout::Element(Element::CanvasWorldOpened { .. }))));
}

#[test]
fn newly_exposed_config_keywords_parse() {
    let src = "\
# root
- `element`
    - `config`
        - `fit`
        - `horizontal`
        - `aspect-ratio` 1.5
        - `fixed-square` 24
        - `width-fixed` 10
        - `height-fixed` 20
        - `id-indexed` row
        - `scroll-horizontal`
        - `scroll-vertical`
        - `width-grow-min` 30
        - `width-grow-max` 90
        - `height-grow-min` 15
        - `floating`
            - `clip-to-parent`
            - `no-clip`
            - `pointer-capture`
            - `pointer-pass-through`
            - `attach-root`
            - `z-index` 5
            - `offset-x` 4
            - `offset-y` 8
            - `floating-dimensions-width` 100
            - `floating-dimensions-height` 50
    - `text`
        - `config`
            - `letter-spacing` 2
            - `wrap` none
        - hello
";
    let body = process_layout(src.to_string()).expect("should parse").body;
    let configs = configs(&body);
    let has = |pred: &dyn Fn(&Config) -> bool| configs.iter().any(|c| pred(c));

    assert!(has(&|c| matches!(c, Config::FitAll)));
    assert!(has(&|c| matches!(c, Config::Horizontal)));
    assert!(has(&|c| matches!(c, Config::AspectRatio(r) if num(r) == Some(1.5))));
    assert!(has(&|c| matches!(c, Config::FixedSquare(s) if num(s) == Some(24.0))));
    assert!(has(&|c| matches!(c, Config::FixedX(w) if num(w) == Some(10.0))));
    assert!(has(&|c| matches!(c, Config::FixedY(h) if num(h) == Some(20.0))));
    assert!(has(&|c| matches!(c, Config::IdIndexed(_))));
    // split sizing keywords fold back into one config per axis
    assert!(has(&|c| matches!(
        c,
        Config::GrowXminmax { min, max } if num(min) == Some(30.0) && num(max) == Some(90.0)
    )));
    assert!(has(&|c| matches!(c, Config::GrowYmin(m) if num(m) == Some(15.0))));
    assert!(has(&|c| matches!(
        c,
        Config::FloatingOffset { x, y } if num(x) == Some(4.0) && num(y) == Some(8.0)
    )));
    assert!(has(&|c| matches!(
        c,
        Config::Clip { vertical: DataSrc::Static(true), horizontal: DataSrc::Static(true) }
    )));
    assert!(has(&|c| matches!(c, Config::FloatingClipToParent)));
    assert!(has(&|c| matches!(c, Config::FloatingNoClip)));
    assert!(has(&|c| matches!(c, Config::FloatingPointerCapture)));
    assert!(has(&|c| matches!(c, Config::FloatingPointerPassThrough)));
    assert!(has(&|c| matches!(c, Config::FloatingAttachElementToRoot)));
    assert!(has(&|c| matches!(c, Config::FloatingZIndex { z: DataSrc::Static(5) })));
    assert!(has(&|c| matches!(
        c,
        Config::FloatingDimensions { width, height }
            if num(width) == Some(100.0) && num(height) == Some(50.0)
    )));
    assert!(has(&|c| matches!(c, Config::LetterSpacing(DataSrc::Static(2)))));
    assert!(has(&|c| matches!(c, Config::WrapNone)));
}

#[test]
fn floating_is_hoisted_to_the_front_of_its_block() {
    let src = "\
# root
- `element`
    - `config`
        - `grow`
        - `floating`
            - `z-index` 3
";
    let body = process_layout(src.to_string()).expect("should parse").body;
    let open = body.iter().position(|c| matches!(c, Layout::Element(Element::ConfigOpened))).unwrap();
    assert!(matches!(body[open + 1], Layout::Config(Config::Floating)));
    let floating = body.iter().position(|c| matches!(c, Layout::Config(Config::Floating))).unwrap();
    let grow = body.iter().position(|c| matches!(c, Layout::Config(Config::GrowAll))).unwrap();
    assert!(floating < grow);
}

#[test]
fn shape_elements_parse() {
    let src = "\
# root
- `element`
    - `config`
        - `grow`
    - `line`
        - `config`
            - `from` top-left
            - `to` bottom-right
            - `thickness` 3
    - `arc`
        - `config`
            - `start-angle` 45
            - `end-angle` 270
            - `radius` 0.8
            - `thickness` *stroke*
    - `ring`
    - `bezier`
        - `config`
            - `ctrl1-x` 0.1
            - `to-y` 0.25
";
    let body = process_layout(src.to_string()).expect("should parse").body;
    let specs = custom_specs(&body);
    assert_eq!(specs.len(), 4, "one spec per shape element");

    assert!(specs.iter().any(|s| matches!(
        s,
        CustomElementSpec::Line { from_x, from_y, to_x, to_y, thickness }
            if num(from_x) == Some(0.0) && num(from_y) == Some(0.0) && num(to_x) == Some(1.0)
                && num(to_y) == Some(1.0) && num(thickness) == Some(3.0)
    )));
    assert!(specs.iter().any(|s| matches!(
        s,
        CustomElementSpec::Arc {
            start_angle,
            end_angle,
            radius,
            thickness: DataSrc::Dynamic(_),
            ..
        } if num(start_angle) == Some(45.0) && num(end_angle) == Some(270.0) && num(radius) == Some(0.8)
    )));
    assert!(specs
        .iter()
        .any(|s| matches!(s, CustomElementSpec::Ring { thickness } if num(thickness) == Some(1.0))));
    assert!(specs.iter().any(|s| matches!(
        s,
        CustomElementSpec::Bezier { ctrl1_x, to_y, .. } if num(ctrl1_x) == Some(0.1) && num(to_y) == Some(0.25)
    )));
}

#[test]
fn shape_elements_nest_children() {
    let src = "\
# root
- `arc` outer
    - `config`
        - `grow`
        - `end-angle` 300
    - `arc` inner
        - `config`
            - `grow`
            - `end-angle` 220
        - `circle` hub
            - `config`
                - `fixed-square` 10
";
    let body = process_layout(src.to_string()).expect("should parse").body;

    // three shapes: outer arc, inner arc, hub circle
    let specs = custom_specs(&body);
    assert_eq!(specs.len(), 3);
    assert_eq!(specs.iter().filter(|s| matches!(s, CustomElementSpec::Arc { .. })).count(), 2);
    assert!(specs.iter().any(|s| matches!(s, CustomElementSpec::Circle)));

    // balanced open/close, and the outer shape's `CustomElement` config is
    // emitted before its children's opens (parent drawn first).
    let outer_custom = body
        .iter()
        .position(|c| matches!(c, Layout::Config(Config::CustomElement(_))))
        .unwrap();
    let inner_open = body
        .iter()
        .enumerate()
        .filter(|(_, c)| matches!(c, Layout::Element(Element::ElementOpened { .. })))
        .nth(1)
        .map(|(i, _)| i)
        .unwrap();
    assert!(outer_custom < inner_open);
    assert_eq!(
        body.iter()
            .filter(|c| matches!(c, Layout::Element(Element::ElementOpened { .. })))
            .count(),
        body.iter()
            .filter(|c| matches!(c, Layout::Element(Element::ElementClosed)))
            .count()
    );
}

#[test]
fn render_window_parses() {
    let src = "\
# root
- `render-window` cockpit
    - `config`
        - `grow`
        - `eye-z` *cam_z*
        - `fov` 60
- `render-window`
    - `config`
        - `grow`
";
    let body = process_layout(src.to_string()).expect("should parse").body;
    let specs = custom_specs(&body);
    assert_eq!(specs.len(), 2);

    assert!(specs.iter().any(|s| matches!(
        s,
        CustomElementSpec::RenderWindow {
            camera,
            eye_z: Some(DataSrc::Dynamic(_)),
            fov: Some(f),
            eye_x: None,
            ..
        } if camera == "cockpit" && num(f) == Some(60.0)
    )));
    // un-named render-window -> the shared `default` camera, no overrides
    assert!(specs.iter().any(|s| matches!(
        s,
        CustomElementSpec::RenderWindow { camera, fov: None, .. } if camera == "default"
    )));
}

fn uv(raw: &str) -> Option<Vec<f32>> {
    parse_uv_rect(raw).map(|ps| ps.iter().map(|p| p.parse::<f32>().unwrap()).collect())
}

#[test]
fn uv_rect_parsing() {
    assert_eq!(uv("[0, 0, 1, 1]"), Some(vec![0.0, 0.0, 1.0, 1.0]));
    assert_eq!(uv("[0,0,1,1]"), Some(vec![0.0, 0.0, 1.0, 1.0]));
    assert_eq!(uv("  [0.25, 0.5 , 0.75,1.0]  "), Some(vec![0.25, 0.5, 0.75, 1.0]));
    assert_eq!(uv("[0, 0, 1]"), None);
    assert_eq!(uv("[0, 0, 1, 1, 1]"), None);
    assert_eq!(uv("0, 0, 1, 1"), None);
    assert_eq!(uv("[a, b, c, d]"), None);
}

#[test]
fn uv_rect_parts_are_kept_as_written() {
    assert_eq!(
        parse_uv_rect("[ -1e2, +0.5,3., .25 ]"),
        Some(vec!["-1e2".to_string(), "+0.5".to_string(), "3.".to_string(), ".25".to_string()])
    );
    assert_eq!(parse_uv_rect("[]"), None);
    assert_eq!(parse_uv_rect("[1,,2,3]"), None);
}

#[test]
fn image_loading_syntax_parses() {
    let src = "\
#### TML 1.0
- `load` [pic](examples/pic.jpg)

# root
- `declarations`
  - `set-image` *family* *pic* [0, 0, 0.5, 1]
- `element`
  - `config`
    - `image` *family*
  - `element`
    - `config`
      - `image` *pic* [0, 0, 1, 1]
  - `element`
    - `config`
      - `image` from_the_app
";
    let parsed = process_layout(src.to_string()).expect("should parse");

    assert_eq!(
        parsed.image_loads,
        vec![ImageLoad { atlas: "pic".to_string(), path: "examples/pic.jpg".to_string() }]
    );

    // `set-image` -> a page-level declaration carrying the descriptor.
    let declared = parsed.body.iter().find_map(|c| match c {
        Layout::Declaration { name, value: DataSrc::Static(Declaration::Image(descriptor)) }
            if name == "family" => Some(descriptor),
        _ => None,
    });
    let d = declared.expect("the descriptor");
    assert_eq!(d.atlas, "pic");
    let rect: Vec<f32> = [&d.u1, &d.v1, &d.u2, &d.v2].iter().map(|t| t.parse::<f32>().unwrap()).collect();
    assert_eq!(rect, vec![0.0, 0.0, 0.5, 1.0]);

    let configs = configs(&parsed.body);
    // `image` *family* -> a name lookup.
    assert!(configs.iter().any(|c| matches!(c, Config::Image { name } if name == "family")));
    // `image` from_the_app -> a bare name lookup.
    assert!(configs.iter().any(|c| matches!(c, Config::Image { name } if name == "from_the_app")));
    // `image` *pic* [..] -> an inline literal.
    assert!(configs.iter().any(|c| matches!(
        c,
        Config::ImageLiteral(d) if d.atlas == "pic" && d.u2.parse::<f32>() == Ok(1.0)
    )));
}

#[test]
fn dynamic_names_are_interned_verbatim() {
    let want = "content background color";
    let src = "\
# root
- `declarations`
    - `set-color` *content background color* rgb(1,2,3)
- `element`
    - `config`
        - `color` *content background color*
- `list` content background color
    - `element`
";
    let body = process_layout(src.to_string()).expect("should parse").body;

    // the `set-color` declaration's own name - kept verbatim
    assert!(body.iter().any(|c| matches!(c, Layout::Declaration { name, .. } if name == want)));
    // the `color` config that references it - same spelling
    assert!(body
        .iter()
        .any(|c| matches!(c, Layout::Config(Config::Color(DataSrc::Dynamic(s))) if s == want)));
    // the `list` name
    assert!(body
        .iter()
        .any(|c| matches!(c, Layout::Element(Element::ListClosed(s)) if s == want)));

    // A differently-cased / punctuated spelling is a *different* name.
    let hyphenated = "content-background-color";
    assert!(!body
        .iter()
        .any(|c| matches!(c, Layout::Config(Config::Color(DataSrc::Dynamic(s))) if s == hyphenated)));

    // `parse_index_arg` (used by `if-index` / `item`) keeps names verbatim too.
    assert!(matches!(parse_index_arg("My Index"), DataSrc::Dynamic(s) if s == "My Index"));
}

#[test]
fn index_args() {
    assert_eq!(parse_index_arg("3"), DataSrc::Static("3".to_string()));
    assert_eq!(parse_index_arg("  row "), DataSrc::Dynamic("row".to_string()));
}

#[test]
fn image_config_name_is_verbatim() {
    let want = "left half";
    let src = "\
#### TML 1.0
- `load` [pic](examples/pic.jpg)

# root
- `declarations`
    - `set-image` *left half* *pic* [0, 0, 0.5, 1]
- `element`
    - `config`
        - `image` *left half*
";
    let body = process_layout(src.to_string()).expect("should parse").body;
    assert!(body.iter().any(|c| matches!(c, Layout::Declaration { name, .. } if name == want)));
    assert!(body
        .iter()
        .any(|c| matches!(c, Layout::Config(Config::Image { name }) if name == want)));
}

#[test]
fn set_image_without_uv_is_an_alias() {
    let src = "\
# root
- `declarations`
    - `set-image` *base* *icon_atlas* [0.04, 0, 0.08, 1]
    - `set-image` *icon* *base*
";
    let body = process_layout(src.to_string()).expect("should parse").body;

    // literal (has a UV rect)
    assert!(body.iter().any(|c| matches!(
        c,
        Layout::Declaration { name, value: DataSrc::Static(Declaration::Image(d)) }
            if name == "base" && d.atlas == "icon_atlas"
    )));
    // alias (no UV rect) - points at `base`, does not become atlas "base"
    assert!(body.iter().any(|c| matches!(
        c,
        Layout::Declaration { name, value: DataSrc::Dynamic(src) } if name == "icon" && src == "base"
    )));
}

#[test]
fn set_image_use_parameter_reaches_reusable() {
    let src = "\
#### TML 1.0
- `load` [pic](examples/pic.jpg)

### model-control
- `element`
    - `config`
        - `image` *icon*

# root
- `element`
    - `config`
        - `vertical`
    - `use` model-control
        - `set-image` *icon* *pic* [0, 0, 1, 1]
";
    let parsed = process_layout(src.to_string()).expect("should parse");

    // the reusable stores an `image *icon*` lookup
    let reusable = parsed
        .reusables
        .iter()
        .find(|(n, _)| n == "model-control")
        .map(|(_, r)| r)
        .expect("reusable registered");
    assert!(reusable
        .iter()
        .any(|c| matches!(c, Layout::Config(Config::Image { name }) if name == "icon")));

    // the call site emits the parameter as a declaration inside the use block
    let mut depth = 0i32;
    let mut decl_in_use = false;
    for c in &parsed.body {
        match c {
            Layout::Element(Element::UseOpened) => depth += 1,
            Layout::Element(Element::UseClosed(_)) => depth -= 1,
            Layout::Declaration { name, value: DataSrc::Static(Declaration::Image(d)) }
                if depth > 0 && name == "icon" =>
            {
                assert_eq!(d.atlas, "pic");
                decl_in_use = true;
            }
            _ => {}
        }
    }
    assert!(decl_in_use, "set-image parameter should sit inside the use block");
}

#[test]
fn config_snippet_use_captures_parameters() {
    let src = "\
#### TML 1.0
- `load` [pic](examples/pic.jpg)

## model-control
- `image` *icon*

# root
- `element`
    - `config`
        - `use` model-control
            - `set-image` *icon* *pic* [0, 0, 1, 1]
";
    let body = process_layout(src.to_string()).expect("should parse").body;

    let params = body.iter().find_map(|c| match c {
        Layout::Config(Config::Use { name, params }) if name == "model-control" => Some(params),
        _ => None,
    });
    let params = params.expect("Config::Use emitted");
    assert!(params.iter().any(|(n, v)| n == "icon"
        && matches!(v, DataSrc::Static(Declaration::Image(d)) if d.atlas == "pic")));
}

#[test]
fn element_without_config_block_keeps_its_first_child() {
    let src = "\
### model-control
- `element`
    - `config`
        - `grow`

# root
- `element`
    - `use` model-control
        - `set-text` *label* hi
- `element`
    - `element` inner
";
    let body = process_layout(src.to_string()).expect("should parse").body;

    // the `use` under the config-less first element is emitted
    assert!(
        body.iter()
            .any(|c| matches!(c, Layout::Element(Element::UseClosed(s)) if s == "model-control")),
        "lone `use` child must not be swallowed as a config block"
    );
    // the config-less nested `element inner` is emitted too
    assert!(body
        .iter()
        .any(|c| matches!(c, Layout::Config(Config::Id(DataSrc::Static(id))) if id == "inner")));
}

#[test]
fn font_and_image_header_directives_parse() {
    let src = "\
#### TML 1.0
- `load` [pic](examples/pic.jpg)
- `font` [1](examples/fonts/TwemojiMozilla.ttf)
- `font` [42](fonts/Inter.otf)
- `font` [not-a-number](ignored.ttf)

# root
- `element`
";
    let parsed = process_layout(src.to_string()).expect("should parse");
    assert_eq!(
        parsed.image_loads,
        vec![ImageLoad { atlas: "pic".to_string(), path: "examples/pic.jpg".to_string() }]
    );
    assert_eq!(
        parsed.font_loads,
        vec![
            FontLoad { id: 1, path: "examples/fonts/TwemojiMozilla.ttf".to_string() },
            FontLoad { id: 42, path: "fonts/Inter.otf".to_string() },
        ]
    );
}

#[test]
fn shader_header_directive_parses() {
    let src = "\
#### TML 1.0
- `shader` [glass](examples/shaders/glass.wgsl)
- `shader` [neon](examples/shaders/neon.wgsl)

# root
- `element`
";
    let parsed = process_layout(src.to_string()).expect("should parse");
    assert_eq!(
        parsed.shader_loads,
        vec![
            ShaderLoad { name: "glass".to_string(), path: "examples/shaders/glass.wgsl".to_string() },
            ShaderLoad { name: "neon".to_string(), path: "examples/shaders/neon.wgsl".to_string() },
        ]
    );
}

#[test]
fn shader_config_keyword_parses() {
    let src = "\
# root
- `element`
    - `config`
        - `color` white
        - `shader` *drop_shadow*
        - `shadow-blur` 6
        - `shadow-color` *tint*
        - `shader` *raised_edge*
        - `bevel-width` 4
";
    let parsed = process_layout(src.to_string()).expect("should parse");
    let specs = parsed.body.iter().find_map(|c| match c {
        Layout::Config(Config::Shaders(s)) => Some(s),
        _ => None,
    });
    let specs = specs.expect("a Config::Shaders should be emitted");
    assert_eq!(specs.len(), 2);
    assert_eq!(specs[0].name, "drop_shadow");
    assert_eq!(num(&specs[0].shadow_blur), Some(6.0));
    // the colour slot's last candidate is the binding written
    assert!(matches!(specs[0].shadow_color.last(), Some(DataSrc::Dynamic(s)) if s == "tint"));
    assert_eq!(specs[1].name, "raised_edge");
    assert_eq!(num(&specs[1].bevel_width), Some(4.0));
    // `bevel-width` after the second `shader` must not have touched the first.
    assert_eq!(num(&specs[0].bevel_width), Some(6.0));
}

#[test]
fn process_layout_of_plain_text_is_empty() {
    let parsed = process_layout("just a paragraph\n\nand another".to_string()).expect("should parse");
    assert!(parsed.body.is_empty());
    assert!(parsed.reusables.is_empty());
    assert!(parsed.image_loads.is_empty());
    assert!(parsed.calc_table.is_empty());
}

#[test]
fn text_elements_nest_when_every_text_has_content() {
    let src = "\
### label
- `text`
  - `config`
    - `font-size` 12
  - *caption*

# root
- `element`
  - `config`
    - `grow`
  - `text`
    - `config`
      - `font-size` 16
    - Hello
  - `use` label
";
    let parsed = process_layout(src.to_string()).expect("should parse");
    assert!(well_nested(&parsed.body));
    for (_, snippet) in &parsed.reusables {
        assert!(well_nested(snippet));
    }
    assert!(parsed.body.contains(&Layout::Element(Element::TextElementClosed(DataSrc::Static("Hello".to_string())))));
}

#[test]
fn text_without_content_leaves_its_marker_open() {
    let src = "\
# root
- `text`
  - `config`
    - `font-size` 16
";
    let parsed = process_layout(src.to_string()).expect("should parse");
    // the other scopes still close, but the text element's own marker does not
    assert!(!well_nested(&parsed.body));
    let without_text: Vec<Layout> = parsed
        .body
        .iter()
        .filter(|c| !matches!(c, Layout::Element(Element::TextElementOpened) | Layout::Element(Element::TextElementClosed(_))))
        .cloned()
        .collect();
    assert!(well_nested(&without_text));
}
