use telera::args::{bool_str, i16_str, is_float_str, u16_str};
use telera::binder::{extract_page_locals, merge_locals, Binder};
use telera::document::{process_layout, ImageLoad};
use telera::events::{build_event_context, synthetic_gate_id_name, EventContext};
use telera::ir::{Config, DataSrc, Declaration, Element, ImageDescriptor, Layout, Number};
use telera::lookup::{resolve_image, resolve_lookup, ImageLookup, Lookup, ValueKind};
use telera::prepass::add_missing_keyword_backticks;

fn text_decl(name: &str, value: &str) -> Layout {
    Layout::Declaration { name: name.to_string(), value: DataSrc::Static(Declaration::Text(value.to_string())) }
}

#[test]
fn binder_pages_and_reusables() {
    let mut b = Binder::new();
    assert!(!b.has_page("main"));
    b.add_page("main", vec![text_decl("a", "1")]);
    assert!(b.has_page("main"));
    assert!(!b.has_reusable("main"));
    assert_eq!(b.page("main"), Some(&vec![text_decl("a", "1")]));

    // adding under the same name replaces
    b.add_page("main", vec![text_decl("a", "2")]);
    assert_eq!(b.page("main"), Some(&vec![text_decl("a", "2")]));

    b.add_reusable("snippet", vec![text_decl("s", "x")]);
    assert_eq!(b.reusable_of("snippet"), Some(&vec![text_decl("s", "x")]));
    assert_eq!(b.reusable_of("other"), None);
}

#[test]
fn binder_replace_only_what_exists() {
    let mut b = Binder::new();
    assert!(!b.replace_page("missing", vec![text_decl("a", "1")]));
    assert!(!b.has_page("missing"));
    assert!(!b.replace_reusable("missing", Vec::new()));
    assert!(!b.has_reusable("missing"));

    b.add_page("p", Vec::new());
    assert!(b.replace_page("p", vec![text_decl("a", "1")]));
    assert_eq!(b.page("p"), Some(&vec![text_decl("a", "1")]));

    b.add_reusable("r", Vec::new());
    assert!(b.replace_reusable("r", vec![text_decl("b", "2")]));
    assert_eq!(b.reusable_of("r"), Some(&vec![text_decl("b", "2")]));
}

#[test]
fn binder_load_layout_registers_page_and_snippets() {
    let src = "\
#### TML 1.0
- `load` [pic](examples/pic.jpg)

### card
- `element`

# root
- `element`
";
    let parsed = process_layout(src.to_string()).expect("should parse");
    let body = parsed.body.clone();
    let card = parsed.reusables[0].1.clone();
    let mut b = Binder::new();
    b.add_reusable("card", Vec::new());
    b.add_reusable("kept", vec![text_decl("k", "v")]);
    let resources = b.load_layout("home", Ok(parsed)).expect("registered");
    assert_eq!(b.page("home"), Some(&body));
    // a snippet of the layout replaces one of the same name; others stay
    assert_eq!(b.reusable_of("card"), Some(&card));
    assert_eq!(b.reusable_of("kept"), Some(&vec![text_decl("k", "v")]));
    assert_eq!(
        resources.image_loads,
        vec![ImageLoad { atlas: "pic".to_string(), path: "examples/pic.jpg".to_string() }]
    );
    assert!(resources.font_loads.is_empty());
}

#[test]
fn binder_load_layout_gives_back_a_compile_error() {
    let mut b = Binder::new();
    b.add_page("home", vec![text_decl("a", "1")]);
    b.add_reusable("card", vec![text_decl("c", "x")]);
    let r = b.load_layout("home", Err("failed to parse layout markdown".to_string()));
    assert_eq!(r, Err("failed to parse layout markdown".to_string()));
    // nothing was registered or replaced
    assert_eq!(b.page("home"), Some(&vec![text_decl("a", "1")]));
    assert_eq!(b.reusable_of("card"), Some(&vec![text_decl("c", "x")]));
    assert!(!b.has_page("other"));
}

#[test]
fn page_locals_skip_nested_scopes() {
    let commands = vec![
        text_decl("a", "1"),
        Layout::Element(Element::ListOpened),
        text_decl("inner", "x"),
        Layout::Element(Element::ListClosed("rows".to_string())),
        text_decl("b", "2"),
        text_decl("a", "3"),
    ];
    let locals = extract_page_locals(&commands);
    assert_eq!(
        locals,
        vec![
            ("a".to_string(), DataSrc::Static(Declaration::Text("3".to_string()))),
            ("b".to_string(), DataSrc::Static(Declaration::Text("2".to_string()))),
        ]
    );
}

#[test]
fn merged_locals_prefer_the_inner_scope() {
    let outer = vec![
        ("a".to_string(), DataSrc::Static(Declaration::Bool(true))),
        ("b".to_string(), DataSrc::Dynamic("field".to_string())),
    ];
    let inner = vec![("a".to_string(), DataSrc::Static(Declaration::Numeric(Number::Literal("4".to_string()))))];
    let merged = merge_locals(Some(&outer), &inner);
    let get = |k: &str| merged.iter().rev().find(|(n, _)| n == k).map(|(_, v)| v.clone());
    assert_eq!(get("a"), Some(DataSrc::Static(Declaration::Numeric(Number::Literal("4".to_string())))));
    assert_eq!(get("b"), Some(DataSrc::Dynamic("field".to_string())));
    assert_eq!(get("c"), None);
    let alone = merge_locals(None, &inner);
    assert_eq!(alone.len(), 1);
}

#[test]
fn event_context_carries_only_the_row() {
    assert_eq!(build_event_context(&None), None);
    assert_eq!(
        build_event_context(&Some(("rows".to_string(), 7))),
        Some(EventContext { text: None, code: None, code2: None, list_index: Some(7) })
    );
}

#[test]
fn gate_ids() {
    assert_eq!(synthetic_gate_id_name(&None, 0), "__telera_gate::0");
    assert_eq!(synthetic_gate_id_name(&None, 1234), "__telera_gate::1234");
    assert_eq!(
        synthetic_gate_id_name(&Some(("rows".to_string(), 12)), 3),
        "__telera_gate::rows#12::3"
    );
}

#[test]
fn literal_grammar() {
    for ok in ["0", "1.5", ".5", "5.", "-2", "+3", "1e3", "1E-3", "2.5e+2", "inf", "-Infinity", "NaN"] {
        assert!(is_float_str(ok), "{ok}");
        assert!(ok.parse::<f32>().is_ok(), "{ok}");
    }
    for bad in ["", ".", "e3", "1e", "1.2.3", " 1", "1 ", "--1", "abc", "0x10"] {
        assert!(!is_float_str(bad), "{bad}");
        assert!(bad.parse::<f32>().is_err(), "{bad}");
    }
    assert_eq!(u16_str("65535"), Some(65535));
    assert_eq!(u16_str("65536"), None);
    assert_eq!(u16_str("+8"), Some(8));
    assert_eq!(u16_str("-1"), None);
    assert_eq!(u16_str(""), None);
    assert_eq!(i16_str("-32768"), Some(-32768));
    assert_eq!(i16_str("32768"), None);
    assert_eq!(i16_str("007"), Some(7));
    assert_eq!(bool_str("true"), Some(true));
    assert_eq!(bool_str("false"), Some(false));
    assert_eq!(bool_str("True"), None);
}

#[test]
fn prepass_leaves_fenced_code_alone() {
    let src = "```\n- grow\n```\n- grow\n~~~\n- color red\n";
    assert_eq!(add_missing_keyword_backticks(src), "```\n- grow\n```\n- `grow`\n~~~\n- color red\n");
}

fn image(atlas: &str, u1: &str) -> ImageDescriptor {
    ImageDescriptor {
        atlas: atlas.to_string(),
        u1: u1.to_string(),
        v1: "0".to_string(),
        u2: "0.08".to_string(),
        v2: "1".to_string(),
    }
}

#[test]
fn image_alias_chain_resolves() {
    let desc = image("icon_atlas", "0.04");
    let mut locals = vec![
        ("connect_plc".to_string(), DataSrc::Static(Declaration::Image(desc.clone()))),
        ("icon".to_string(), DataSrc::Dynamic("connect_plc".to_string())),
        ("indirect".to_string(), DataSrc::Dynamic("icon".to_string())),
    ];
    assert_eq!(resolve_image("indirect", Some(&locals)), ImageLookup::Found(desc));

    // an alias that dead-ends asks the app for the last name of the chain
    locals.push(("dangling".to_string(), DataSrc::Dynamic("missing".to_string())));
    assert_eq!(resolve_image("dangling", Some(&locals)), ImageLookup::App("missing".to_string()));
    assert_eq!(resolve_image("pic", None), ImageLookup::App("pic".to_string()));
}

#[test]
fn image_alias_cycle_ends() {
    let locals = vec![
        ("a".to_string(), DataSrc::Dynamic("b".to_string())),
        ("b".to_string(), DataSrc::Dynamic("a".to_string())),
    ];
    // sixteen links from `a` end on `a` again
    assert_eq!(resolve_image("a", Some(&locals)), ImageLookup::App("a".to_string()));
    let text = vec![("t".to_string(), DataSrc::Static(Declaration::Text("x".to_string())))];
    assert_eq!(resolve_image("t", Some(&text)), ImageLookup::App("t".to_string()));
}

#[test]
fn lookups_prefer_bindings_in_scope() {
    let locals = vec![
        ("flag".to_string(), DataSrc::Static(Declaration::Bool(true))),
        ("label".to_string(), DataSrc::Dynamic("title".to_string())),
        ("flag".to_string(), DataSrc::Static(Declaration::Bool(false))),
    ];
    // the last binding of a name counts
    assert_eq!(resolve_lookup("flag", Some(&locals), ValueKind::Bool), Lookup::Local(Declaration::Bool(false)));
    // a binding of another kind falls through to the app
    assert_eq!(
        resolve_lookup("flag", Some(&locals), ValueKind::Text),
        Lookup::App(vec!["flag".to_string()])
    );
    // a binding that names a field asks for that field first
    assert_eq!(
        resolve_lookup("label", Some(&locals), ValueKind::Text),
        Lookup::App(vec!["title".to_string(), "label".to_string()])
    );
    assert_eq!(
        resolve_lookup("other", Some(&locals), ValueKind::Numeric),
        Lookup::App(vec!["other".to_string()])
    );
    assert_eq!(resolve_lookup("other", None, ValueKind::Event), Lookup::App(vec!["other".to_string()]));
}

#[test]
fn snippet_configs_replays_only_config_commands_in_order() {
    let mut b = Binder::new();
    assert_eq!(b.snippet_configs("style"), None);
    b.add_reusable(
        "style",
        vec![
            Layout::Config(Config::GrowAll),
            text_decl("x", "1"),
            Layout::Element(Element::ListOpened),
            Layout::Config(Config::FitAll),
        ],
    );
    assert_eq!(b.snippet_configs("style"), Some(vec![&Config::GrowAll, &Config::FitAll]));
    b.add_reusable("empty", vec![text_decl("y", "2")]);
    assert_eq!(b.snippet_configs("empty"), Some(Vec::new()));
}
