use telera::document::process_layout;
use telera::ir::{CursorIcon, DataSrc, Declaration, Element, Layout};
use telera::walker::{Action, Button, HitTarget, Query, Walker};

/// Steps through `body`, answering every question with `answer`.
fn walk(body: Vec<Layout>, answer: bool) -> Vec<Action> {
    let mut w = Walker::new(None, CursorIcon::Default);
    let mut actions = Vec::new();
    for cmd in body {
        assert!(w.can_step(&cmd));
        let a = w.step(cmd);
        if let Action::Ask(_) = a {
            w.answer(answer);
        }
        actions.push(a);
    }
    assert_eq!(w.nesting, 0);
    actions
}

fn opens(actions: &[Action]) -> usize {
    actions.iter().filter(|a| matches!(a, Action::OpenElement)).count()
}

#[test]
fn a_false_condition_skips_its_block() {
    let body = process_layout("# root\n- `if` ready\n    - `element`\n- `element`\n".to_string()).unwrap().body;
    let skipped = walk(body.clone(), false);
    assert!(skipped
        .iter()
        .any(|a| matches!(a, Action::Ask(Query::Condition(c)) if c == "ready")));
    assert_eq!(opens(&skipped), 1);
    let run = walk(body, true);
    assert_eq!(opens(&run), 2);
}

#[test]
fn if_not_runs_on_a_false_condition() {
    let body = process_layout("# root\n- `if-not` ready\n    - `element`\n".to_string()).unwrap().body;
    assert_eq!(opens(&walk(body.clone(), false)), 1);
    assert_eq!(opens(&walk(body, true)), 0);
}

#[test]
fn if_index_outside_a_list_never_runs() {
    let body = process_layout("# root\n- `if-index` 0\n    - `element`\n- `if-index-not` 0\n    - `element`\n".to_string())
        .unwrap()
        .body;
    let actions = walk(body, true);
    // no question is asked outside a list row: `if-index` is skipped, `if-index-not` runs
    assert!(!actions.iter().any(|a| matches!(a, Action::Ask(_))));
    assert_eq!(opens(&actions), 1);
}

#[test]
fn a_list_body_is_collected_for_replay() {
    let src = "\
# root
- `list` rows
    - `declarations`
        - `set-text` *a* x
    - `element`
";
    let body = process_layout(src.to_string()).unwrap().body;
    let actions = walk(body, true);
    let repeat = actions
        .iter()
        .find_map(|a| match a {
            Action::RepeatList { list, commands, params } => Some((list, commands, params)),
            _ => None,
        })
        .expect("a replay");
    assert_eq!(repeat.0, "rows");
    assert_eq!(
        repeat.1,
        &vec![
            Layout::Element(Element::ElementOpened { id: None }),
            Layout::Element(Element::ConfigOpened),
            Layout::Element(Element::ConfigClosed),
            Layout::Element(Element::ElementClosed),
        ]
    );
    assert_eq!(repeat.2, &vec![("a".to_string(), DataSrc::Static(Declaration::Text("x".to_string())))]);
    // nothing of the body ran directly
    assert_eq!(opens(&actions), 0);
}

#[test]
fn a_gate_on_an_unnamed_floating_element_makes_up_its_id() {
    let src = "\
# root
- `element`
    - `config`
        - `floating`
        - `hover`
            - `color` red
";
    let body = process_layout(src.to_string()).unwrap().body;
    let actions = walk(body, true);
    assert!(actions.iter().any(|a| matches!(
        a,
        Action::Ask(Query::Pointer { target: HitTarget::Named(n), button: Button::Over }) if n == "__telera_gate::0"
    )));
    assert!(actions.iter().any(|a| matches!(
        a,
        Action::FinishConfig { id: Some(n), focus: None } if n == "__telera_gate::0"
    )));
}

#[test]
fn a_named_element_gates_by_its_name_and_takes_focus() {
    let src = "\
# root
- `element` card
    - `config`
        - `left-clicked` *open*
            - `color` red
";
    let body = process_layout(src.to_string()).unwrap().body;
    let mut w = Walker::new(Some(("rows".to_string(), 3)), CursorIcon::Default);
    let mut fired = None;
    let mut finish = None;
    for cmd in body {
        let a = w.step(cmd);
        match a {
            Action::Ask(Query::Pointer { target, button }) => {
                assert_eq!(target, HitTarget::Named("card".to_string()));
                assert_eq!(button, Button::LeftClicked);
                fired = w.answer(true);
            },
            Action::FinishConfig { id, focus } => finish = Some((id, focus)),
            _ => {},
        }
    }
    assert_eq!(fired, Some(DataSrc::Dynamic("open".to_string())));
    assert_eq!(finish, Some((None, Some("card".to_string()))));
}

#[test]
fn a_skipped_block_keeps_the_pointer_and_canvas_zoom_off() {
    let cmds = vec![
        Layout::Element(Element::IfOpened { condition: "never".to_string() }),
        Layout::Element(Element::Pointer(CursorIcon::EwResize)),
        Layout::Element(Element::CanvasWorldOpened { name: "board".to_string() }),
        Layout::Element(Element::CanvasWorldClosed),
        Layout::Element(Element::FunctionCall("chart".to_string())),
        Layout::Element(Element::IfClosed),
        Layout::Element(Element::FunctionCall("chart".to_string())),
    ];
    let mut w = Walker::new(None, CursorIcon::Default);
    let mut actions = Vec::new();
    for cmd in cmds {
        let a = w.step(cmd);
        if let Action::Ask(_) = a {
            w.answer(false);
        }
        actions.push(a);
    }
    assert_eq!(w.pointer, CursorIcon::Default);
    assert!(matches!(&actions[2], Action::EnterCanvas { name, zoom: false } if name == "board"));
    assert!(matches!(actions[3], Action::LeaveCanvas));
    assert!(matches!(actions[4], Action::Idle));
    assert!(matches!(&actions[6], Action::CallFunction(n) if n == "chart"));
    assert_eq!(w.skip, None);
}

#[test]
fn counters_refuse_a_close_with_nothing_open() {
    let w = Walker::new(None, CursorIcon::Default);
    assert!(!w.can_step(&Layout::Element(Element::ElementClosed)));
    assert!(w.can_step(&Layout::Element(Element::ElementOpened { id: None })));
    assert!(w.can_step(&Layout::Element(Element::Pointer(CursorIcon::Default))));
}
