//! Running a page's command stream, one command at a time: the bookkeeping
//! of nesting, of blocks whose condition does not hold (skipped up to their
//! close), of the commands a `list` / `item` body collects for replay and of
//! the bindings a `use` passes, and the element name an event block hit-tests
//! by. Each step says what the host has to do: build the element tree, ask a
//! question about the app or the pointer, replay a body.
use vstd::prelude::*;
use crate::document::{insert_pair, map_insert, pairs_map};
use crate::events::{gate_id_name, synthetic_gate_id_name};
use crate::ir::{
    Config, ConfigV, CursorIcon, DataSrc, DataSrcV, Declaration, DeclarationV, Element, ElementV, Layout, LayoutV,
    push_dv,
};

verus! {

/// What an event block hit-tests: the element by its name, or the element
/// whose config block is open, anonymously.
#[derive(Debug, PartialEq)]
pub enum HitTarget {
    Named(String),
    Anonymous,
}

/// The model of a [`HitTarget`].
pub enum HitTargetV {
    Named(Seq<char>),
    Anonymous,
}

impl DeepView for HitTarget {
    type V = HitTargetV;

    open spec fn deep_view(&self) -> HitTargetV {
        match self {
            HitTarget::Named(n) => HitTargetV::Named(n@),
            HitTarget::Anonymous => HitTargetV::Anonymous,
        }
    }
}

/// The mouse state an event block waits for, besides the pointer being over
/// its element.
#[derive(Clone, Copy, Debug, PartialEq, Eq)]
pub enum Button {
    Over,
    LeftPressed,
    LeftDown,
    LeftReleased,
    LeftClicked,
    LeftDoubleClicked,
    RightPressed,
    RightDown,
    RightReleased,
    RightClicked,
}

/// A question whose answer decides whether a conditional block runs.
#[derive(Debug, PartialEq)]
pub enum Query {
    /// The app's boolean named `name`.
    Condition(String),
    /// Whether the current list row's index equals `index`.
    Index(DataSrc<String>),
    /// Whether the pointer is over `target` with the mouse in state `button`.
    Pointer { target: HitTarget, button: Button },
    /// Whether the element named `name` has the focus.
    Focused(String),
    /// Whether the element named `name` has the focus and keys were pressed.
    KeyFocused(String),
}

/// The model of a [`Query`].
pub enum QueryV {
    Condition(Seq<char>),
    Index(DataSrcV<Seq<char>>),
    Pointer { target: HitTargetV, button: Button },
    Focused(Seq<char>),
    KeyFocused(Seq<char>),
}

impl DeepView for Query {
    type V = QueryV;

    open spec fn deep_view(&self) -> QueryV {
        match self {
            Query::Condition(n) => QueryV::Condition(n@),
            Query::Index(i) => QueryV::Index(i.deep_view()),
            Query::Pointer { target, button } => QueryV::Pointer { target: target.deep_view(), button: *button },
            Query::Focused(n) => QueryV::Focused(n@),
            Query::KeyFocused(n) => QueryV::KeyFocused(n@),
        }
    }
}

/// What the host has to do after a step.
#[derive(Debug)]
pub enum Action {
    /// Nothing.
    Idle,
    /// Answer the question with [`Walker::answer`] before the next step.
    Ask(Query),
    /// Open an element.
    OpenElement,
    /// Close the open element.
    CloseElement,
    /// Start a fresh element configuration.
    StartConfig,
    /// Give the open element its configuration (with the id `id`, if any,
    /// first); on a mouse-down frame, the element named `focus` takes the
    /// focus if the pointer is over it.
    FinishConfig { id: Option<String>, focus: Option<String> },
    /// Start a fresh text configuration.
    StartTextConfig,
    /// Add a text element showing `content`.
    AddText(DataSrc<String>),
    /// Apply a configuration command.
    Configure(Config),
    /// Enter the world of the canvas `name`; its zoom applies from here if
    /// `zoom` holds (else the scale in force stays).
    EnterCanvas { name: String, zoom: bool },
    /// Leave the innermost canvas world.
    LeaveCanvas,
    /// Run `commands` once per row of the app's list `list`, with `params`.
    RepeatList { list: String, commands: Vec<Layout>, params: Vec<(String, DataSrc<Declaration>)> },
    /// Run `commands` for row `index` of the list `list`, with `params`.
    RunItem {
        list: String,
        index: DataSrc<String>,
        commands: Vec<Layout>,
        params: Vec<(String, DataSrc<Declaration>)>,
    },
    /// Run the element snippet `name` (if there is one), with `params`.
    RunSnippet { name: String, params: Vec<(String, DataSrc<Declaration>)> },
    /// Hand the app's custom element `name` the layout.
    CallFunction(String),
}

/// The model of an [`Action`].
pub enum ActionV {
    Idle,
    Ask(QueryV),
    OpenElement,
    CloseElement,
    StartConfig,
    FinishConfig { id: Option<Seq<char>>, focus: Option<Seq<char>> },
    StartTextConfig,
    AddText(DataSrcV<Seq<char>>),
    Configure(ConfigV),
    EnterCanvas { name: Seq<char>, zoom: bool },
    LeaveCanvas,
    RepeatList { list: Seq<char>, commands: Seq<LayoutV>, params: Seq<(Seq<char>, DataSrcV<DeclarationV>)> },
    RunItem {
        list: Seq<char>,
        index: DataSrcV<Seq<char>>,
        commands: Seq<LayoutV>,
        params: Seq<(Seq<char>, DataSrcV<DeclarationV>)>,
    },
    RunSnippet { name: Seq<char>, params: Seq<(Seq<char>, DataSrcV<DeclarationV>)> },
    CallFunction(Seq<char>),
}

impl DeepView for Action {
    type V = ActionV;

    open spec fn deep_view(&self) -> ActionV {
        match self {
            Action::Idle => ActionV::Idle,
            Action::Ask(q) => ActionV::Ask(q.deep_view()),
            Action::OpenElement => ActionV::OpenElement,
            Action::CloseElement => ActionV::CloseElement,
            Action::StartConfig => ActionV::StartConfig,
            Action::FinishConfig { id, focus } => ActionV::FinishConfig { id: id.deep_view(), focus: focus.deep_view() },
            Action::StartTextConfig => ActionV::StartTextConfig,
            Action::AddText(c) => ActionV::AddText(c.deep_view()),
            Action::Configure(c) => ActionV::Configure(c.deep_view()),
            Action::EnterCanvas { name, zoom } => ActionV::EnterCanvas { name: name@, zoom: *zoom },
            Action::LeaveCanvas => ActionV::LeaveCanvas,
            Action::RepeatList { list, commands, params } => ActionV::RepeatList {
                list: list@,
                commands: commands.deep_view(),
                params: params.deep_view(),
            },
            Action::RunItem { list, index, commands, params } => ActionV::RunItem {
                list: list@,
                index: index.deep_view(),
                commands: commands.deep_view(),
                params: params.deep_view(),
            },
            Action::RunSnippet { name, params } => ActionV::RunSnippet { name: name@, params: params.deep_view() },
            Action::CallFunction(n) => ActionV::CallFunction(n@),
        }
    }
}

/// The state of a run over one command stream.
pub struct Walker {
    /// The row of the list this run lays out, if it lays out one.
    pub row: Option<(String, usize)>,
    /// How many scopes are open.
    pub nesting: u32,
    /// The nesting at which a block whose condition does not hold opened;
    /// everything up to its close is skipped.
    pub skip: Option<u32>,
    /// A `list` or `item` body is being collected.
    pub collect_list: bool,
    /// The bindings of a `use` or a `list` are being collected.
    pub collect_decls: bool,
    /// The collected body.
    pub buffer: Vec<Layout>,
    /// The collected bindings, by name.
    pub params: Vec<(String, DataSrc<Declaration>)>,
    /// The name of the element whose config block is open, if it has one.
    pub element_name: Option<String>,
    /// The config block that is open has a `floating` command.
    pub element_floating: bool,
    /// The id made up for an unnamed floating element an event block hit-tests.
    pub synthetic_id: Option<String>,
    /// How many ids were made up.
    pub synth_counter: u32,
    /// The pointer icon in force.
    pub pointer: CursorIcon,
    /// After a question: whether its answer is negated, and the event to fire
    /// when the block runs.
    pub pending: Option<(bool, Option<DataSrc<String>>)>,
}

/// The model of a [`Walker`].
pub struct WalkerV {
    pub row: Option<(Seq<char>, usize)>,
    pub nesting: int,
    pub skip: Option<int>,
    pub collect_list: bool,
    pub collect_decls: bool,
    pub buffer: Seq<LayoutV>,
    pub params: Seq<(Seq<char>, DataSrcV<DeclarationV>)>,
    pub element_name: Option<Seq<char>>,
    pub element_floating: bool,
    pub synthetic_id: Option<Seq<char>>,
    pub synth_counter: nat,
    pub pointer: CursorIcon,
    pub pending: Option<(bool, Option<DataSrcV<Seq<char>>>)>,
}

impl DeepView for Walker {
    type V = WalkerV;

    open spec fn deep_view(&self) -> WalkerV {
        WalkerV {
            row: match self.row {
                Some((l, i)) => Some((l@, i)),
                None => None,
            },
            nesting: self.nesting as int,
            skip: match self.skip {
                Some(k) => Some(k as int),
                None => None,
            },
            collect_list: self.collect_list,
            collect_decls: self.collect_decls,
            buffer: self.buffer.deep_view(),
            params: self.params.deep_view(),
            element_name: self.element_name.deep_view(),
            element_floating: self.element_floating,
            synthetic_id: self.synthetic_id.deep_view(),
            synth_counter: self.synth_counter as nat,
            pointer: self.pointer,
            pending: match self.pending {
                Some((n, e)) => Some((n, e.deep_view())),
                None => None,
            },
        }
    }
}

/// A run over a stream, in list row `row` (if any), with the pointer icon
/// `pointer`: nothing open, nothing skipped or collected.
pub open spec fn walker_init(row: Option<(Seq<char>, usize)>, pointer: CursorIcon) -> WalkerV {
    WalkerV {
        row,
        nesting: 0,
        skip: None,
        collect_list: false,
        collect_decls: false,
        buffer: Seq::empty(),
        params: Seq::empty(),
        element_name: None,
        element_floating: false,
        synthetic_id: None,
        synth_counter: 0,
        pointer,
        pending: None,
    }
}

/// How a check of a conditional block comes out: known already, or a
/// question for the host.
pub enum CheckV {
    Known(bool),
    Ask(QueryV),
}

/// The step into a conditional block: unless skipping already, the block is
/// skipped until the answer says it runs (`negate` flips the answer; `event`
/// fires when it runs).
pub open spec fn open_cond(w: WalkerV, check: CheckV, negate: bool, event: Option<DataSrcV<Seq<char>>>) -> (WalkerV, ActionV) {
    let w1 = WalkerV { nesting: w.nesting + 1, ..w };
    if w.skip is Some {
        (w1, ActionV::Idle)
    } else {
        match check {
            CheckV::Known(v) => if v != negate {
                (w1, ActionV::Idle)
            } else {
                (WalkerV { skip: Some(w.nesting), ..w1 }, ActionV::Idle)
            },
            CheckV::Ask(q) => (
                WalkerV { skip: Some(w.nesting), pending: Some((negate, event)), ..w1 },
                ActionV::Ask(q),
            ),
        }
    }
}

/// The step out of an event block: a skip that started at its open ends.
pub open spec fn close_gate(w: WalkerV) -> WalkerV {
    let n = w.nesting - 1;
    WalkerV { nesting: n, skip: if w.skip == Some(n) { None } else { w.skip }, ..w }
}

/// The step out of a conditional: a skip that started at its open (or
/// deeper) ends.
pub open spec fn close_if(w: WalkerV) -> WalkerV {
    let n = w.nesting - 1;
    WalkerV {
        nesting: n,
        skip: match w.skip {
            Some(k) => if k >= n {
                None
            } else {
                Some(k)
            },
            None => None,
        },
        ..w
    }
}

/// The hit-test target of an event block in the config block that is open,
/// and the state after it: the element's name, else the id made up for it
/// (made up now for a floating element that has none), else anonymous.
pub open spec fn hit_target(w: WalkerV) -> (WalkerV, HitTargetV) {
    match w.element_name {
        Some(n) => (w, HitTargetV::Named(n)),
        None => match w.synthetic_id {
            Some(s) => (w, HitTargetV::Named(s)),
            None => if w.element_floating {
                let s = gate_id_name(
                    match w.row {
                        Some((l, i)) => Some((l, i as nat)),
                        None => None,
                    },
                    w.synth_counter,
                );
                (WalkerV { synth_counter: w.synth_counter + 1, synthetic_id: Some(s), ..w }, HitTargetV::Named(s))
            } else {
                (w, HitTargetV::Anonymous)
            },
        },
    }
}

/// The step into an event block that waits for the pointer.
pub open spec fn open_pointer(w: WalkerV, button: Button, event: Option<DataSrcV<Seq<char>>>) -> (WalkerV, ActionV) {
    if w.skip is Some {
        (WalkerV { nesting: w.nesting + 1, ..w }, ActionV::Idle)
    } else {
        let (w1, t) = hit_target(w);
        open_cond(w1, CheckV::Ask(QueryV::Pointer { target: t, button }), false, event)
    }
}

/// The step into an event block that waits for the focus (`keys`: and for
/// key presses).
pub open spec fn open_focus(w: WalkerV, keys: bool, event: Option<DataSrcV<Seq<char>>>) -> (WalkerV, ActionV) {
    match w.element_name {
        Some(n) => open_cond(
            w,
            CheckV::Ask(
                if keys {
                    QueryV::KeyFocused(n)
                } else {
                    QueryV::Focused(n)
                },
            ),
            false,
            event,
        ),
        None => open_cond(w, CheckV::Known(false), false, event),
    }
}

/// `w` with one more scope open, and `a` done unless skipping.
pub open spec fn open_with(w: WalkerV, a: ActionV) -> (WalkerV, ActionV) {
    (WalkerV { nesting: w.nesting + 1, ..w }, if w.skip is None { a } else { ActionV::Idle })
}

/// `w` with one scope less open, and `a` done unless skipping.
pub open spec fn close_with(w: WalkerV, a: ActionV) -> (WalkerV, ActionV) {
    (WalkerV { nesting: w.nesting - 1, ..w }, if w.skip is None { a } else { ActionV::Idle })
}

/// The step for an element command.
pub open spec fn run_element(w: WalkerV, e: ElementV) -> (WalkerV, ActionV) {
    let free = w.skip is None;
    match e {
        ElementV::IfOpened { condition } => open_cond(w, CheckV::Ask(QueryV::Condition(condition)), false, None),
        ElementV::IfNotOpened { condition } => open_cond(w, CheckV::Ask(QueryV::Condition(condition)), true, None),
        ElementV::IfClosed => (close_if(w), ActionV::Idle),
        ElementV::IfIndexOpened { index } => match w.row {
            Some(_) => open_cond(w, CheckV::Ask(QueryV::Index(index)), false, None),
            None => open_cond(w, CheckV::Known(false), false, None),
        },
        ElementV::IfIndexNotOpened { index } => match w.row {
            Some(_) => open_cond(w, CheckV::Ask(QueryV::Index(index)), true, None),
            None => open_cond(w, CheckV::Known(false), true, None),
        },
        ElementV::HoverOpened { event } => open_pointer(w, Button::Over, event),
        ElementV::LeftPressedOpened { event } => open_pointer(w, Button::LeftPressed, event),
        ElementV::LeftDownOpened { event } => open_pointer(w, Button::LeftDown, event),
        ElementV::LeftReleasedOpened { event } => open_pointer(w, Button::LeftReleased, event),
        ElementV::LeftClickedOpened { event } => open_pointer(w, Button::LeftClicked, event),
        ElementV::LeftDoubleClickedOpened { event } => open_pointer(w, Button::LeftDoubleClicked, event),
        ElementV::RightPressedOpened { event } => open_pointer(w, Button::RightPressed, event),
        ElementV::RightDownOpened { event } => open_pointer(w, Button::RightDown, event),
        ElementV::RightReleasedOpened { event } => open_pointer(w, Button::RightReleased, event),
        ElementV::RightClickedOpened { event } => open_pointer(w, Button::RightClicked, event),
        ElementV::FocusOpened { event } => open_focus(w, false, event),
        ElementV::KeyEventOpened { event } => open_focus(w, true, event),
        ElementV::HoveredOpened { .. } | ElementV::UnHoveredOpened { .. } | ElementV::FocusedOpened { .. }
        | ElementV::UnFocusedOpened { .. } | ElementV::LeftTripleClickedOpened { .. } => open_cond(
            w,
            CheckV::Known(false),
            false,
            None,
        ),
        ElementV::HoverClosed | ElementV::HoveredClosed | ElementV::UnHoveredClosed | ElementV::FocusClosed
        | ElementV::FocusedClosed | ElementV::UnFocusedClosed | ElementV::LeftPressedClosed
        | ElementV::LeftDownClosed | ElementV::LeftReleasedClosed | ElementV::LeftClickedClosed
        | ElementV::LeftDoubleClickedClosed | ElementV::LeftTripleClickedClosed | ElementV::KeyEventClosed
        | ElementV::RightPressedClosed | ElementV::RightDownClosed | ElementV::RightReleasedClosed
        | ElementV::RightClickedClosed => (close_gate(w), ActionV::Idle),
        ElementV::CanvasWorldOpened { name } => (w, ActionV::EnterCanvas { name, zoom: free }),
        ElementV::CanvasWorldClosed => (w, ActionV::LeaveCanvas),
        ElementV::Pointer(p) => (if free {
            WalkerV { pointer: p, ..w }
        } else {
            w
        }, ActionV::Idle),
        ElementV::ListOpened => {
            let w1 = if free {
                WalkerV {
                    buffer: Seq::empty(),
                    params: Seq::empty(),
                    collect_list: true,
                    collect_decls: true,
                    ..w
                }
            } else {
                w
            };
            (WalkerV { nesting: w.nesting + 1, ..w1 }, ActionV::Idle)
        },
        ElementV::ListClosed(list) => close_with(
            if free {
                WalkerV { buffer: Seq::empty(), params: Seq::empty(), ..w }
            } else {
                w
            },
            ActionV::RepeatList { list, commands: w.buffer, params: w.params },
        ),
        ElementV::ItemOpened => {
            let w1 = if free {
                WalkerV { buffer: Seq::empty(), params: Seq::empty(), collect_list: true, ..w }
            } else {
                w
            };
            (WalkerV { nesting: w.nesting + 1, ..w1 }, ActionV::Idle)
        },
        ElementV::ItemClosed { list, index } => close_with(
            if free {
                WalkerV { buffer: Seq::empty(), params: Seq::empty(), ..w }
            } else {
                w
            },
            ActionV::RunItem { list, index, commands: w.buffer, params: w.params },
        ),
        ElementV::ElementOpened { .. } => open_with(w, ActionV::OpenElement),
        ElementV::ElementClosed => close_with(w, ActionV::CloseElement),
        ElementV::ConfigOpened => {
            let w1 = if free {
                WalkerV { element_name: None, element_floating: false, synthetic_id: None, ..w }
            } else {
                w
            };
            open_with(w1, ActionV::StartConfig)
        },
        ElementV::ConfigClosed => close_with(
            w,
            ActionV::FinishConfig {
                id: if w.element_name is None {
                    w.synthetic_id
                } else {
                    None
                },
                focus: w.element_name,
            },
        ),
        ElementV::TextElementOpened => open_with(w, ActionV::Idle),
        ElementV::TextElementClosed(content) => close_with(w, ActionV::AddText(content)),
        ElementV::TextConfigOpened => open_with(w, ActionV::StartTextConfig),
        ElementV::TextConfigClosed => close_with(w, ActionV::Idle),
        ElementV::UseOpened => {
            let w1 = if free {
                WalkerV { buffer: Seq::empty(), params: Seq::empty(), collect_decls: true, ..w }
            } else {
                w
            };
            open_with(w1, ActionV::Idle)
        },
        ElementV::UseClosed(name) => {
            let w1 = if free {
                WalkerV { collect_decls: false, buffer: Seq::empty(), params: Seq::empty(), ..w }
            } else {
                w
            };
            close_with(w1, ActionV::RunSnippet { name, params: w.params })
        },
        ElementV::FunctionCall(name) => (w, if free {
            ActionV::CallFunction(name)
        } else {
            ActionV::Idle
        }),
    }
}

/// The step for a command, once collecting is dealt with.
pub open spec fn run_command(w: WalkerV, cmd: LayoutV) -> (WalkerV, ActionV) {
    match cmd {
        LayoutV::Element(e) => run_element(w, e),
        LayoutV::Declaration { name, value } => (if w.collect_decls {
            WalkerV { params: map_insert(w.params, name, value), ..w }
        } else {
            w
        }, ActionV::Idle),
        LayoutV::Config(c) => if w.skip is None {
            (
                WalkerV {
                    element_name: match c {
                        ConfigV::Id(DataSrcV::Static(n)) => Some(n),
                        _ => w.element_name,
                    },
                    element_floating: w.element_floating || c == ConfigV::Floating,
                    ..w
                },
                ActionV::Configure(c),
            )
        } else {
            (w, ActionV::Idle)
        },
    }
}

/// The step for the command `cmd`: while a `list` or `item` body is being
/// collected, every command but a binding and the body's close is kept for
/// the replay (and ends the collecting of bindings).
pub open spec fn walk_step(w: WalkerV, cmd: LayoutV) -> (WalkerV, ActionV) {
    if w.collect_list {
        match cmd {
            LayoutV::Element(ElementV::ListClosed(_)) => run_command(WalkerV { collect_list: false, ..w }, cmd),
            LayoutV::Element(ElementV::ItemClosed { .. }) => run_command(WalkerV { collect_list: false, ..w }, cmd),
            LayoutV::Declaration { .. } => run_command(w, cmd),
            _ => (WalkerV { collect_decls: false, buffer: w.buffer.push(cmd), ..w }, ActionV::Idle),
        }
    } else {
        run_command(w, cmd)
    }
}

/// The command is a step the counters allow: no question is waiting for its
/// answer, no scope is closed that was not counted open, and no count passes
/// the range of its counter.
pub open spec fn step_ok(w: WalkerV, cmd: LayoutV) -> bool {
    &&& w.pending is None
    &&& 0 <= walk_step(w, cmd).0.nesting <= u32::MAX
    &&& walk_step(w, cmd).0.synth_counter <= u32::MAX
}

/// The answer `value` to the question of the last step: the block runs if
/// `value` (negated where the block is an `if-not`) holds, and then fires
/// its event, if it has one.
pub open spec fn walk_answer(w: WalkerV, value: bool) -> (WalkerV, Option<DataSrcV<Seq<char>>>) {
    match w.pending {
        Some((negate, event)) => if value != negate {
            (WalkerV { skip: None, pending: None, ..w }, event)
        } else {
            (WalkerV { pending: None, ..w }, None)
        },
        None => (w, None),
    }
}

/// A command of a conditional or event block.
pub open spec fn is_cond(e: ElementV) -> bool {
    match e {
        ElementV::IfOpened { .. } | ElementV::IfNotOpened { .. } | ElementV::IfClosed
        | ElementV::IfIndexOpened { .. } | ElementV::IfIndexNotOpened { .. } | ElementV::HoverOpened { .. }
        | ElementV::LeftPressedOpened { .. } | ElementV::LeftDownOpened { .. }
        | ElementV::LeftReleasedOpened { .. } | ElementV::LeftClickedOpened { .. }
        | ElementV::LeftDoubleClickedOpened { .. } | ElementV::RightPressedOpened { .. }
        | ElementV::RightDownOpened { .. } | ElementV::RightReleasedOpened { .. }
        | ElementV::RightClickedOpened { .. } | ElementV::FocusOpened { .. } | ElementV::KeyEventOpened { .. }
        | ElementV::HoveredOpened { .. } | ElementV::UnHoveredOpened { .. } | ElementV::FocusedOpened { .. }
        | ElementV::UnFocusedOpened { .. } | ElementV::LeftTripleClickedOpened { .. } | ElementV::HoverClosed
        | ElementV::HoveredClosed | ElementV::UnHoveredClosed | ElementV::FocusClosed | ElementV::FocusedClosed
        | ElementV::UnFocusedClosed | ElementV::LeftPressedClosed | ElementV::LeftDownClosed
        | ElementV::LeftReleasedClosed | ElementV::LeftClickedClosed | ElementV::LeftDoubleClickedClosed
        | ElementV::LeftTripleClickedClosed | ElementV::KeyEventClosed | ElementV::RightPressedClosed
        | ElementV::RightDownClosed | ElementV::RightReleasedClosed | ElementV::RightClickedClosed => true,
        _ => false,
    }
}

fn is_cond_element(e: &Element) -> (r: bool)
    ensures
        r == is_cond(e.deep_view()),
{
    match e {
        Element::IfOpened { .. } | Element::IfNotOpened { .. } | Element::IfClosed | Element::IfIndexOpened { .. }
        | Element::IfIndexNotOpened { .. } | Element::HoverOpened { .. } | Element::LeftPressedOpened { .. }
        | Element::LeftDownOpened { .. } | Element::LeftReleasedOpened { .. } | Element::LeftClickedOpened { .. }
        | Element::LeftDoubleClickedOpened { .. } | Element::RightPressedOpened { .. }
        | Element::RightDownOpened { .. } | Element::RightReleasedOpened { .. }
        | Element::RightClickedOpened { .. } | Element::FocusOpened { .. } | Element::KeyEventOpened { .. }
        | Element::HoveredOpened { .. } | Element::UnHoveredOpened { .. } | Element::FocusedOpened { .. }
        | Element::UnFocusedOpened { .. } | Element::LeftTripleClickedOpened { .. } | Element::HoverClosed
        | Element::HoveredClosed | Element::UnHoveredClosed | Element::FocusClosed | Element::FocusedClosed
        | Element::UnFocusedClosed | Element::LeftPressedClosed | Element::LeftDownClosed
        | Element::LeftReleasedClosed | Element::LeftClickedClosed | Element::LeftDoubleClickedClosed
        | Element::LeftTripleClickedClosed | Element::KeyEventClosed | Element::RightPressedClosed
        | Element::RightDownClosed | Element::RightReleasedClosed | Element::RightClickedClosed => true,
        _ => false,
    }
}

/// How a check of a conditional block comes out (see [`CheckV`]).
pub enum Check {
    Known(bool),
    Ask(Query),
}

impl DeepView for Check {
    type V = CheckV;

    open spec fn deep_view(&self) -> CheckV {
        match self {
            Check::Known(b) => CheckV::Known(*b),
            Check::Ask(q) => CheckV::Ask(q.deep_view()),
        }
    }
}

/// The model of a list row.
pub open spec fn row_view(row: Option<(String, usize)>) -> Option<(Seq<char>, usize)> {
    match row {
        Some((l, i)) => Some((l@, i)),
        None => None,
    }
}

impl Walker {
    /// A run over a stream, in list row `row` (if any), with the pointer
    /// icon `pointer` (see [`walker_init`]).
    pub fn new(row: Option<(String, usize)>, pointer: CursorIcon) -> (r: Walker)
        ensures
            r.deep_view() == walker_init(row_view(row), pointer),
    {
        let r = Walker {
            row,
            nesting: 0,
            skip: None,
            collect_list: false,
            collect_decls: false,
            buffer: Vec::new(),
            params: Vec::new(),
            element_name: None,
            element_floating: false,
            synthetic_id: None,
            synth_counter: 0,
            pointer,
            pending: None,
        };
        assert(r.buffer.deep_view() =~= Seq::<LayoutV>::empty());
        assert(r.params.deep_view() =~= Seq::<(Seq<char>, DataSrcV<DeclarationV>)>::empty());
        r
    }

    fn open_cond(&mut self, check: Check, negate: bool, event: Option<DataSrc<String>>) -> (a: Action)
        requires
            old(self).nesting < u32::MAX,
        ensures
            (final(self).deep_view(), a.deep_view()) == open_cond(
                old(self).deep_view(),
                check.deep_view(),
                negate,
                event.deep_view(),
            ),
    {
        let level = self.nesting;
        self.nesting = level + 1;
        if self.skip.is_some() {
            return Action::Idle;
        }
        match check {
            Check::Known(v) => {
                if v == negate {
                    self.skip = Some(level);
                }
                Action::Idle
            },
            Check::Ask(q) => {
                self.skip = Some(level);
                self.pending = Some((negate, event));
                Action::Ask(q)
            },
        }
    }

    fn close_gate(&mut self)
        requires
            old(self).nesting >= 1,
        ensures
            final(self).deep_view() == close_gate(old(self).deep_view()),
    {
        let n = self.nesting - 1;
        self.nesting = n;
        match self.skip {
            Some(k) => if k == n {
                self.skip = None;
            },
            None => {},
        }
    }

    fn close_if(&mut self)
        requires
            old(self).nesting >= 1,
        ensures
            final(self).deep_view() == close_if(old(self).deep_view()),
    {
        let n = self.nesting - 1;
        self.nesting = n;
        match self.skip {
            Some(k) => if k >= n {
                self.skip = None;
            },
            None => {},
        }
    }

    fn hit_target(&mut self) -> (t: HitTarget)
        requires
            old(self).element_name is None && old(self).synthetic_id is None && old(self).element_floating
                ==> old(self).synth_counter < u32::MAX,
        ensures
            (final(self).deep_view(), t.deep_view()) == hit_target(old(self).deep_view()),
    {
        match &self.element_name {
            Some(n) => HitTarget::Named(n.clone()),
            None => match &self.synthetic_id {
                Some(s) => HitTarget::Named(s.clone()),
                None => if self.element_floating {
                    let s = synthetic_gate_id_name(&self.row, self.synth_counter);
                    self.synth_counter = self.synth_counter + 1;
                    self.synthetic_id = Some(s.clone());
                    HitTarget::Named(s)
                } else {
                    HitTarget::Anonymous
                },
            },
        }
    }

    fn open_pointer(&mut self, button: Button, event: Option<DataSrc<String>>) -> (a: Action)
        requires
            old(self).nesting < u32::MAX,
            old(self).skip is None && old(self).element_name is None && old(self).synthetic_id is None
                && old(self).element_floating ==> old(self).synth_counter < u32::MAX,
        ensures
            (final(self).deep_view(), a.deep_view()) == open_pointer(old(self).deep_view(), button, event.deep_view()),
    {
        if self.skip.is_some() {
            self.nesting = self.nesting + 1;
            return Action::Idle;
        }
        let t = self.hit_target();
        self.open_cond(Check::Ask(Query::Pointer { target: t, button }), false, event)
    }

    fn open_focus(&mut self, keys: bool, event: Option<DataSrc<String>>) -> (a: Action)
        requires
            old(self).nesting < u32::MAX,
        ensures
            (final(self).deep_view(), a.deep_view()) == open_focus(old(self).deep_view(), keys, event.deep_view()),
    {
        match &self.element_name {
            Some(n) => {
                let q = if keys {
                    Query::KeyFocused(n.clone())
                } else {
                    Query::Focused(n.clone())
                };
                self.open_cond(Check::Ask(q), false, event)
            },
            None => self.open_cond(Check::Known(false), false, event),
        }
    }

    fn open_with(&mut self, a: Action) -> (r: Action)
        requires
            old(self).nesting < u32::MAX,
        ensures
            (final(self).deep_view(), r.deep_view()) == open_with(old(self).deep_view(), a.deep_view()),
    {
        self.nesting = self.nesting + 1;
        if self.skip.is_none() {
            a
        } else {
            Action::Idle
        }
    }

    fn close_with(&mut self, a: Action) -> (r: Action)
        requires
            old(self).nesting >= 1,
        ensures
            (final(self).deep_view(), r.deep_view()) == close_with(old(self).deep_view(), a.deep_view()),
    {
        self.nesting = self.nesting - 1;
        if self.skip.is_none() {
            a
        } else {
            Action::Idle
        }
    }

    /// Moves the collected body and bindings out.
    fn take_collected(&mut self) -> (r: (Vec<Layout>, Vec<(String, DataSrc<Declaration>)>))
        ensures
            r.0.deep_view() == old(self).buffer.deep_view(),
            r.1.deep_view() == old(self).params.deep_view(),
            final(self).deep_view() == (WalkerV {
                buffer: Seq::empty(),
                params: Seq::empty(),
                ..old(self).deep_view()
            }),
    {
        let mut b: Vec<Layout> = Vec::new();
        let mut p: Vec<(String, DataSrc<Declaration>)> = Vec::new();
        std::mem::swap(&mut b, &mut self.buffer);
        std::mem::swap(&mut p, &mut self.params);
        assert(self.buffer.deep_view() =~= Seq::<LayoutV>::empty());
        assert(self.params.deep_view() =~= Seq::<(Seq<char>, DataSrcV<DeclarationV>)>::empty());
        (b, p)
    }

    fn clear_collected(&mut self)
        ensures
            final(self).deep_view() == (WalkerV {
                buffer: Seq::empty(),
                params: Seq::empty(),
                ..old(self).deep_view()
            }),
    {
        self.buffer = Vec::new();
        self.params = Vec::new();
        assert(self.buffer.deep_view() =~= Seq::<LayoutV>::empty());
        assert(self.params.deep_view() =~= Seq::<(Seq<char>, DataSrcV<DeclarationV>)>::empty());
    }

    /// The step for a conditional or event block command.
    #[verifier::rlimit(50)]
    fn run_cond(&mut self, e: Element) -> (a: Action)
        requires
            is_cond(e.deep_view()),
            0 <= run_element(old(self).deep_view(), e.deep_view()).0.nesting <= u32::MAX,
            run_element(old(self).deep_view(), e.deep_view()).0.synth_counter <= u32::MAX,
        ensures
            (final(self).deep_view(), a.deep_view()) == run_element(old(self).deep_view(), e.deep_view()),
    {
        match e {
            Element::IfOpened { condition } => self.open_cond(Check::Ask(Query::Condition(condition)), false, None),
            Element::IfNotOpened { condition } => self.open_cond(Check::Ask(Query::Condition(condition)), true, None),
            Element::IfClosed => {
                self.close_if();
                Action::Idle
            },
            Element::IfIndexOpened { index } => if self.row.is_some() {
                self.open_cond(Check::Ask(Query::Index(index)), false, None)
            } else {
                self.open_cond(Check::Known(false), false, None)
            },
            Element::IfIndexNotOpened { index } => if self.row.is_some() {
                self.open_cond(Check::Ask(Query::Index(index)), true, None)
            } else {
                self.open_cond(Check::Known(false), true, None)
            },
            Element::HoverOpened { event } => self.open_pointer(Button::Over, event),
            Element::LeftPressedOpened { event } => self.open_pointer(Button::LeftPressed, event),
            Element::LeftDownOpened { event } => self.open_pointer(Button::LeftDown, event),
            Element::LeftReleasedOpened { event } => self.open_pointer(Button::LeftReleased, event),
            Element::LeftClickedOpened { event } => self.open_pointer(Button::LeftClicked, event),
            Element::LeftDoubleClickedOpened { event } => self.open_pointer(Button::LeftDoubleClicked, event),
            Element::RightPressedOpened { event } => self.open_pointer(Button::RightPressed, event),
            Element::RightDownOpened { event } => self.open_pointer(Button::RightDown, event),
            Element::RightReleasedOpened { event } => self.open_pointer(Button::RightReleased, event),
            Element::RightClickedOpened { event } => self.open_pointer(Button::RightClicked, event),
            Element::FocusOpened { event } => self.open_focus(false, event),
            Element::KeyEventOpened { event } => self.open_focus(true, event),
            Element::HoveredOpened { .. } | Element::UnHoveredOpened { .. } | Element::FocusedOpened { .. }
            | Element::UnFocusedOpened { .. } | Element::LeftTripleClickedOpened { .. } => self.open_cond(
                Check::Known(false),
                false,
                None,
            ),
            Element::HoverClosed | Element::HoveredClosed | Element::UnHoveredClosed | Element::FocusClosed
            | Element::FocusedClosed | Element::UnFocusedClosed | Element::LeftPressedClosed
            | Element::LeftDownClosed | Element::LeftReleasedClosed | Element::LeftClickedClosed
            | Element::LeftDoubleClickedClosed | Element::LeftTripleClickedClosed | Element::KeyEventClosed
            | Element::RightPressedClosed | Element::RightDownClosed | Element::RightReleasedClosed
            | Element::RightClickedClosed => {
                self.close_gate();
                Action::Idle
            },
            _ => Action::Idle,
        }
    }

    /// The step for any other element command.
    fn run_scope(&mut self, e: Element) -> (a: Action)
        requires
            !is_cond(e.deep_view()),
            0 <= run_element(old(self).deep_view(), e.deep_view()).0.nesting <= u32::MAX,
        ensures
            (final(self).deep_view(), a.deep_view()) == run_element(old(self).deep_view(), e.deep_view()),
    {
        let free = self.skip.is_none();
        match e {
            Element::CanvasWorldOpened { name } => Action::EnterCanvas { name, zoom: free },
            Element::CanvasWorldClosed => Action::LeaveCanvas,
            Element::Pointer(p) => {
                if free {
                    self.pointer = p;
                }
                Action::Idle
            },
            Element::ListOpened => {
                if free {
                    self.clear_collected();
                    self.collect_list = true;
                    self.collect_decls = true;
                }
                self.nesting = self.nesting + 1;
                Action::Idle
            },
            Element::ListClosed(list) => {
                if free {
                    let (commands, params) = self.take_collected();
                    self.close_with(Action::RepeatList { list, commands, params })
                } else {
                    self.close_with(Action::Idle)
                }
            },
            Element::ItemOpened => {
                if free {
                    self.clear_collected();
                    self.collect_list = true;
                }
                self.nesting = self.nesting + 1;
                Action::Idle
            },
            Element::ItemClosed { list, index } => {
                if free {
                    let (commands, params) = self.take_collected();
                    self.close_with(Action::RunItem { list, index, commands, params })
                } else {
                    self.close_with(Action::Idle)
                }
            },
            Element::ElementOpened { .. } => self.open_with(Action::OpenElement),
            Element::ElementClosed => self.close_with(Action::CloseElement),
            Element::ConfigOpened => {
                if free {
                    self.element_name = None;
                    self.element_floating = false;
                    self.synthetic_id = None;
                }
                self.open_with(Action::StartConfig)
            },
            Element::ConfigClosed => {
                if free {
                    let id = match &self.element_name {
                        Some(_) => None,
                        None => match &self.synthetic_id {
                            Some(s) => Some(s.clone()),
                            None => None,
                        },
                    };
                    let focus = match &self.element_name {
                        Some(n) => Some(n.clone()),
                        None => None,
                    };
                    self.close_with(Action::FinishConfig { id, focus })
                } else {
                    self.close_with(Action::Idle)
                }
            },
            Element::TextElementOpened => self.open_with(Action::Idle),
            Element::TextElementClosed(content) => self.close_with(Action::AddText(content)),
            Element::TextConfigOpened => self.open_with(Action::StartTextConfig),
            Element::TextConfigClosed => self.close_with(Action::Idle),
            Element::UseOpened => {
                if free {
                    self.clear_collected();
                    self.collect_decls = true;
                }
                self.open_with(Action::Idle)
            },
            Element::UseClosed(name) => {
                if free {
                    self.collect_decls = false;
                    let (_, params) = self.take_collected();
                    self.close_with(Action::RunSnippet { name, params })
                } else {
                    self.close_with(Action::Idle)
                }
            },
            Element::FunctionCall(name) => if free {
                Action::CallFunction(name)
            } else {
                Action::Idle
            },
            _ => Action::Idle,
        }
    }

    fn run_element(&mut self, e: Element) -> (a: Action)
        requires
            0 <= run_element(old(self).deep_view(), e.deep_view()).0.nesting <= u32::MAX,
            run_element(old(self).deep_view(), e.deep_view()).0.synth_counter <= u32::MAX,
        ensures
            (final(self).deep_view(), a.deep_view()) == run_element(old(self).deep_view(), e.deep_view()),
    {
        if is_cond_element(&e) {
            self.run_cond(e)
        } else {
            self.run_scope(e)
        }
    }

    fn run_command(&mut self, cmd: Layout) -> (a: Action)
        requires
            0 <= run_command(old(self).deep_view(), cmd.deep_view()).0.nesting <= u32::MAX,
            run_command(old(self).deep_view(), cmd.deep_view()).0.synth_counter <= u32::MAX,
        ensures
            (final(self).deep_view(), a.deep_view()) == run_command(old(self).deep_view(), cmd.deep_view()),
    {
        match cmd {
            Layout::Element(e) => self.run_element(e),
            Layout::Declaration { name, value } => {
                if self.collect_decls {
                    insert_pair(&mut self.params, name, value);
                }
                Action::Idle
            },
            Layout::Config(c) => if self.skip.is_none() {
                match &c {
                    Config::Id(DataSrc::Static(n)) => {
                        self.element_name = Some(n.clone());
                    },
                    Config::Floating => {
                        self.element_floating = true;
                    },
                    _ => {},
                }
                Action::Configure(c)
            } else {
                Action::Idle
            },
        }
    }

    /// Takes the command `cmd` and says what the host has to do (see
    /// [`walk_step`]).
    pub fn step(&mut self, cmd: Layout) -> (a: Action)
        requires
            step_ok(old(self).deep_view(), cmd.deep_view()),
        ensures
            (final(self).deep_view(), a.deep_view()) == walk_step(old(self).deep_view(), cmd.deep_view()),
    {
        let kind: u8 = match &cmd {
            Layout::Element(Element::ListClosed(_)) => 0,
            Layout::Element(Element::ItemClosed { .. }) => 0,
            Layout::Declaration { .. } => 1,
            _ => 2,
        };
        if self.collect_list {
            if kind == 0 {
                self.collect_list = false;
                self.run_command(cmd)
            } else if kind == 1 {
                self.run_command(cmd)
            } else {
                self.collect_decls = false;
                push_dv(&mut self.buffer, cmd);
                Action::Idle
            }
        } else {
            self.run_command(cmd)
        }
    }

    /// Takes the answer `value` to the question of the last step; the event
    /// to fire, if the block runs and has one (see [`walk_answer`]).
    pub fn answer(&mut self, value: bool) -> (r: Option<DataSrc<String>>)
        ensures
            (final(self).deep_view(), r.deep_view()) == walk_answer(old(self).deep_view(), value),
    {
        let mut p: Option<(bool, Option<DataSrc<String>>)> = None;
        std::mem::swap(&mut p, &mut self.pending);
        match p {
            Some((negate, event)) => if value != negate {
                self.skip = None;
                event
            } else {
                None
            },
            None => None,
        }
    }

    /// Whether the counters allow the command `cmd` (see [`step_ok`]).
    pub fn can_step(&self, cmd: &Layout) -> (r: bool)
        ensures
            r == step_ok(self.deep_view(), cmd.deep_view()),
    {
        proof {
            lemma_step_counters(self.deep_view(), cmd.deep_view());
        }
        if self.pending.is_some() {
            return false;
        }
        let buffered = self.collect_list && match cmd {
            Layout::Element(Element::ListClosed(_)) => false,
            Layout::Element(Element::ItemClosed { .. }) => false,
            Layout::Declaration { .. } => false,
            _ => true,
        };
        match cmd {
            Layout::Element(e) => if buffered {
                true
            } else {
                let d = level_change_of(e);
                let synth = self.skip.is_none() && self.element_name.is_none() && self.synthetic_id.is_none()
                    && self.element_floating && is_pointer_gate(e);
                (d >= 0 || self.nesting >= 1) && (d <= 0 || self.nesting < u32::MAX) && (!synth
                    || self.synth_counter < u32::MAX)
            },
            _ => true,
        }
    }
}

/// How an element command changes the count of open scopes.
pub open spec fn level_change(e: ElementV) -> int {
    match e {
        ElementV::CanvasWorldOpened { .. } | ElementV::CanvasWorldClosed | ElementV::Pointer(_)
        | ElementV::FunctionCall(_) => 0,
        ElementV::IfClosed | ElementV::ListClosed(_) | ElementV::ItemClosed { .. } | ElementV::ElementClosed
        | ElementV::ConfigClosed | ElementV::TextElementClosed(_) | ElementV::TextConfigClosed
        | ElementV::UseClosed(_) | ElementV::HoverClosed | ElementV::HoveredClosed | ElementV::UnHoveredClosed
        | ElementV::FocusClosed | ElementV::FocusedClosed | ElementV::UnFocusedClosed | ElementV::LeftPressedClosed
        | ElementV::LeftDownClosed | ElementV::LeftReleasedClosed | ElementV::LeftClickedClosed
        | ElementV::LeftDoubleClickedClosed | ElementV::LeftTripleClickedClosed | ElementV::KeyEventClosed
        | ElementV::RightPressedClosed | ElementV::RightDownClosed | ElementV::RightReleasedClosed
        | ElementV::RightClickedClosed => -1,
        _ => 1,
    }
}

/// An event block command that waits for the pointer.
pub open spec fn pointer_gate(e: ElementV) -> bool {
    match e {
        ElementV::HoverOpened { .. } | ElementV::LeftPressedOpened { .. } | ElementV::LeftDownOpened { .. }
        | ElementV::LeftReleasedOpened { .. } | ElementV::LeftClickedOpened { .. }
        | ElementV::LeftDoubleClickedOpened { .. } | ElementV::RightPressedOpened { .. }
        | ElementV::RightDownOpened { .. } | ElementV::RightReleasedOpened { .. }
        | ElementV::RightClickedOpened { .. } => true,
        _ => false,
    }
}

fn level_change_of(e: &Element) -> (d: i8)
    ensures
        d == level_change(e.deep_view()),
{
    match e {
        Element::CanvasWorldOpened { .. } | Element::CanvasWorldClosed | Element::Pointer(_)
        | Element::FunctionCall(_) => 0,
        Element::IfClosed | Element::ListClosed(_) | Element::ItemClosed { .. } | Element::ElementClosed
        | Element::ConfigClosed | Element::TextElementClosed(_) | Element::TextConfigClosed | Element::UseClosed(_)
        | Element::HoverClosed | Element::HoveredClosed | Element::UnHoveredClosed | Element::FocusClosed
        | Element::FocusedClosed | Element::UnFocusedClosed | Element::LeftPressedClosed | Element::LeftDownClosed
        | Element::LeftReleasedClosed | Element::LeftClickedClosed | Element::LeftDoubleClickedClosed
        | Element::LeftTripleClickedClosed | Element::KeyEventClosed | Element::RightPressedClosed
        | Element::RightDownClosed | Element::RightReleasedClosed | Element::RightClickedClosed => -1,
        _ => 1,
    }
}

fn is_pointer_gate(e: &Element) -> (r: bool)
    ensures
        r == pointer_gate(e.deep_view()),
{
    match e {
        Element::HoverOpened { .. } | Element::LeftPressedOpened { .. } | Element::LeftDownOpened { .. }
        | Element::LeftReleasedOpened { .. } | Element::LeftClickedOpened { .. }
        | Element::LeftDoubleClickedOpened { .. } | Element::RightPressedOpened { .. }
        | Element::RightDownOpened { .. } | Element::RightReleasedOpened { .. }
        | Element::RightClickedOpened { .. } => true,
        _ => false,
    }
}

/// The counters after an element command: the count of open scopes moves by
/// [`level_change`], and one id is made up for an event block that waits for
/// the pointer over an unnamed floating element without one.
pub proof fn lemma_element_counters(w: WalkerV, e: ElementV)
    ensures
        run_element(w, e).0.nesting == w.nesting + level_change(e),
        run_element(w, e).0.synth_counter == w.synth_counter + if pointer_gate(e) && w.skip is None
            && w.element_name is None && w.synthetic_id is None && w.element_floating {
            1nat
        } else {
            0nat
        },
{
}

/// The counters after a step (see [`lemma_element_counters`]); a command
/// kept for a replay changes none.
pub proof fn lemma_step_counters(w: WalkerV, cmd: LayoutV)
    ensures
        walk_step(w, cmd).0.nesting == w.nesting + match cmd {
            LayoutV::Element(e) => if w.collect_list && !(e is ListClosed) && !(e is ItemClosed) {
                0
            } else {
                level_change(e)
            },
            _ => 0,
        },
        walk_step(w, cmd).0.synth_counter == w.synth_counter + match cmd {
            LayoutV::Element(e) => if !(w.collect_list && !(e is ListClosed) && !(e is ItemClosed)) && pointer_gate(e)
                && w.skip is None && w.element_name is None && w.synthetic_id is None && w.element_floating {
                1nat
            } else {
                0nat
            },
            _ => 0nat,
        },
{
    match cmd {
        LayoutV::Element(e) => {
            if w.collect_list && (e is ListClosed || e is ItemClosed) {
                lemma_element_counters(WalkerV { collect_list: false, ..w }, e);
            } else if !w.collect_list {
                lemma_element_counters(w, e);
            }
        },
        _ => {},
    }
}

/// While a block is skipped, a step does nothing but count: the host has
/// nothing to do (a canvas world is still entered and left, without its
/// zoom); the skip lasts while the count of open scopes stays above the level
/// where the skipped block opened, and the close of a conditional or event
/// block that brings the count back to that level ends it.
pub proof fn lemma_skipped_steps(w: WalkerV, cmd: LayoutV)
    requires
        w.skip is Some,
    ensures
        walk_step(w, cmd).1 is Idle || walk_step(w, cmd).1 is LeaveCanvas
            || walk_step(w, cmd).1 matches ActionV::EnterCanvas { zoom: false, .. },
        walk_step(w, cmd).0.nesting > w.skip->0 ==> walk_step(w, cmd).0.skip == w.skip,
        cmd matches LayoutV::Element(e) && is_cond(e) && level_change(e) == -1 && !w.collect_list
            && walk_step(w, cmd).0.nesting == w.skip->0 ==> walk_step(w, cmd).0.skip is None,
{
    lemma_step_counters(w, cmd);
}

/// The mouse state a pointer event block is named after (`hover`: the
/// pointer over the element, `left-down`: the left button held, ...).
pub open spec fn gate_button(e: ElementV) -> Option<Button> {
    match e {
        ElementV::HoverOpened { .. } => Some(Button::Over),
        ElementV::LeftPressedOpened { .. } => Some(Button::LeftPressed),
        ElementV::LeftDownOpened { .. } => Some(Button::LeftDown),
        ElementV::LeftReleasedOpened { .. } => Some(Button::LeftReleased),
        ElementV::LeftClickedOpened { .. } => Some(Button::LeftClicked),
        ElementV::LeftDoubleClickedOpened { .. } => Some(Button::LeftDoubleClicked),
        ElementV::RightPressedOpened { .. } => Some(Button::RightPressed),
        ElementV::RightDownOpened { .. } => Some(Button::RightDown),
        ElementV::RightReleasedOpened { .. } => Some(Button::RightReleased),
        ElementV::RightClickedOpened { .. } => Some(Button::RightClicked),
        _ => None,
    }
}

/// The event an event block fires when it runs.
pub open spec fn gate_event(e: ElementV) -> Option<DataSrcV<Seq<char>>> {
    match e {
        ElementV::HoverOpened { event } | ElementV::LeftPressedOpened { event }
        | ElementV::LeftDownOpened { event } | ElementV::LeftReleasedOpened { event }
        | ElementV::LeftClickedOpened { event } | ElementV::LeftDoubleClickedOpened { event }
        | ElementV::RightPressedOpened { event } | ElementV::RightDownOpened { event }
        | ElementV::RightReleasedOpened { event } | ElementV::RightClickedOpened { event }
        | ElementV::FocusOpened { event } | ElementV::KeyEventOpened { event } => event,
        _ => None,
    }
}

/// Stepping onto a pointer event block (outside a skipped block) asks
/// whether the pointer is over the element with the mouse in the state the
/// block is named after, the element being the one whose config block is
/// open (by its name, else the id made up for it, else none); the block is
/// skipped until the answer, and an answer that holds runs it and fires its
/// event, while one that does not leaves it skipped to its close.
pub proof fn lemma_pointer_gate_asks(w: WalkerV, e: ElementV)
    requires
        gate_button(e) is Some,
        w.skip is None,
        !w.collect_list,
    ensures
        walk_step(w, LayoutV::Element(e)).1 matches ActionV::Ask(QueryV::Pointer { target, button }) && {
            &&& button == gate_button(e)->0
            &&& (w.element_name matches Some(n) ==> target == HitTargetV::Named(n))
            &&& (w.element_name is None ==> (w.synthetic_id matches Some(s) ==> target == HitTargetV::Named(s)))
            &&& (w.element_name is None && w.synthetic_id is None && !w.element_floating ==> target
                == HitTargetV::Anonymous)
        },
        walk_step(w, LayoutV::Element(e)).0.nesting == w.nesting + 1,
        walk_step(w, LayoutV::Element(e)).0.skip == Some(w.nesting),
        walk_answer(walk_step(w, LayoutV::Element(e)).0, true) == (
            WalkerV { skip: None, pending: None, ..walk_step(w, LayoutV::Element(e)).0 },
            gate_event(e),
        ),
        walk_answer(walk_step(w, LayoutV::Element(e)).0, false) == (
            WalkerV { pending: None, ..walk_step(w, LayoutV::Element(e)).0 },
            None::<DataSrcV<Seq<char>>>,
        ),
{
}

/// Stepping onto a focus event block (outside a skipped block) asks whether
/// the element whose config block is open has the focus (a `key-event`
/// block: and keys were pressed); an element without a name never has it,
/// so the block is skipped without a question.
pub proof fn lemma_focus_gate_asks(w: WalkerV, e: ElementV)
    requires
        e is FocusOpened || e is KeyEventOpened,
        w.skip is None,
        !w.collect_list,
    ensures
        w.element_name matches Some(n) ==> walk_step(w, LayoutV::Element(e)).1 == ActionV::Ask(
            if e is KeyEventOpened {
                QueryV::KeyFocused(n)
            } else {
                QueryV::Focused(n)
            },
        ),
        w.element_name matches Some(n) ==> walk_answer(walk_step(w, LayoutV::Element(e)).0, true).1
            == gate_event(e),
        w.element_name is None ==> walk_step(w, LayoutV::Element(e)).1 is Idle && walk_step(
            w,
            LayoutV::Element(e),
        ).0.skip == Some(w.nesting),
        walk_step(w, LayoutV::Element(e)).0.nesting == w.nesting + 1,
{
}

/// Stepping onto an `if` (an `if-not`) asks for the app's boolean it names,
/// and the block runs exactly when the answer holds (does not hold).
pub proof fn lemma_if_asks(w: WalkerV, condition: Seq<char>, negate: bool, value: bool)
    requires
        w.skip is None,
        !w.collect_list,
    ensures
        ({
            let e = if negate {
                ElementV::IfNotOpened { condition }
            } else {
                ElementV::IfOpened { condition }
            };
            let w1 = walk_step(w, LayoutV::Element(e)).0;
            &&& walk_step(w, LayoutV::Element(e)).1 == ActionV::Ask(QueryV::Condition(condition))
            &&& (walk_answer(w1, value).0.skip is None <==> value != negate)
        }),
{
}

/// Stepping onto an `if-index` (an `if-index-not`) in a list row asks
/// whether the row's index equals the one named, and the block runs exactly
/// when the answer holds (does not hold); outside a list row there is no
/// index, and an `if-index` is skipped while an `if-index-not` runs.
pub proof fn lemma_if_index_asks(w: WalkerV, index: DataSrcV<Seq<char>>, negate: bool, value: bool)
    requires
        w.skip is None,
        !w.collect_list,
    ensures
        ({
            let e = if negate {
                ElementV::IfIndexNotOpened { index }
            } else {
                ElementV::IfIndexOpened { index }
            };
            let (w1, a) = walk_step(w, LayoutV::Element(e));
            &&& w.row is Some ==> a == ActionV::Ask(QueryV::Index(index)) && (walk_answer(w1, value).0.skip is None
                <==> value != negate)
            &&& w.row is None ==> a is Idle && (w1.skip is None <==> negate)
            &&& w1.nesting == w.nesting + 1
        }),
{
}

/// Outside a skipped block, each building command asks the host for the
/// matching step: an element opens and closes an element, a config block
/// starts a config and finishes it (with the element's name for the focus,
/// else the id made up for it), a text config starts a text config, a
/// text's close adds its text, a config command is applied, a function
/// call calls the function, and the close of a `use` runs the snippet with
/// the bindings collected since its open.
pub proof fn lemma_building_steps(w: WalkerV, cmd: LayoutV)
    requires
        w.skip is None,
        !w.collect_list,
    ensures
        cmd matches LayoutV::Element(ElementV::ElementOpened { .. }) ==> walk_step(w, cmd).1 is OpenElement,
        cmd matches LayoutV::Element(ElementV::ElementClosed) ==> walk_step(w, cmd).1 is CloseElement,
        cmd matches LayoutV::Element(ElementV::ConfigOpened) ==> walk_step(w, cmd).1 is StartConfig,
        cmd matches LayoutV::Element(ElementV::ConfigClosed) ==> walk_step(w, cmd).1 == (ActionV::FinishConfig {
            id: if w.element_name is Some {
                None
            } else {
                w.synthetic_id
            },
            focus: w.element_name,
        }),
        cmd matches LayoutV::Element(ElementV::TextConfigOpened) ==> walk_step(w, cmd).1 is StartTextConfig,
        cmd matches LayoutV::Element(ElementV::TextElementClosed(t)) ==> walk_step(w, cmd).1 == ActionV::AddText(t),
        cmd matches LayoutV::Element(ElementV::FunctionCall(n)) ==> walk_step(w, cmd).1 == ActionV::CallFunction(n),
        cmd matches LayoutV::Element(ElementV::UseClosed(n)) ==> walk_step(w, cmd).1 == (ActionV::RunSnippet {
            name: n,
            params: w.params,
        }),
        cmd matches LayoutV::Config(c) ==> walk_step(w, cmd).1 == ActionV::Configure(c),
{
}

/// After the open of a `use` (outside a skipped block), the bindings that
/// follow are collected, a later one replacing an earlier one of the same
/// name, and nothing is asked of the host until its close.
pub proof fn lemma_use_collects(w: WalkerV, ds: Seq<(Seq<char>, DataSrcV<DeclarationV>)>)
    requires
        w.skip is None,
        !w.collect_list,
    ensures
        ({
            let w1 = walk_step(w, LayoutV::Element(ElementV::UseOpened)).0;
            let w2 = steps_decls(w1, ds);
            &&& pairs_map(w2.params) == pairs_map(ds)
            &&& w2.skip is None && !w2.collect_list
            &&& w2.nesting == w.nesting + 1
        }),
{
    lemma_decls_collected(walk_step(w, LayoutV::Element(ElementV::UseOpened)).0, ds);
}

/// The walker after stepping over the bindings `ds`, one after the other.
pub open spec fn steps_decls(w: WalkerV, ds: Seq<(Seq<char>, DataSrcV<DeclarationV>)>) -> WalkerV
    decreases ds.len(),
{
    if ds.len() == 0 {
        w
    } else {
        walk_step(
            steps_decls(w, ds.drop_last()),
            LayoutV::Declaration { name: ds.last().0, value: ds.last().1 },
        ).0
    }
}

proof fn lemma_decls_collected(w: WalkerV, ds: Seq<(Seq<char>, DataSrcV<DeclarationV>)>)
    requires
        w.collect_decls,
        w.params.len() == 0,
        !w.collect_list,
    ensures
        pairs_map(steps_decls(w, ds).params) == pairs_map(ds),
        steps_decls(w, ds) == (WalkerV { params: steps_decls(w, ds).params, ..w }),
    decreases ds.len(),
{
    if ds.len() == 0 {
        assert(pairs_map(w.params) == pairs_map(Seq::<(Seq<char>, DataSrcV<DeclarationV>)>::empty())) by {
            assert(w.params =~= Seq::<(Seq<char>, DataSrcV<DeclarationV>)>::empty());
        }
    } else {
        lemma_decls_collected(w, ds.drop_last());
        let w0 = steps_decls(w, ds.drop_last());
        crate::binder::lemma_map_insert(w0.params, ds.last().0, ds.last().1);
    }
}

} // verus!
