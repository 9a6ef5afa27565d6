//! The windowed program: a fixed-size window titled "RGBcraft" holding one
//! button that dispatches a single no-op event.
//!
//! The toolkit drives this program through three hooks: construction, an
//! update handler for incoming events, and a view renderer. This module
//! holds those hooks as verified functions: the state is a value, the update
//! handler is a reducer from state and event to the unchanged state, and the
//! renderer maps the state to a description of the widget tree.

use vstd::prelude::*;
use vstd::string::StringExecFns;

verus! {

/// The one event the program defines. Pressing the button dispatches it;
/// the update handler ignores it.
#[derive(Clone, Copy, Debug, PartialEq, Eq, Structural)]
pub enum Data {
    Sus,
}

/// A follow-up action an update handler may hand back to the toolkit's run
/// loop. This program never issues one.
#[derive(Clone, Copy, Debug, PartialEq, Eq, Structural)]
pub enum Command {
    Nothing,
}

impl Command {
    /// The empty follow-up: the run loop has nothing further to do.
    pub fn none() -> (c: Command)
        ensures
            c == Command::Nothing,
    {
        Command::Nothing
    }
}

/// One element of the widget tree the renderer describes.
#[derive(Debug, PartialEq)]
pub enum Element {
    /// A push button with a caption; pressing it dispatches the event it
    /// carries, if any.
    Button { text: String, on_press: Option<Data> },
    /// A vertical column of child elements.
    Column { children: Vec<Element> },
}

/// The size of a window in logical units.
#[derive(Clone, Copy, Debug, PartialEq, Eq, Structural)]
pub struct Size {
    pub width: u32,
    pub height: u32,
}

/// The window configuration the program starts with.
#[derive(Clone, Copy, Debug, PartialEq, Eq, Structural)]
pub struct WindowSettings {
    pub size: Size,
}

/// The startup configuration handed to the toolkit.
#[derive(Clone, Copy, Debug, PartialEq, Eq, Structural)]
pub struct Settings {
    pub window: WindowSettings,
}

/// The startup configuration of this program: an 800 by 500 window,
/// everything else left to the toolkit's defaults.
pub fn settings() -> (s: Settings)
    ensures
        s.window.size == (Size { width: 800u32, height: 500u32 }),
{
    Settings { window: WindowSettings { size: Size { width: 800, height: 500 } } }
}

/// The application state. The program keeps none, so the state has no
/// fields; the update handler must still leave it observably unchanged.
#[derive(Clone, Copy, Debug, PartialEq, Eq, Structural)]
pub struct App;

/// The title the windowed program sets on its window.
pub open spec fn spec_title() -> Seq<char> {
    "RGBcraft"@
}

/// The tree the renderer describes: a column holding exactly one button,
/// captioned "sus", that dispatches the one defined event when pressed.
pub open spec fn is_shell_view(e: Element) -> bool {
    &&& e matches Element::Column { children }
    &&& children@.len() == 1
    &&& children@[0] matches Element::Button { text, on_press }
        && text@ == "sus"@
        && on_press == Some(Data::Sus)
}

impl App {
    /// Constructs the initial state: no fields to fill, no follow-up action
    /// for the run loop.
    pub fn new(_flags: ()) -> (r: (App, Command))
        ensures
            r.1 == Command::Nothing,
    {
        (App, Command::none())
    }

    /// The window title: a constant.
    pub fn title(&self) -> (t: String)
        ensures
            t@ == spec_title(),
    {
        String::from_str("RGBcraft")
    }

    /// The update handler: receives the one event, mutates nothing, and
    /// issues no follow-up action.
    pub fn update(&mut self, message: Data) -> (c: Command)
        ensures
            *final(self) == *old(self),
            c == Command::Nothing,
    {
        Command::none()
    }

    /// The view renderer: describes the same single-button tree on every
    /// invocation, whatever the state.
    pub fn view(&self) -> (e: Element)
        ensures
            is_shell_view(e),
    {
        let button = Element::Button {
            text: String::from_str("sus"),
            on_press: Some(Data::Sus),
        };
        let mut children: Vec<Element> = Vec::new();
        children.push(button);
        Element::Column { children }
    }
}

/// The events a tree dispatches, in order: a button contributes the event it
/// carries, a column the events of its children in turn.
pub open spec fn pressed_events(e: Element) -> Seq<Data>
    decreases e,
{
    match e {
        Element::Button { on_press, .. } => match on_press {
            Some(d) => seq![d],
            None => Seq::empty(),
        },
        Element::Column { children } => pressed_events_all(children@),
    }
}

/// The events the trees of a sequence dispatch, in order.
pub open spec fn pressed_events_all(s: Seq<Element>) -> Seq<Data>
    decreases s,
{
    if s.len() == 0 {
        Seq::empty()
    } else {
        pressed_events(s[0]) + pressed_events_all(s.drop_first())
    }
}

/// The program defines a single event variant: every event equals it.
pub proof fn lemma_single_event_variant(d: Data)
    ensures
        d == Data::Sus,
{
}

/// Pressing the button of the rendered tree dispatches exactly one event,
/// and it is the one defined variant.
pub proof fn lemma_press_emits_one_event(e: Element)
    requires
        is_shell_view(e),
    ensures
        pressed_events(e) =~= seq![Data::Sus],
{
    let children = e->children;
    assert(pressed_events_all(children@.drop_first()) =~= Seq::<Data>::empty());
    assert(pressed_events_all(children@) =~= pressed_events(children@[0]));
    assert(pressed_events(children@[0]) =~= seq![Data::Sus]);
}

/// Two trees have the same structure when they are the same composition of
/// the same widgets: equal captions, equal events, and structurally equal
/// children throughout.
pub open spec fn same_structure(a: Element, b: Element) -> bool
    decreases a,
{
    match a {
        Element::Button { text: ta, on_press: pa } => {
            &&& b matches Element::Button { text: tb, on_press: pb }
            &&& ta@ == tb@
            &&& pa == pb
        },
        Element::Column { children: ca } => {
            &&& b matches Element::Column { children: cb }
            &&& ca@.len() == cb@.len()
            &&& forall|i: int|
                0 <= i < ca@.len() ==> same_structure(#[trigger] ca@[i], cb@[i])
        },
    }
}

/// Rendering is idempotent: the tree the renderer describes after an update
/// is identical in structure to the one it described before.
pub proof fn lemma_render_idempotent(before: Element, after: Element)
    requires
        is_shell_view(before),
        is_shell_view(after),
    ensures
        same_structure(before, after),
{
    let ca = before->children;
    let cb = after->children;
    assert(same_structure(ca@[0], cb@[0]));
    assert forall|i: int| 0 <= i < ca@.len() implies same_structure(
        #[trigger] ca@[i],
        cb@[i],
    ) by {
        assert(i == 0);
    }
}

} // verus!
