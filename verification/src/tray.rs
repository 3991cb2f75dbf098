//! What the tray program does on a message, on a click and on a choice from its
//! menu.
//!
//! Handling a message is a script: its stage says what to find out or to do,
//! and what came of it leads to the next stage. All handlers share one thing,
//! the state that the icon shows. A handler may run while another one waits
//! (the menu takes messages while it is open), so that state is handed in anew
//! at every step.
use vstd::prelude::*;

use crate::device::{state_text, state_words};
use crate::text::{utf16, utf16_char};

verus! {

/// Message of the icon. The event that caused it comes along.
pub const WM_TRAYICON: u32 = 0x8001;

/// Message by which a second instance asks for a toggle.
pub const WM_EXTERNAL_TOGGLE: u32 = 0x8002;

/// Message of the timer.
pub const WM_TIMER: u32 = 0x113;

/// Message of a window that is being destroyed.
pub const WM_DESTROY: u32 = 2;

/// The left button was released.
pub const WM_LBUTTONUP: u32 = 0x202;

/// The right button was released.
pub const WM_RBUTTONUP: u32 = 0x205;

/// Menu entry that toggles.
pub const IDM_TOGGLE: usize = 1;

/// Menu entry that turns the start with Windows on or off.
pub const IDM_AUTOSTART: usize = 2;

/// Menu entry that ends the program.
pub const IDM_EXIT: usize = 3;

/// How often the icon is brought up to date, in milliseconds.
pub const REFRESH_MILLIS: u32 = 5000;

/// Registry key, under the current user, for programs that start with Windows.
pub const RUN_KEY: &'static str = r"Software\Microsoft\Windows\CurrentVersion\Run";

/// Value under that key.
pub const RUN_VALUE: &'static str = "loudeq-tray";

/// What a message means.
#[derive(Clone, Copy, Debug, PartialEq, Eq, Structural)]
pub enum TrayEvent {
    /// A toggle is asked for, by a click or by a second instance.
    Toggle,
    /// The menu is asked for.
    Menu,
    /// Another event of the icon: there is nothing to do.
    Ignored,
    /// It is time to bring the icon up to date.
    Refresh,
    /// The program is about to end.
    Destroyed,
    /// The taskbar was created anew, without the icon.
    TaskbarCreated,
    /// The message is none of the program's own.
    Other,
}

/// What a message means. The number of the taskbar's message is known only at
/// run time; zero stands for none.
pub open spec fn message_meaning(message: u32, detail: u32, taskbar_created: u32) -> TrayEvent {
    if message == WM_TRAYICON {
        if detail == WM_LBUTTONUP {
            TrayEvent::Toggle
        } else if detail == WM_RBUTTONUP {
            TrayEvent::Menu
        } else {
            TrayEvent::Ignored
        }
    } else if message == WM_EXTERNAL_TOGGLE {
        TrayEvent::Toggle
    } else if message == WM_TIMER {
        TrayEvent::Refresh
    } else if message == WM_DESTROY {
        TrayEvent::Destroyed
    } else if message == taskbar_created && message != 0 {
        TrayEvent::TaskbarCreated
    } else {
        TrayEvent::Other
    }
}

/// Tells what a message means.
pub fn tray_event(message: u32, detail: u32, taskbar_created: u32) -> (r: TrayEvent)
    ensures
        r == message_meaning(message, detail, taskbar_created),
{
    if message == WM_TRAYICON {
        if detail == WM_LBUTTONUP {
            TrayEvent::Toggle
        } else if detail == WM_RBUTTONUP {
            TrayEvent::Menu
        } else {
            TrayEvent::Ignored
        }
    } else if message == WM_EXTERNAL_TOGGLE {
        TrayEvent::Toggle
    } else if message == WM_TIMER {
        TrayEvent::Refresh
    } else if message == WM_DESTROY {
        TrayEvent::Destroyed
    } else if message == taskbar_created && message != 0 {
        TrayEvent::TaskbarCreated
    } else {
        TrayEvent::Other
    }
}

/// What a handler finds out or does next.
#[derive(Clone, Copy, Debug, PartialEq, Eq, Structural)]
pub enum TrayStage {
    /// Find the default device and its state, to toggle it.
    ToggleRead,
    /// Set Loudness Equalization on it.
    ToggleApply(bool),
    /// Reset the endpoint after that.
    ToggleReset(bool),
    /// Find the default device and its state, to show it.
    RefreshRead,
    /// Show the menu.
    ShowMenu,
    /// Find out whether the program starts with Windows.
    ReadAutostart,
    /// Leave the message to Windows.
    PassOn,
    /// The message is handled.
    Handled,
}

/// What came of a stage.
#[derive(Clone, Copy, Debug, PartialEq, Eq, Structural)]
pub enum TrayResult {
    /// The state of the default device, if there is one.
    Found(Option<Option<bool>>),
    /// The change was made, or not; the endpoint was reset, or not.
    Applied(bool),
    /// What was chosen from the menu; zero stands for nothing.
    Chosen(usize),
    /// The program starts with Windows, or not.
    Autostart(bool),
}

/// What a balloon tells.
#[derive(Clone, Copy, Debug, PartialEq, Eq, Structural)]
pub enum Balloon {
    NoDevice,
    NowIs(bool),
    CouldNotApply,
}

/// Something that a handler does on the way. Whether it succeeds does not
/// matter.
#[derive(Clone, Copy, Debug, PartialEq, Eq, Structural)]
pub enum TrayAct {
    AddIcon(bool),
    UpdateIcon(bool),
    RemoveIcon,
    Quit,
    Tell(Balloon),
    Autostart(bool),
}

/// The state that the icon is to show from now on, what a handler does now, and
/// its next stage.
#[derive(Debug)]
pub struct TrayTurn {
    pub shown: bool,
    pub acts: Vec<TrayAct>,
    pub stage: TrayStage,
}

/// A turn as contracts see it.
pub struct TrayTurnView {
    pub shown: bool,
    pub acts: Seq<TrayAct>,
    pub stage: TrayStage,
}

impl View for TrayTurn {
    type V = TrayTurnView;

    open spec fn view(&self) -> TrayTurnView {
        TrayTurnView { shown: self.shown, acts: self.acts@, stage: self.stage }
    }
}

/// A turn.
pub open spec fn tray_turn(shown: bool, acts: Seq<TrayAct>, stage: TrayStage) -> TrayTurnView {
    TrayTurnView { shown, acts, stage }
}

/// An effect that was never set is off.
pub open spec fn is_on(state: Option<bool>) -> bool {
    state == Some(true)
}

/// How the program begins, by the state of the default device, if there is one.
pub open spec fn tray_start(found: Option<Option<bool>>) -> TrayTurnView {
    let shown = found is Some && is_on(found->Some_0);
    tray_turn(shown, seq![TrayAct::AddIcon(shown)], TrayStage::Handled)
}

/// How the handler of a message begins.
pub open spec fn tray_begin(shown: bool, event: TrayEvent) -> TrayTurnView {
    match event {
        TrayEvent::Toggle => tray_turn(shown, seq![], TrayStage::ToggleRead),
        TrayEvent::Menu => tray_turn(shown, seq![], TrayStage::ShowMenu),
        TrayEvent::Ignored => tray_turn(shown, seq![], TrayStage::Handled),
        TrayEvent::Refresh => tray_turn(shown, seq![], TrayStage::RefreshRead),
        TrayEvent::Destroyed => tray_turn(
            shown,
            seq![TrayAct::RemoveIcon, TrayAct::Quit],
            TrayStage::Handled,
        ),
        TrayEvent::TaskbarCreated => tray_turn(
            shown,
            seq![TrayAct::AddIcon(shown)],
            TrayStage::Handled,
        ),
        TrayEvent::Other => tray_turn(shown, seq![], TrayStage::PassOn),
    }
}

/// The result is one that the stage can bring.
pub open spec fn tray_accepts(stage: TrayStage, result: TrayResult) -> bool {
    match stage {
        TrayStage::ToggleRead | TrayStage::RefreshRead => result is Found,
        TrayStage::ToggleApply(_) | TrayStage::ToggleReset(_) => result is Applied,
        TrayStage::ShowMenu => result is Chosen,
        TrayStage::ReadAutostart => result is Autostart,
        TrayStage::PassOn | TrayStage::Handled => false,
    }
}

/// How a handler goes on after what came of a stage.
pub open spec fn tray_next(shown: bool, stage: TrayStage, result: TrayResult) -> TrayTurnView {
    match (stage, result) {
        (TrayStage::ToggleRead, TrayResult::Found(None)) => tray_turn(
            shown,
            seq![TrayAct::Tell(Balloon::NoDevice)],
            TrayStage::Handled,
        ),
        (TrayStage::ToggleRead, TrayResult::Found(Some(state))) => tray_turn(
            shown,
            seq![],
            TrayStage::ToggleApply(!is_on(state)),
        ),
        (TrayStage::ToggleApply(desired), TrayResult::Applied(true)) => tray_turn(
            shown,
            seq![],
            TrayStage::ToggleReset(desired),
        ),
        (TrayStage::ToggleApply(_), _) => tray_turn(
            shown,
            seq![TrayAct::Tell(Balloon::CouldNotApply)],
            TrayStage::Handled,
        ),
        (TrayStage::ToggleReset(desired), _) => tray_turn(
            desired,
            seq![TrayAct::UpdateIcon(desired), TrayAct::Tell(Balloon::NowIs(desired))],
            TrayStage::Handled,
        ),
        (TrayStage::RefreshRead, TrayResult::Found(Some(state))) => if is_on(state) != shown {
            tray_turn(is_on(state), seq![TrayAct::UpdateIcon(is_on(state))], TrayStage::Handled)
        } else {
            tray_turn(shown, seq![], TrayStage::Handled)
        },
        (TrayStage::ShowMenu, TrayResult::Chosen(id)) => if id == IDM_TOGGLE {
            tray_turn(shown, seq![], TrayStage::ToggleRead)
        } else if id == IDM_AUTOSTART {
            tray_turn(shown, seq![], TrayStage::ReadAutostart)
        } else if id == IDM_EXIT {
            tray_turn(shown, seq![TrayAct::RemoveIcon, TrayAct::Quit], TrayStage::Handled)
        } else {
            tray_turn(shown, seq![], TrayStage::Handled)
        },
        (TrayStage::ReadAutostart, TrayResult::Autostart(enabled)) => tray_turn(
            shown,
            seq![TrayAct::Autostart(!enabled)],
            TrayStage::Handled,
        ),
        _ => tray_turn(shown, seq![], TrayStage::Handled),
    }
}

/// A turn that does nothing.
fn quiet(shown: bool, stage: TrayStage) -> (r: TrayTurn)
    ensures
        r@ == tray_turn(shown, seq![], stage),
{
    let acts: Vec<TrayAct> = Vec::new();
    assert(acts@ =~= seq![]);
    TrayTurn { shown, acts, stage }
}

/// A last turn that does one thing.
fn acting(shown: bool, act: TrayAct) -> (r: TrayTurn)
    ensures
        r@ == tray_turn(shown, seq![act], TrayStage::Handled),
{
    let acts: Vec<TrayAct> = vec![act];
    assert(acts@ =~= seq![act]);
    TrayTurn { shown, acts, stage: TrayStage::Handled }
}

/// A last turn that does two things.
fn acting_twice(shown: bool, act: TrayAct, other: TrayAct) -> (r: TrayTurn)
    ensures
        r@ == tray_turn(shown, seq![act, other], TrayStage::Handled),
{
    let acts: Vec<TrayAct> = vec![act, other];
    assert(acts@ =~= seq![act, other]);
    TrayTurn { shown, acts, stage: TrayStage::Handled }
}

/// Tells whether an effect is on.
fn turned_on(state: Option<bool>) -> (r: bool)
    ensures
        r == is_on(state),
{
    match state {
        Some(on) => on,
        None => false,
    }
}

/// Begins the program.
pub fn start_tray_icon(found: Option<Option<bool>>) -> (r: TrayTurn)
    ensures
        r@ == tray_start(found),
{
    let shown: bool = match found {
        Some(state) => turned_on(state),
        None => false,
    };
    acting(shown, TrayAct::AddIcon(shown))
}

/// Begins to handle a message.
pub fn handle_event(shown: bool, event: TrayEvent) -> (r: TrayTurn)
    ensures
        r@ == tray_begin(shown, event),
{
    match event {
        TrayEvent::Toggle => quiet(shown, TrayStage::ToggleRead),
        TrayEvent::Menu => quiet(shown, TrayStage::ShowMenu),
        TrayEvent::Ignored => quiet(shown, TrayStage::Handled),
        TrayEvent::Refresh => quiet(shown, TrayStage::RefreshRead),
        TrayEvent::Destroyed => acting_twice(shown, TrayAct::RemoveIcon, TrayAct::Quit),
        TrayEvent::TaskbarCreated => acting(shown, TrayAct::AddIcon(shown)),
        TrayEvent::Other => quiet(shown, TrayStage::PassOn),
    }
}

/// Goes on after what came of a stage.
pub fn handle_result(shown: bool, stage: TrayStage, result: TrayResult) -> (r: TrayTurn)
    requires
        tray_accepts(stage, result),
    ensures
        r@ == tray_next(shown, stage, result),
{
    match (stage, result) {
        (TrayStage::ToggleRead, TrayResult::Found(None)) => acting(
            shown,
            TrayAct::Tell(Balloon::NoDevice),
        ),
        (TrayStage::ToggleRead, TrayResult::Found(Some(state))) => {
            let on: bool = turned_on(state);
            quiet(shown, TrayStage::ToggleApply(!on))
        },
        (TrayStage::ToggleApply(desired), TrayResult::Applied(true)) => quiet(
            shown,
            TrayStage::ToggleReset(desired),
        ),
        (TrayStage::ToggleApply(_), _) => acting(shown, TrayAct::Tell(Balloon::CouldNotApply)),
        (TrayStage::ToggleReset(desired), _) => acting_twice(
            desired,
            TrayAct::UpdateIcon(desired),
            TrayAct::Tell(Balloon::NowIs(desired)),
        ),
        (TrayStage::RefreshRead, TrayResult::Found(Some(state))) => {
            let on: bool = turned_on(state);
            if on != shown {
                acting(on, TrayAct::UpdateIcon(on))
            } else {
                quiet(shown, TrayStage::Handled)
            }
        },
        (TrayStage::ShowMenu, TrayResult::Chosen(id)) => if id == IDM_TOGGLE {
            quiet(shown, TrayStage::ToggleRead)
        } else if id == IDM_AUTOSTART {
            quiet(shown, TrayStage::ReadAutostart)
        } else if id == IDM_EXIT {
            acting_twice(shown, TrayAct::RemoveIcon, TrayAct::Quit)
        } else {
            quiet(shown, TrayStage::Handled)
        },
        (TrayStage::ReadAutostart, TrayResult::Autostart(enabled)) => acting(
            shown,
            TrayAct::Autostart(!enabled),
        ),
        _ => quiet(shown, TrayStage::Handled),
    }
}

/// The tip of the icon.
pub open spec fn tip_words(state: bool) -> Seq<char> {
    "Loudness EQ: "@ + state_words(Some(state)) + " — click to toggle"@
}

/// The tip of the icon.
pub fn tip_text(state: bool) -> (r: String)
    ensures
        r@ == tip_words(state),
{
    let mut out: String = "Loudness EQ: ".to_owned();
    out.append(state_text(Some(state)));
    out.append(" — click to toggle");
    out
}

/// The title of a balloon, on a device.
pub open spec fn title_words(balloon: Balloon, device: Seq<char>) -> Seq<char> {
    match balloon {
        Balloon::NoDevice => "loudeq"@,
        Balloon::NowIs(_) => device,
        Balloon::CouldNotApply => "loudeq error"@,
    }
}

/// The title of a balloon.
pub fn balloon_title(balloon: Balloon, device: &str) -> (r: String)
    ensures
        r@ == title_words(balloon, device@),
{
    match balloon {
        Balloon::NoDevice => "loudeq".to_owned(),
        Balloon::NowIs(_) => device.to_owned(),
        Balloon::CouldNotApply => "loudeq error".to_owned(),
    }
}

/// The text of a balloon. The reason is that of the failure that it tells.
pub open spec fn balloon_words(balloon: Balloon, reason: Seq<char>) -> Seq<char> {
    match balloon {
        Balloon::NoDevice => "No default playback device found."@,
        Balloon::NowIs(true) => "Loudness Equalization: ON"@,
        Balloon::NowIs(false) => "Loudness Equalization: OFF"@,
        Balloon::CouldNotApply => "Could not apply: "@ + reason,
    }
}

/// The text of a balloon.
pub fn balloon_text(balloon: Balloon, reason: &str) -> (r: String)
    ensures
        r@ == balloon_words(balloon, reason@),
{
    match balloon {
        Balloon::NoDevice => "No default playback device found.".to_owned(),
        Balloon::NowIs(true) => "Loudness Equalization: ON".to_owned(),
        Balloon::NowIs(false) => "Loudness Equalization: OFF".to_owned(),
        Balloon::CouldNotApply => {
            let mut out: String = "Could not apply: ".to_owned();
            out.append(reason);
            out
        },
    }
}

/// A line of the menu.
#[derive(Debug)]
pub enum MenuItem {
    /// A gray line that cannot be chosen.
    Heading(String),
    Separator,
    Entry { id: usize, text: String, checked: bool },
}

/// A line of the menu as contracts see it.
pub enum MenuItemView {
    Heading(Seq<char>),
    Separator,
    Entry { id: usize, text: Seq<char>, checked: bool },
}

impl View for MenuItem {
    type V = MenuItemView;

    open spec fn view(&self) -> MenuItemView {
        match self {
            MenuItem::Heading(text) => MenuItemView::Heading(text@),
            MenuItem::Separator => MenuItemView::Separator,
            MenuItem::Entry { id, text, checked } => MenuItemView::Entry {
                id: *id,
                text: text@,
                checked: *checked,
            },
        }
    }
}

/// The first line of the menu: the state and the name of the default device, as
/// far as there is one.
pub open spec fn menu_heading(found: Option<Option<bool>>, device: Option<Seq<char>>) -> Seq<char> {
    "Loudness EQ: "@ + state_words(
        match found {
            Some(state) => Some(is_on(state)),
            None => None,
        },
    ) + match device {
        Some(name) => " — "@ + name,
        None => seq![],
    }
}

/// The menu.
pub open spec fn menu_items(
    found: Option<Option<bool>>,
    device: Option<Seq<char>>,
    autostart: bool,
) -> Seq<MenuItemView> {
    seq![
        MenuItemView::Heading(menu_heading(found, device)),
        MenuItemView::Separator,
        MenuItemView::Entry { id: IDM_TOGGLE, text: "Toggle"@, checked: false },
        MenuItemView::Entry {
            id: IDM_AUTOSTART,
            text: "Start with Windows"@,
            checked: autostart,
        },
        MenuItemView::Entry { id: IDM_EXIT, text: "Exit"@, checked: false },
    ]
}

/// The menu, by the state and the name of the default device, and by whether
/// the program starts with Windows.
pub fn menu(found: Option<Option<bool>>, device: Option<&str>, autostart: bool) -> (r: Vec<
    MenuItem,
>)
    ensures
        r@.map_values(|item: MenuItem| item@) == menu_items(
            found,
            match device {
                Some(name) => Some(name@),
                None => None,
            },
            autostart,
        ),
{
    let state: Option<bool> = match found {
        Some(state) => Some(turned_on(state)),
        None => None,
    };
    let mut heading: String = "Loudness EQ: ".to_owned();
    heading.append(state_text(state));
    match device {
        Some(name) => {
            let ghost before = heading@;
            heading.append(" — ");
            heading.append(name);
            assert(heading@ =~= before + (" — "@ + name@));
        },
        None => {
            assert(heading@ =~= heading@ + Seq::<char>::empty());
        },
    }
    let mut out: Vec<MenuItem> = Vec::new();
    out.push(MenuItem::Heading(heading));
    out.push(MenuItem::Separator);
    out.push(MenuItem::Entry { id: IDM_TOGGLE, text: "Toggle".to_owned(), checked: false });
    out.push(
        MenuItem::Entry {
            id: IDM_AUTOSTART,
            text: "Start with Windows".to_owned(),
            checked: autostart,
        },
    );
    out.push(MenuItem::Entry { id: IDM_EXIT, text: "Exit".to_owned(), checked: false });
    assert(out@.map_values(|item: MenuItem| item@) =~= menu_items(
        found,
        match device {
            Some(name) => Some(name@),
            None => None,
        },
        autostart,
    ));
    out
}

/// The command that starts the program with Windows: its path in double quotes.
pub fn autostart_command(exe: &str) -> (r: String)
    ensures
        r@ == "\""@ + exe@ + "\""@,
{
    let mut out: String = "\"".to_owned();
    out.append(exe);
    out.append("\"");
    out
}

/// What the icon shows after a handler has acted, or `None` where there is no
/// icon.
pub open spec fn icon_after(icon: Option<bool>, acts: Seq<TrayAct>) -> Option<bool>
    decreases acts.len(),
{
    if acts.len() == 0 {
        icon
    } else {
        match acts.last() {
            TrayAct::AddIcon(state) => Some(state),
            TrayAct::UpdateIcon(state) => Some(state),
            TrayAct::RemoveIcon => None,
            _ => icon_after(icon, acts.drop_last()),
        }
    }
}

/// The handler ends the program.
pub open spec fn quits(turn: TrayTurnView) -> bool {
    turn.acts.contains(TrayAct::Quit)
}

/// The icon always shows the state that the program holds to be shown, until
/// the program ends, and then there is no icon. That holds of the start, where
/// there is no icon yet, and where the taskbar has lost the icon, as well.
pub proof fn icon_shows_the_state(
    shown: bool,
    event: TrayEvent,
    stage: TrayStage,
    result: TrayResult,
    found: Option<Option<bool>>,
    lost: Option<bool>,
)
    requires
        tray_accepts(stage, result),
    ensures
        ({
            let first = tray_start(found);
            let begun = tray_begin(shown, event);
            let next = tray_next(shown, stage, result);
            let restored = tray_begin(shown, TrayEvent::TaskbarCreated);
            &&& icon_after(None, first.acts) == Some(first.shown)
            &&& icon_after(Some(shown), begun.acts) == if quits(begun) {
                None
            } else {
                Some(begun.shown)
            }
            &&& icon_after(Some(shown), next.acts) == if quits(next) {
                None
            } else {
                Some(next.shown)
            }
            &&& icon_after(lost, restored.acts) == Some(restored.shown)
        }),
{
    reveal_with_fuel(icon_after, 3);
    let begun = tray_begin(shown, event);
    let next = tray_next(shown, stage, result);
    if event is Destroyed {
        assert(begun.acts[1] == TrayAct::Quit);
        assert(begun.acts.drop_last() =~= seq![TrayAct::RemoveIcon]);
    }
    if stage is ShowMenu && result == TrayResult::Chosen(IDM_EXIT) {
        assert(next.acts[1] == TrayAct::Quit);
        assert(next.acts.drop_last() =~= seq![TrayAct::RemoveIcon]);
    }
    if stage is ToggleReset {
        assert(next.acts.drop_last() =~= seq![TrayAct::UpdateIcon(next.shown)]);
    }
}

/// A toggle that succeeds brings about the other state of the device, whatever
/// the icon showed, and the icon shows it then. One that fails leaves the icon.
pub proof fn toggle_shows_the_new_state(shown: bool, state: Option<bool>, later: bool, reset: bool)
    ensures
        tray_begin(shown, TrayEvent::Toggle).stage == TrayStage::ToggleRead,
        tray_next(shown, TrayStage::ToggleRead, TrayResult::Found(Some(state))).stage
            == TrayStage::ToggleApply(state != Some(true)),
        ({
            let desired = state != Some(true);
            let applied = tray_next(
                later,
                TrayStage::ToggleApply(desired),
                TrayResult::Applied(true),
            );
            let refused = tray_next(
                later,
                TrayStage::ToggleApply(desired),
                TrayResult::Applied(false),
            );
            &&& applied.stage == TrayStage::ToggleReset(desired)
            &&& tray_next(later, applied.stage, TrayResult::Applied(reset)).shown == desired
            &&& refused.stage == TrayStage::Handled
            &&& refused.shown == later
        }),
{
}

/// Bringing the icon up to date shows the state of the device. Doing so again,
/// while that state stays, does nothing.
pub proof fn refresh_shows_the_state(shown: bool, state: Option<bool>)
    ensures
        ({
            let found = TrayResult::Found(Some(state));
            let once = tray_next(shown, TrayStage::RefreshRead, found);
            &&& once.shown == (state == Some(true))
            &&& tray_next(once.shown, TrayStage::RefreshRead, found).acts == Seq::<TrayAct>::empty()
            &&& once.shown == shown ==> once.acts == Seq::<TrayAct>::empty()
        }),
{
}

/// A click and a second instance ask for the same.
pub proof fn second_instance_toggles(detail: u32, other: u32, taskbar_created: u32)
    ensures
        message_meaning(WM_EXTERNAL_TOGGLE, detail, taskbar_created) == message_meaning(
            WM_TRAYICON,
            WM_LBUTTONUP,
            other,
        ),
        message_meaning(WM_EXTERNAL_TOGGLE, detail, taskbar_created) == TrayEvent::Toggle,
{
}

/// How many steps a handler has before it at most.
pub open spec fn tray_steps_left(stage: TrayStage) -> nat {
    match stage {
        TrayStage::PassOn | TrayStage::Handled => 0,
        TrayStage::ToggleReset(_) | TrayStage::RefreshRead | TrayStage::ReadAutostart => 1,
        TrayStage::ToggleApply(_) => 2,
        TrayStage::ToggleRead => 3,
        TrayStage::ShowMenu => 4,
    }
}

/// Handling a message ends after at most four steps.
pub proof fn handling_ends(shown: bool, stage: TrayStage, result: TrayResult)
    requires
        tray_accepts(stage, result),
    ensures
        tray_steps_left(tray_next(shown, stage, result).stage) < tray_steps_left(stage) <= 4,
{
}

/// A text has at most two UTF-16 units for each character.
proof fn lemma_utf16_length(s: Seq<char>)
    ensures
        utf16(s).len() <= 2 * s.len(),
    decreases s.len(),
{
    if s.len() > 0 {
        lemma_utf16_length(s.drop_last());
        assert(utf16_char(s.last()).len() <= 2);
    }
}

/// The tip is never cut off: it fits the icon's buffer of 128 units, with the
/// zero behind it.
pub proof fn tip_fits(state: bool)
    ensures
        utf16(tip_words(state)).len() < 128,
{
    reveal_strlit("Loudness EQ: ");
    reveal_strlit("ON");
    reveal_strlit("OFF");
    reveal_strlit(" — click to toggle");
    lemma_utf16_length(tip_words(state));
}

/// The messages, by number: the icon's own is the first of the program, with the
/// release of the left or the right button along; the next one is that of a
/// second instance. Every number but these is left to Windows.
pub proof fn messages_have_these_numbers(message: u32, detail: u32, taskbar: u32)
    ensures
        message_meaning(0x8001, 0x202, taskbar) == TrayEvent::Toggle,
        message_meaning(0x8001, 0x205, taskbar) == TrayEvent::Menu,
        detail != 0x202 && detail != 0x205 ==> message_meaning(0x8001, detail, taskbar)
            == TrayEvent::Ignored,
        message_meaning(0x8002, detail, taskbar) == TrayEvent::Toggle,
        message_meaning(0x113, detail, taskbar) == TrayEvent::Refresh,
        message_meaning(2, detail, taskbar) == TrayEvent::Destroyed,
        message != 0x8001 && message != 0x8002 && message != 0x113 && message != 2 ==> (
        message_meaning(message, detail, taskbar) == if message == taskbar && taskbar != 0 {
            TrayEvent::TaskbarCreated
        } else {
            TrayEvent::Other
        }),
{
}

/// The icon begins with the state of the default device; without a device, or
/// where the state was never set, it shows that the effect is off.
pub proof fn icon_begins_with_the_state(found: Option<Option<bool>>)
    ensures
        tray_start(found) == (TrayTurnView {
            shown: found == Some(Some(true)),
            acts: seq![TrayAct::AddIcon(found == Some(Some(true)))],
            stage: TrayStage::Handled,
        }),
{
}

/// Each message is handled in its own way: a toggle and a refresh begin with the
/// state of the device, the menu is shown, a new taskbar gets the icon again as it
/// was, and the end takes the icon away.
pub proof fn each_message_is_handled(shown: bool)
    ensures
        tray_begin(shown, TrayEvent::Toggle) == (TrayTurnView {
            shown,
            acts: seq![],
            stage: TrayStage::ToggleRead,
        }),
        tray_begin(shown, TrayEvent::Menu) == (TrayTurnView {
            shown,
            acts: seq![],
            stage: TrayStage::ShowMenu,
        }),
        tray_begin(shown, TrayEvent::Refresh) == (TrayTurnView {
            shown,
            acts: seq![],
            stage: TrayStage::RefreshRead,
        }),
        tray_begin(shown, TrayEvent::Ignored) == (TrayTurnView {
            shown,
            acts: seq![],
            stage: TrayStage::Handled,
        }),
        tray_begin(shown, TrayEvent::Other) == (TrayTurnView {
            shown,
            acts: seq![],
            stage: TrayStage::PassOn,
        }),
        tray_begin(shown, TrayEvent::TaskbarCreated) == (TrayTurnView {
            shown,
            acts: seq![TrayAct::AddIcon(shown)],
            stage: TrayStage::Handled,
        }),
        tray_begin(shown, TrayEvent::Destroyed) == (TrayTurnView {
            shown,
            acts: seq![TrayAct::RemoveIcon, TrayAct::Quit],
            stage: TrayStage::Handled,
        }),
{
}

/// A toggle tells what it did: the new state, that it failed, or that there is no
/// device. Only where it succeeded does the icon change.
pub proof fn toggle_tells_what_it_did(shown: bool, desired: bool, reset: bool)
    ensures
        tray_next(shown, TrayStage::ToggleRead, TrayResult::Found(None)) == (TrayTurnView {
            shown,
            acts: seq![TrayAct::Tell(Balloon::NoDevice)],
            stage: TrayStage::Handled,
        }),
        tray_next(shown, TrayStage::ToggleApply(desired), TrayResult::Applied(false)) == (
        TrayTurnView {
            shown,
            acts: seq![TrayAct::Tell(Balloon::CouldNotApply)],
            stage: TrayStage::Handled,
        }),
        tray_next(shown, TrayStage::ToggleReset(desired), TrayResult::Applied(reset)) == (
        TrayTurnView {
            shown: desired,
            acts: seq![TrayAct::UpdateIcon(desired), TrayAct::Tell(Balloon::NowIs(desired))],
            stage: TrayStage::Handled,
        }),
{
}

/// A refresh changes the icon exactly where the device has another state than is
/// shown; without a device it leaves the icon.
pub proof fn refresh_follows_the_device(shown: bool, state: Option<bool>)
    ensures
        tray_next(shown, TrayStage::RefreshRead, TrayResult::Found(None)) == (TrayTurnView {
            shown,
            acts: seq![],
            stage: TrayStage::Handled,
        }),
        (state == Some(true)) == shown ==> tray_next(
            shown,
            TrayStage::RefreshRead,
            TrayResult::Found(Some(state)),
        ) == (TrayTurnView { shown, acts: seq![], stage: TrayStage::Handled }),
        (state == Some(true)) != shown ==> tray_next(
            shown,
            TrayStage::RefreshRead,
            TrayResult::Found(Some(state)),
        ) == (TrayTurnView {
            shown: !shown,
            acts: seq![TrayAct::UpdateIcon(!shown)],
            stage: TrayStage::Handled,
        }),
{
}

/// The entries of the menu do what they say: the first toggles, the second turns
/// the start with Windows over, the third ends the program, and no choice does
/// nothing.
pub proof fn menu_does_what_it_says(shown: bool, id: usize, enabled: bool)
    ensures
        tray_next(shown, TrayStage::ShowMenu, TrayResult::Chosen(1)) == tray_begin(
            shown,
            TrayEvent::Toggle,
        ),
        tray_next(shown, TrayStage::ShowMenu, TrayResult::Chosen(2)) == (TrayTurnView {
            shown,
            acts: seq![],
            stage: TrayStage::ReadAutostart,
        }),
        tray_next(shown, TrayStage::ReadAutostart, TrayResult::Autostart(enabled)) == (
        TrayTurnView { shown, acts: seq![TrayAct::Autostart(!enabled)], stage: TrayStage::Handled }),
        tray_next(shown, TrayStage::ShowMenu, TrayResult::Chosen(3)) == tray_begin(
            shown,
            TrayEvent::Destroyed,
        ),
        id == 0 || id > 3 ==> tray_next(shown, TrayStage::ShowMenu, TrayResult::Chosen(id)) == (
        TrayTurnView { shown, acts: seq![], stage: TrayStage::Handled }),
{
}

/// The menu shows the state and the name of the default device in its first line,
/// and its entries under their numbers; the start with Windows is checked exactly
/// where it is on.
pub proof fn menu_shows_the_state(name: Seq<char>, device: Option<Seq<char>>, autostart: bool)
    ensures
        menu_heading(Some(Some(true)), Some(name)) == "Loudness EQ: "@ + "ON"@ + (" — "@ + name),
        menu_heading(Some(Some(false)), Some(name)) == "Loudness EQ: "@ + "OFF"@ + (" — "@ + name),
        menu_heading(Some(None), Some(name)) == "Loudness EQ: "@ + "OFF"@ + (" — "@ + name),
        menu_heading(None, Some(name)) == "Loudness EQ: "@ + "OFF (never set)"@ + (" — "@ + name),
        menu_heading(None, None) == "Loudness EQ: "@ + "OFF (never set)"@,
        menu_heading(Some(Some(true)), None) == "Loudness EQ: "@ + "ON"@,
        menu_heading(Some(Some(false)), None) == "Loudness EQ: "@ + "OFF"@,
        menu_heading(Some(None), None) == "Loudness EQ: "@ + "OFF"@,
        forall|found: Option<Option<bool>>| #[trigger]
            menu_items(found, device, autostart) == seq![
                MenuItemView::Heading(menu_heading(found, device)),
                MenuItemView::Separator,
                MenuItemView::Entry { id: 1, text: "Toggle"@, checked: false },
                MenuItemView::Entry { id: 2, text: "Start with Windows"@, checked: autostart },
                MenuItemView::Entry { id: 3, text: "Exit"@, checked: false },
            ],
{
    assert(menu_heading(None, None) =~= "Loudness EQ: "@ + "OFF (never set)"@);
    assert(menu_heading(Some(Some(true)), None) =~= "Loudness EQ: "@ + "ON"@);
    assert(menu_heading(Some(Some(false)), None) =~= "Loudness EQ: "@ + "OFF"@);
    assert(menu_heading(Some(None), None) =~= "Loudness EQ: "@ + "OFF"@);
}

/// A balloon tells the device and its new state, or what went wrong and why; the
/// tip tells the state and what a click does.
pub proof fn balloons_tell_state_and_reason(device: Seq<char>, reason: Seq<char>, on: bool)
    ensures
        title_words(Balloon::NowIs(on), device) == device,
        title_words(Balloon::NoDevice, device) == "loudeq"@,
        title_words(Balloon::CouldNotApply, device) == "loudeq error"@,
        balloon_words(Balloon::NowIs(true), reason) == "Loudness Equalization: ON"@,
        balloon_words(Balloon::NowIs(false), reason) == "Loudness Equalization: OFF"@,
        balloon_words(Balloon::NoDevice, reason) == "No default playback device found."@,
        balloon_words(Balloon::CouldNotApply, reason) == "Could not apply: "@ + reason,
        tip_words(true) == "Loudness EQ: "@ + "ON"@ + " — click to toggle"@,
        tip_words(false) == "Loudness EQ: "@ + "OFF"@ + " — click to toggle"@,
{
}

} // verus!
