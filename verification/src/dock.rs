//! The state of the translator window and how it answers what happens: tray
//! clicks, menu items, focus changes, edits, buttons and finished
//! translations. The window toolkit draws it and reports the events; the
//! commands to the window that come back are carried out there.
use vstd::prelude::*;
use vstd::string::StringExecFns;
use crate::language::{label, Language};
use crate::text::{is_blank, take_char_at, trims_to_empty};

verus! {

/// A command to the native window.
#[derive(Clone, Copy, Debug, PartialEq, Eq, Structural)]
pub enum WindowCommand {
    /// Minimize the window.
    Minimize,
    /// Restore the window from its minimized state.
    Restore,
    /// Move the window to its fixed position.
    MoveToFixedPosition,
    /// Give the window the focus.
    Focus,
    /// Close the window, ending the program.
    Close,
    /// Keep the window above all others.
    AlwaysOnTop,
    /// Give the window the normal level.
    NormalLevel,
}

/// An event of the tray icon.
#[derive(Clone, Copy, Debug, PartialEq, Eq, Structural)]
pub enum TrayEvent {
    /// A click on the icon: whether with the left button, and whether this is
    /// the button's release.
    Click { left_button: bool, released: bool },
    /// Any other event of the icon.
    Other,
}

/// An event from the tray: one of its icon, or a menu item chosen by its id.
pub enum AppEvent {
    Tray(TrayEvent),
    Menu(String),
}

/// A translation to run: its text, its languages and the API key.
pub struct TranslationJob {
    pub text: String,
    pub source: Language,
    pub target: Language,
    pub api_key: String,
}

/// The state of the translator window.
pub struct TranslateApp {
    pub input_text: String,
    pub output_text: String,
    pub source_lang: Language,
    pub target_lang: Language,
    pub is_translating: bool,
    pub api_key: String,
    pub show_settings: bool,
    pub api_key_visible: bool,
    /// Whether the window is, as far as the program knows, visible.
    pub show_window: bool,
    pub is_pinned: bool,
    /// The id of the tray menu's quit item.
    pub quit_id: String,
}

/// The state of the window, by the text of its strings.
#[verifier::ext_equal]
pub struct DockView {
    pub input: Seq<char>,
    pub output: Seq<char>,
    pub source: Language,
    pub target: Language,
    pub translating: bool,
    pub api_key: Seq<char>,
    pub settings_open: bool,
    pub key_visible: bool,
    pub visible: bool,
    pub pinned: bool,
    pub quit_id: Seq<char>,
}

impl View for TranslateApp {
    type V = DockView;

    open spec fn view(&self) -> DockView {
        DockView {
            input: self.input_text@,
            output: self.output_text@,
            source: self.source_lang,
            target: self.target_lang,
            translating: self.is_translating,
            api_key: self.api_key@,
            settings_open: self.show_settings,
            key_visible: self.api_key_visible,
            visible: self.show_window,
            pinned: self.is_pinned,
            quit_id: self.quit_id@,
        }
    }
}

/// The text shown while a translation runs.
pub open spec fn pending_text() -> Seq<char> {
    "翻译中..."@
}

/// The text shown for a failed translation.
pub open spec fn error_text(error: Seq<char>) -> Seq<char> {
    "错误: "@ + error
}

/// The state at start: empty texts, Chinese to English, visible and pinned,
/// settings closed and the key hidden.
pub open spec fn initial_view(api_key: Seq<char>, quit_id: Seq<char>) -> DockView {
    DockView {
        input: Seq::empty(),
        output: Seq::empty(),
        source: Language::Chinese,
        target: Language::English,
        translating: false,
        api_key,
        settings_open: false,
        key_visible: false,
        visible: true,
        pinned: true,
        quit_id,
    }
}

/// The state once a translation has started.
pub open spec fn started(v: DockView) -> DockView {
    DockView { translating: true, output: pending_text(), ..v }
}

/// The state after asking for a translation: unchanged when the input is
/// blank, else started.
pub open spec fn after_trigger(v: DockView) -> DockView {
    if is_blank(v.input) {
        v
    } else {
        started(v)
    }
}

/// `job` is what asking for a translation in state `v` hands out: nothing
/// for a blank input, else the input with the languages and the key.
pub open spec fn job_for(v: DockView, job: Option<TranslationJob>) -> bool {
    if is_blank(v.input) {
        job is None
    } else {
        job matches Some(j) && j.text@ == v.input && j.source == v.source && j.target == v.target
            && j.api_key@ == v.api_key
    }
}

/// Hiding the window: it is minimized and known as not visible.
pub open spec fn hidden(v: DockView) -> (DockView, Seq<WindowCommand>) {
    (DockView { visible: false, ..v }, seq![WindowCommand::Minimize])
}

/// Showing the window: it is moved to its fixed position, restored and
/// focused, and known as visible.
pub open spec fn shown(v: DockView) -> (DockView, Seq<WindowCommand>) {
    (
        DockView { visible: true, ..v },
        seq![WindowCommand::MoveToFixedPosition, WindowCommand::Restore, WindowCommand::Focus],
    )
}

/// After the window gained and lost the focus: gaining it makes the window
/// known as visible; losing it hides a visible window that is not pinned.
pub open spec fn after_focus(v: DockView, gained: bool, lost: bool) -> (DockView, Seq<WindowCommand>) {
    let v1 = if gained {
        DockView { visible: true, ..v }
    } else {
        v
    };
    if !v1.pinned && v1.visible && lost {
        hidden(v1)
    } else {
        (v1, Seq::empty())
    }
}

/// After one tray event: the release of a left click toggles the window; the
/// quit item closes it; anything else changes nothing.
pub open spec fn after_event(v: DockView, event: AppEvent) -> (DockView, Seq<WindowCommand>) {
    match event {
        AppEvent::Tray(TrayEvent::Click { left_button, released }) => if left_button && released {
            if v.visible {
                hidden(v)
            } else {
                shown(v)
            }
        } else {
            (v, Seq::empty())
        },
        AppEvent::Tray(TrayEvent::Other) => (v, Seq::empty()),
        AppEvent::Menu(id) => if id@ == v.quit_id {
            (v, seq![WindowCommand::Close])
        } else {
            (v, Seq::empty())
        },
    }
}

/// After tray events in order: the state after the last, and the commands
/// of all of them in order.
pub open spec fn after_events(v: DockView, events: Seq<AppEvent>) -> (DockView, Seq<WindowCommand>)
    decreases events.len(),
{
    if events.len() == 0 {
        (v, Seq::empty())
    } else {
        let (v1, c1) = after_events(v, events.drop_last());
        let (v2, c2) = after_event(v1, events.last());
        (v2, c1 + c2)
    }
}

/// After a translation finished: it no longer runs, and the output shows the
/// translation or the error.
pub open spec fn after_result(v: DockView, result: Result<String, String>) -> DockView {
    DockView {
        translating: false,
        output: match result {
            Ok(t) => t@,
            Err(e) => error_text(e@),
        },
        ..v
    }
}

/// The edit entered a line break without Shift (by Enter, or ending a
/// pasted text), and it stands at character `enter_at` of the input.
pub open spec fn enter_typed(v: DockView, shift_held: bool, enter_at: Option<usize>) -> bool {
    match enter_at {
        Some(i) => !shift_held && i < v.input.len() && v.input[i as int] == '\n',
        None => false,
    }
}

/// The state with the character at `i` of the input taken out.
pub open spec fn without_input_char(v: DockView, i: usize) -> DockView {
    DockView { input: v.input.remove(i as int), ..v }
}

/// After an edit of the input: the line break that the edit entered without
/// Shift is taken out, wherever it stands, and the translation is asked for;
/// any other edit changes nothing more.
pub open spec fn after_edit_input(v: DockView, shift_held: bool, enter_at: Option<usize>) -> DockView {
    match enter_at {
        Some(i) => if enter_typed(v, shift_held, enter_at) {
            after_trigger(without_input_char(v, i))
        } else {
            v
        },
        None => v,
    }
}

/// The languages and the texts swapped.
pub open spec fn swapped(v: DockView) -> DockView {
    DockView { source: v.target, target: v.source, input: v.output, output: v.input, ..v }
}

impl TranslateApp {
    /// The state at start, with the saved API key and the id of the tray
    /// menu's quit item.
    pub fn new(api_key: String, quit_id: String) -> (res: Self)
        ensures
            res@ == initial_view(api_key@, quit_id@),
    {
        TranslateApp {
            input_text: String::new(),
            output_text: String::new(),
            source_lang: Language::Chinese,
            target_lang: Language::English,
            is_translating: false,
            api_key,
            show_settings: false,
            api_key_visible: false,
            show_window: true,
            is_pinned: true,
            quit_id,
        }
    }

    /// Asks for a translation of the input. A blank input changes nothing and
    /// hands out nothing; otherwise the translation starts and the job to run
    /// is handed out.
    pub fn trigger_translation(&mut self) -> (res: Option<TranslationJob>)
        ensures
            final(self)@ == after_trigger(old(self)@),
            job_for(old(self)@, res),
    {
        if trims_to_empty(self.input_text.as_str()) {
            return None;
        }
        self.is_translating = true;
        self.output_text = "翻译中...".to_owned();
        Some(
            TranslationJob {
                text: self.input_text.clone(),
                source: self.source_lang,
                target: self.target_lang,
                api_key: self.api_key.clone(),
            },
        )
    }

    /// Hides the window.
    pub fn do_hide(&mut self) -> (res: Vec<WindowCommand>)
        ensures
            (final(self)@, res@) == hidden(old(self)@),
    {
        self.show_window = false;
        let mut cmds: Vec<WindowCommand> = Vec::new();
        cmds.push(WindowCommand::Minimize);
        cmds
    }

    /// Shows the window at its fixed position.
    pub fn do_show(&mut self) -> (res: Vec<WindowCommand>)
        ensures
            (final(self)@, res@) == shown(old(self)@),
    {
        self.show_window = true;
        let mut cmds: Vec<WindowCommand> = Vec::new();
        cmds.push(WindowCommand::MoveToFixedPosition);
        cmds.push(WindowCommand::Restore);
        cmds.push(WindowCommand::Focus);
        cmds
    }

    /// Answers the window gaining and losing the focus during a frame.
    pub fn on_focus_change(&mut self, gained: bool, lost: bool) -> (res: Vec<WindowCommand>)
        ensures
            (final(self)@, res@) == after_focus(old(self)@, gained, lost),
    {
        if gained {
            self.show_window = true;
        }
        if !self.is_pinned && self.show_window && lost {
            return self.do_hide();
        }
        Vec::new()
    }

    /// Answers one tray event.
    pub fn handle_event(&mut self, event: &AppEvent) -> (res: Vec<WindowCommand>)
        ensures
            (final(self)@, res@) == after_event(old(self)@, *event),
    {
        match event {
            AppEvent::Tray(TrayEvent::Click { left_button, released }) => {
                if *left_button && *released {
                    if self.show_window {
                        self.do_hide()
                    } else {
                        self.do_show()
                    }
                } else {
                    Vec::new()
                }
            },
            AppEvent::Tray(TrayEvent::Other) => Vec::new(),
            AppEvent::Menu(id) => {
                let mut cmds: Vec<WindowCommand> = Vec::new();
                if *id == self.quit_id {
                    cmds.push(WindowCommand::Close);
                }
                cmds
            },
        }
    }

    /// Answers tray events in the order they came.
    pub fn handle_events(&mut self, events: &Vec<AppEvent>) -> (res: Vec<WindowCommand>)
        ensures
            (final(self)@, res@) == after_events(old(self)@, events@),
    {
        let mut cmds: Vec<WindowCommand> = Vec::new();
        let ghost start = self@;
        let n = events.len();
        for i in 0..n
            invariant
                n == events@.len(),
                (self@, cmds@) == after_events(start, events@.take(i as int)),
        {
            let mut more = self.handle_event(&events[i]);
            cmds.append(&mut more);
            assert(events@.take(i + 1).drop_last() =~= events@.take(i as int));
        }
        assert(events@.take(n as int) =~= events@);
        cmds
    }

    /// Takes in a finished translation.
    pub fn receive_translation(&mut self, result: Result<String, String>)
        ensures
            final(self)@ == after_result(old(self)@, result),
    {
        self.is_translating = false;
        match result {
            Ok(text) => {
                self.output_text = text;
            },
            Err(err) => {
                self.output_text = "错误: ".to_owned().concat(err.as_str());
            },
        }
    }

    /// What a frame does before it draws: it answers the focus changes, then
    /// the tray events in order, then takes in the translation that finished,
    /// if any. The commands come back in that order.
    pub fn begin_frame(
        &mut self,
        focus_gained: bool,
        focus_lost: bool,
        events: &Vec<AppEvent>,
        finished: Option<Result<String, String>>,
    ) -> (res: Vec<WindowCommand>)
        ensures
            ({
                let (v1, c1) = after_focus(old(self)@, focus_gained, focus_lost);
                let (v2, c2) = after_events(v1, events@);
                &&& final(self)@ == match finished {
                    Some(r) => after_result(v2, r),
                    None => v2,
                }
                &&& res@ == c1 + c2
            }),
    {
        let mut cmds = self.on_focus_change(focus_gained, focus_lost);
        let mut more = self.handle_events(events);
        cmds.append(&mut more);
        if let Some(r) = finished {
            self.receive_translation(r);
        }
        cmds
    }

    /// Opens or closes the settings panel.
    pub fn toggle_settings(&mut self)
        ensures
            final(self)@ == (DockView { settings_open: !old(self)@.settings_open, ..old(self)@ }),
    {
        self.show_settings = !self.show_settings;
    }

    /// Pins or unpins the window, and gives the level that it takes.
    pub fn toggle_pin(&mut self) -> (res: WindowCommand)
        ensures
            final(self)@ == (DockView { pinned: !old(self)@.pinned, ..old(self)@ }),
            res == (if final(self).is_pinned {
                WindowCommand::AlwaysOnTop
            } else {
                WindowCommand::NormalLevel
            }),
    {
        self.is_pinned = !self.is_pinned;
        if self.is_pinned {
            WindowCommand::AlwaysOnTop
        } else {
            WindowCommand::NormalLevel
        }
    }

    /// Shows or hides the API key in the settings panel.
    pub fn toggle_key_visibility(&mut self)
        ensures
            final(self)@ == (DockView { key_visible: !old(self)@.key_visible, ..old(self)@ }),
    {
        self.api_key_visible = !self.api_key_visible;
    }

    /// Empties the input.
    pub fn clear_input(&mut self)
        ensures
            final(self)@ == (DockView { input: Seq::empty(), ..old(self)@ }),
    {
        self.input_text = String::new();
    }

    /// Answers an edit of the input. `enter_at` is where the line break that
    /// this edit entered stands in the input, counted in characters: the one
    /// typed by Enter, or the one that ends a pasted text. Entered without
    /// Shift, that line break is taken out and the translation is asked for;
    /// with Shift it stays as a line break.
    pub fn on_input_edited(&mut self, shift_held: bool, enter_at: Option<usize>) -> (res: Option<
        TranslationJob,
    >)
        ensures
            final(self)@ == after_edit_input(old(self)@, shift_held, enter_at),
            enter_typed(old(self)@, shift_held, enter_at) ==> job_for(
                without_input_char(old(self)@, enter_at->0),
                res,
            ),
            !enter_typed(old(self)@, shift_held, enter_at) ==> res is None,
    {
        let i = match enter_at {
            Some(i) => i,
            None => return None,
        };
        if shift_held {
            return None;
        }
        let (rest, taken) = take_char_at(self.input_text.as_str(), i);
        match taken {
            Some('\n') => {},
            _ => return None,
        }
        self.input_text = rest;
        self.trigger_translation()
    }

    /// Swaps the languages and, with them, the input and the output.
    pub fn swap_languages(&mut self)
        ensures
            final(self)@ == swapped(old(self)@),
    {
        std::mem::swap(&mut self.source_lang, &mut self.target_lang);
        std::mem::swap(&mut self.input_text, &mut self.output_text);
    }

    /// Whether the translate button is enabled: no translation is running.
    pub fn can_translate(&self) -> (res: bool)
        ensures
            res == !self.is_translating,
    {
        !self.is_translating
    }

    /// The text of the language button: the two labels around an arrow.
    pub fn language_label(&self) -> (res: String)
        ensures
            res@ == label(self.source_lang) + " \u{2194} "@ + label(self.target_lang),
    {
        self.source_lang.display().to_owned().concat(" \u{2194} ").concat(self.target_lang.display())
    }

    /// The icon of the pin button.
    pub fn pin_icon(&self) -> (res: &'static str)
        ensures
            res@ == (if self.is_pinned {
                "📌"@
            } else {
                "📍"@
            }),
    {
        if self.is_pinned {
            "📌"
        } else {
            "📍"
        }
    }

    /// The hover text of the pin button.
    pub fn pin_tooltip(&self) -> (res: &'static str)
        ensures
            res@ == (if self.is_pinned {
                "取消固定（失去焦点自动隐藏）"@
            } else {
                "固定（始终在前台）"@
            }),
    {
        if self.is_pinned {
            "取消固定（失去焦点自动隐藏）"
        } else {
            "固定（始终在前台）"
        }
    }

    /// The icon of the button that shows or hides the key: an eye while the
    /// key is shown, nothing otherwise.
    pub fn eye_icon(&self) -> (res: &'static str)
        ensures
            res@ == (if self.api_key_visible {
                "👁"@
            } else {
                ""@
            }),
    {
        if self.api_key_visible {
            "👁"
        } else {
            ""
        }
    }
}

/// Swapping the languages twice gives back the state before.
pub proof fn lemma_swap_twice(v: DockView)
    ensures
        swapped(swapped(v)) == v,
{
    assert(swapped(swapped(v)) =~= v);
}

/// A second release of a left click on the tray icon undoes the first: the
/// window is back in the state it had.
pub proof fn lemma_tray_click_twice(v: DockView)
    ensures
        ({
            let click = AppEvent::Tray(TrayEvent::Click { left_button: true, released: true });
            let (v1, c1) = after_event(v, click);
            let (v2, c2) = after_event(v1, click);
            &&& v1.visible == !v.visible
            &&& v2 == v
        }),
{
    let click = AppEvent::Tray(TrayEvent::Click { left_button: true, released: true });
    let (v1, c1) = after_event(v, click);
    let (v2, c2) = after_event(v1, click);
    assert(v2 =~= v);
}

/// A pinned window is never hidden by a change of focus: it stays visible
/// if it was, and no command is given.
pub proof fn lemma_pinned_window_stays(v: DockView, gained: bool, lost: bool)
    requires
        v.pinned,
    ensures
        after_focus(v, gained, lost).0.visible == (v.visible || gained),
        after_focus(v, gained, lost).1 == Seq::<WindowCommand>::empty(),
{
}

/// Tray events answered in two batches give the same state, and the same
/// commands in the same order, as all of them answered at once.
pub proof fn lemma_events_in_batches(v: DockView, first: Seq<AppEvent>, second: Seq<AppEvent>)
    ensures
        ({
            let (v1, c1) = after_events(v, first);
            let (v2, c2) = after_events(v1, second);
            after_events(v, first + second) == (v2, c1 + c2)
        }),
    decreases second.len(),
{
    if second.len() == 0 {
        assert(first + second =~= first);
        let (v1, c1) = after_events(v, first);
        assert(c1 + Seq::<WindowCommand>::empty() =~= c1);
    } else {
        lemma_events_in_batches(v, first, second.drop_last());
        assert((first + second).drop_last() =~= first + second.drop_last());
        assert((first + second).last() == second.last());
        let (v1, c1) = after_events(v, first);
        let (w, cw) = after_events(v1, second.drop_last());
        let (x, cx) = after_event(w, second.last());
        assert(c1 + cw + cx =~= c1 + (cw + cx));
    }
}

/// A translation that starts and then finishes leaves the input, the
/// languages and the key as they were, shows its outcome and lets the next
/// translation start.
pub proof fn lemma_started_then_finished(v: DockView, result: Result<String, String>)
    requires
        !is_blank(v.input),
    ensures
        after_result(after_trigger(v), result) == after_result(v, result),
        !after_result(after_trigger(v), result).translating,
        after_result(after_trigger(v), result).input == v.input,
{
    assert(after_result(after_trigger(v), result) =~= after_result(v, result));
}

/// An edit of the input made with Shift held never starts a translation and
/// changes nothing, wherever its line break stands.
pub proof fn lemma_shift_edit_changes_nothing(v: DockView, enter_at: Option<usize>)
    ensures
        !enter_typed(v, true, enter_at),
        after_edit_input(v, true, enter_at) == v,
{
}

/// An edit that entered no line break where it says (none reported, a
/// position past the input, or another character there) changes nothing and
/// starts nothing.
pub proof fn lemma_edit_without_line_break_changes_nothing(
    v: DockView,
    shift_held: bool,
    enter_at: Option<usize>,
)
    requires
        match enter_at {
            Some(i) => i >= v.input.len() || v.input[i as int] != '\n',
            None => true,
        },
    ensures
        !enter_typed(v, shift_held, enter_at),
        after_edit_input(v, shift_held, enter_at) == v,
{
}

/// Enter without Shift at position `i` of the input takes exactly that line
/// break out of the input. If what remains is not blank, the translation
/// starts: it is running and the output shows "翻译中...". If it is blank,
/// nothing else changes. Languages, key, window and settings stay as they
/// were.
pub proof fn lemma_enter_takes_line_break_out(v: DockView, i: usize)
    requires
        i < v.input.len(),
        v.input[i as int] == '\n',
    ensures
        enter_typed(v, false, Some(i)),
        ({
            let w = after_edit_input(v, false, Some(i));
            &&& w.input == v.input.subrange(0, i as int) + v.input.subrange(i + 1, v.input.len() as int)
            &&& w.input.len() + 1 == v.input.len()
            &&& w.source == v.source
            &&& w.target == v.target
            &&& w.api_key == v.api_key
            &&& w.settings_open == v.settings_open
            &&& w.key_visible == v.key_visible
            &&& w.visible == v.visible
            &&& w.pinned == v.pinned
            &&& w.quit_id == v.quit_id
            &&& is_blank(w.input) ==> w.translating == v.translating && w.output == v.output
            &&& !is_blank(w.input) ==> w.translating && w.output == "翻译中..."@
        }),
{
    let w = after_edit_input(v, false, Some(i));
    assert(v.input.remove(i as int) =~= v.input.subrange(0, i as int) + v.input.subrange(
        i + 1,
        v.input.len() as int,
    ));
}

/// A job handed out for a translation carries the input as it is, the two
/// languages in their order and the key; none is handed out for a blank
/// input.
pub proof fn lemma_job_carries_input(v: DockView, job: Option<TranslationJob>)
    requires
        job_for(v, job),
    ensures
        is_blank(v.input) <==> job is None,
        job matches Some(j) ==> j.text@ == v.input && j.source == v.source && j.target == v.target
            && j.api_key@ == v.api_key,
{
}

/// Asking for a translation of a blank input changes nothing; of any other
/// input, it starts the translation, shows "翻译中..." and keeps all else.
pub proof fn lemma_trigger(v: DockView)
    ensures
        is_blank(v.input) ==> after_trigger(v) == v,
        !is_blank(v.input) ==> after_trigger(v) == (DockView {
            translating: true,
            output: "翻译中..."@,
            ..v
        }),
{
}

/// A tray click that is not a left-button release (a press, or another
/// button) changes nothing and gives no command, whether the window is
/// visible or not; so do the tray's other events.
pub proof fn lemma_tray_press_changes_nothing(v: DockView, left_button: bool, released: bool)
    requires
        !(left_button && released),
    ensures
        after_event(v, AppEvent::Tray(TrayEvent::Click { left_button, released })) == (
            v,
            Seq::<WindowCommand>::empty(),
        ),
        after_event(v, AppEvent::Tray(TrayEvent::Other)) == (v, Seq::<WindowCommand>::empty()),
{
}

/// The release of a left click on the tray icon hides a visible window with
/// a single Minimize, and shows a hidden one at its fixed position, restored
/// and focused; nothing else of the state changes.
pub proof fn lemma_left_release_toggles(v: DockView)
    ensures
        ({
            let (w, cmds) = after_event(
                v,
                AppEvent::Tray(TrayEvent::Click { left_button: true, released: true }),
            );
            &&& w == (DockView { visible: !v.visible, ..v })
            &&& v.visible ==> cmds == seq![WindowCommand::Minimize]
            &&& !v.visible ==> cmds == seq![
                WindowCommand::MoveToFixedPosition,
                WindowCommand::Restore,
                WindowCommand::Focus,
            ]
        }),
{
    let (w, cmds) = after_event(
        v,
        AppEvent::Tray(TrayEvent::Click { left_button: true, released: true }),
    );
    assert(w =~= (DockView { visible: !v.visible, ..v }));
}

/// The quit item closes the window and changes nothing else; any other menu
/// item does nothing.
pub proof fn lemma_menu_item(v: DockView, id: String)
    ensures
        id@ == v.quit_id ==> after_event(v, AppEvent::Menu(id)) == (v, seq![WindowCommand::Close]),
        id@ != v.quit_id ==> after_event(v, AppEvent::Menu(id)) == (
            v,
            Seq::<WindowCommand>::empty(),
        ),
{
}

/// An unpinned, visible window that loses the focus without gaining it is
/// hidden with a single Minimize, whatever its texts hold; nothing else of
/// the state changes.
pub proof fn lemma_unpinned_window_hides_on_focus_loss(v: DockView)
    requires
        !v.pinned,
        v.visible,
    ensures
        after_focus(v, false, true) == (
            DockView { visible: false, ..v },
            seq![WindowCommand::Minimize],
        ),
{
    assert(after_focus(v, false, true).0 =~= (DockView { visible: false, ..v }));
}

/// Gaining the focus without losing it makes the window known as visible,
/// with no command; a window that neither gains nor loses the focus is left
/// as it is; a pinned window that gains it is visible whatever else happened.
pub proof fn lemma_focus_gained_or_kept(v: DockView, lost: bool)
    ensures
        after_focus(v, true, false) == (
            DockView { visible: true, ..v },
            Seq::<WindowCommand>::empty(),
        ),
        after_focus(v, false, false) == (v, Seq::<WindowCommand>::empty()),
        v.pinned ==> after_focus(v, true, lost) == (
            DockView { visible: true, ..v },
            Seq::<WindowCommand>::empty(),
        ),
{
    assert(after_focus(v, true, false).0 =~= (DockView { visible: true, ..v }));
}

/// A finished translation shows exactly its text in the output, line breaks
/// and all; a failed one shows "错误: " followed by the error. Either way no
/// translation runs any more, and nothing else changes.
pub proof fn lemma_result_shown(v: DockView, result: Result<String, String>)
    ensures
        ({
            let w = after_result(v, result);
            &&& !w.translating
            &&& result matches Ok(t) ==> w.output == t@
            &&& result matches Err(e) ==> w.output == "错误: "@ + e@
            &&& w == (DockView { translating: false, output: w.output, ..v })
        }),
{
}

/// Swapping exchanges the languages and the two texts and keeps all else.
pub proof fn lemma_swap_exchanges(v: DockView)
    ensures
        swapped(v) == (DockView {
            source: v.target,
            target: v.source,
            input: v.output,
            output: v.input,
            ..v
        }),
{
}

} // verus!
