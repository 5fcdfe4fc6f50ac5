//! The terminal interface as a state machine: which row of the list is
//! selected, how far the detail pane is scrolled, whether to quit, and what a
//! key asks the module to do.
use vstd::prelude::*;

use crate::text::text_of;

verus! {

/// What the interface remembers between frames.
#[derive(Debug, Clone, PartialEq, Eq)]
pub struct TuiState {
    /// The selected row of the list of buildables (rendering clamps it to
    /// the rows there are).
    pub selected: Option<usize>,
    /// How many lines the detail pane is scrolled down.
    pub scroll_offset: u16,
    pub build_status: String,
}

/// The parts of a `TuiState`: selection, scroll offset, build status.
pub type TuiStateView = (Option<usize>, u16, Seq<char>);

impl View for TuiState {
    type V = TuiStateView;

    open spec fn view(&self) -> TuiStateView {
        (self.selected, self.scroll_offset, self.build_status@)
    }
}

/// The state the interface starts from.
pub open spec fn initial_state() -> TuiStateView {
    (None, 0, "idle"@)
}

/// The view of an optional state.
pub open spec fn state_view(s: Option<TuiState>) -> Option<TuiStateView> {
    match s {
        Some(t) => Some(t@),
        None => None,
    }
}

/// A key of the keyboard, as far as the interface tells keys apart.
#[derive(Debug, Clone, Copy, PartialEq, Eq, Structural)]
pub enum KeyCode {
    Char(char),
    Esc,
    Up,
    Down,
    Home,
    End,
    Other,
}

/// A key event.
#[derive(Debug, Clone, Copy, PartialEq, Eq, Structural)]
pub struct KeyInput {
    pub code: KeyCode,
    /// Whether the key went down (rather than up or repeating).
    pub pressed: bool,
    /// Whether Control, and no other modifier, was held.
    pub control_only: bool,
}

/// What a key asks the module to do besides changing the interface's state.
#[derive(Debug, Clone, Copy, PartialEq, Eq, Structural)]
pub enum KeyAction {
    Nothing,
    /// Stop the development shells (the interface then quits).
    StopDevShells,
    /// Start a build of every buildable.
    RunBuild,
}

/// The selection after moving down one row: the first row when nothing is
/// selected.
pub open spec fn select_next_spec(sel: Option<usize>) -> Option<usize> {
    match sel {
        None => Some(0),
        Some(i) => Some(if i < usize::MAX { (i + 1) as usize } else { i }),
    }
}

/// The selection after moving up one row: the last row when nothing is
/// selected.
pub open spec fn select_previous_spec(sel: Option<usize>) -> Option<usize> {
    match sel {
        None => Some(usize::MAX),
        Some(i) => Some(if i > 0 { (i - 1) as usize } else { 0 }),
    }
}

/// The scroll offset after scrolling up: three lines, when more than three
/// lines are scrolled.
pub open spec fn scroll_up_spec(offset: u16) -> u16 {
    if offset > 3 {
        (offset - 3) as u16
    } else {
        offset
    }
}

/// The scroll offset after scrolling down: three lines, while that stays
/// below the largest offset.
pub open spec fn scroll_down_spec(offset: u16) -> u16 {
    if offset < u16::MAX - 3 {
        (offset + 3) as u16
    } else {
        offset
    }
}

/// Whether a key works on the interface's state (moves the selection or
/// scrolls).
pub open spec fn key_moves(code: KeyCode) -> bool {
    match code {
        KeyCode::Char(c) => c == 'j' || c == 'k' || c == 'g' || c == 'G' || c == 'u' || c == 'i',
        KeyCode::Up | KeyCode::Down | KeyCode::Home | KeyCode::End => true,
        _ => false,
    }
}

/// The state after a key that works on it.
pub open spec fn apply_key(s: TuiStateView, code: KeyCode) -> TuiStateView {
    match code {
        KeyCode::Char('j') | KeyCode::Down => (select_next_spec(s.0), s.1, s.2),
        KeyCode::Char('k') | KeyCode::Up => (select_previous_spec(s.0), s.1, s.2),
        KeyCode::Char('g') | KeyCode::Home => (Some(0usize), s.1, s.2),
        KeyCode::Char('G') | KeyCode::End => (Some(usize::MAX), s.1, s.2),
        KeyCode::Char('u') => (s.0, scroll_up_spec(s.1), s.2),
        KeyCode::Char('i') => (s.0, scroll_down_spec(s.1), s.2),
        _ => s,
    }
}

/// Whether a key quits the interface at once (Control-c). `q` and Esc quit
/// too, but only once the development shells are stopped (see
/// `Tui::shells_stopped`).
pub open spec fn key_quits(key: KeyInput) -> bool {
    key.code == KeyCode::Char('c') && key.control_only
}

/// What a pressed key asks the module to do.
pub open spec fn key_action_spec(code: KeyCode) -> KeyAction {
    match code {
        KeyCode::Char('q') | KeyCode::Esc => KeyAction::StopDevShells,
        KeyCode::Char('r') => KeyAction::RunBuild,
        _ => KeyAction::Nothing,
    }
}

impl TuiState {
    /// The state the interface starts from: nothing selected, not scrolled,
    /// build status "idle".
    pub fn new() -> (r: TuiState)
        ensures
            r@ == initial_state(),
    {
        TuiState { selected: None, scroll_offset: 0, build_status: text_of("idle") }
    }

    /// Moves the selection down one row (to the first row when there is
    /// none).
    pub fn select_next(&mut self)
        ensures
            final(self)@ == (select_next_spec(old(self).selected), old(self).scroll_offset, old(
                self,
            ).build_status@),
    {
        self.selected = match self.selected {
            None => Some(0),
            Some(i) => Some(i.saturating_add(1)),
        };
    }

    /// Moves the selection up one row (to the last row when there is none).
    pub fn select_previous(&mut self)
        ensures
            final(self)@ == (select_previous_spec(old(self).selected), old(self).scroll_offset, old(
                self,
            ).build_status@),
    {
        self.selected = match self.selected {
            None => Some(usize::MAX),
            Some(i) => Some(i.saturating_sub(1)),
        };
    }

    /// Scrolls the detail pane up by three lines, when it is scrolled by more
    /// than three.
    pub fn scroll_up(&mut self)
        ensures
            final(self)@ == (old(self).selected, scroll_up_spec(old(self).scroll_offset), old(
                self,
            ).build_status@),
    {
        if self.scroll_offset > 3 {
            self.scroll_offset = self.scroll_offset - 3;
        }
    }

    /// Scrolls the detail pane down by three lines, while that stays below
    /// the largest offset.
    pub fn scroll_down(&mut self)
        ensures
            final(self)@ == (old(self).selected, scroll_down_spec(old(self).scroll_offset), old(
                self,
            ).build_status@),
    {
        if self.scroll_offset < u16::MAX - 3 {
            self.scroll_offset = self.scroll_offset + 3;
        }
    }
}

/// The terminal interface: whether it is to quit, and its state once it has
/// one.
#[derive(Debug, Clone, PartialEq, Eq)]
pub struct Tui {
    pub should_exit: bool,
    pub tui_state: Option<TuiState>,
}

impl Tui {
    /// An interface that is not quitting and has no state yet.
    pub fn new() -> (r: Tui)
        ensures
            !r.should_exit,
            r.tui_state is None,
    {
        Tui { should_exit: false, tui_state: None }
    }

    /// Gives the interface its initial state if it has none.
    pub fn init_state(&mut self)
        ensures
            final(self).should_exit == old(self).should_exit,
            old(self).tui_state is Some ==> final(self).tui_state == old(self).tui_state,
            old(self).tui_state is None ==> state_view(final(self).tui_state) == Some(
                initial_state(),
            ),
    {
        if self.tui_state.is_none() {
            self.tui_state = Some(TuiState::new());
        }
    }

    /// The interface's state, created first if there is none.
    pub fn state(&mut self) -> (r: &mut TuiState)
        ensures
            old(self).tui_state matches Some(s) ==> *r == s,
            old(self).tui_state is None ==> r@ == initial_state(),
            final(self).tui_state == Some(*final(r)),
            final(self).should_exit == old(self).should_exit,
    {
        self.tui_state.get_or_insert(TuiState::new())
    }

    /// Starts a session of the interface: it is no longer quitting, and keeps
    /// the state it had.
    pub fn begin_session(&mut self)
        ensures
            !final(self).should_exit,
            final(self).tui_state == old(self).tui_state,
    {
        self.should_exit = false;
    }

    /// Records that the development shells were stopped after `q` or Esc:
    /// the interface quits, its state unchanged.
    pub fn shells_stopped(&mut self)
        ensures
            final(self).should_exit,
            final(self).tui_state == old(self).tui_state,
    {
        self.should_exit = true;
    }

    /// Scrolls the detail pane (a mouse wheel): up or down by three lines.
    pub fn scroll(&mut self, up: bool)
        ensures
            final(self).should_exit == old(self).should_exit,
            state_view(final(self).tui_state) == Some(
                apply_key(
                    match state_view(old(self).tui_state) {
                        Some(s) => s,
                        None => initial_state(),
                    },
                    if up {
                        KeyCode::Char('u')
                    } else {
                        KeyCode::Char('i')
                    },
                ),
            ),
    {
        if up {
            self.state().scroll_up();
        } else {
            self.state().scroll_down();
        }
    }

    /// Handles a key: a key that is not pressed down does nothing; Control-c
    /// quits; `q` and Esc ask for the development shells to be stopped (the
    /// interface quits once they are, through `shells_stopped`);
    /// `j`/Down, `k`/Up, `g`/Home and `G`/End move the selection; `u` and `i`
    /// scroll; `r` starts a build.
    pub fn handle_key(&mut self, key: KeyInput) -> (r: KeyAction)
        ensures
            !key.pressed ==> *final(self) == *old(self) && r == KeyAction::Nothing,
            key.pressed ==> r == key_action_spec(key.code),
            key.pressed ==> final(self).should_exit == (old(self).should_exit || key_quits(key)),
            key.pressed && key_moves(key.code) ==> state_view(final(self).tui_state) == Some(
                apply_key(
                    match state_view(old(self).tui_state) {
                        Some(s) => s,
                        None => initial_state(),
                    },
                    key.code,
                ),
            ),
            key.pressed && !key_moves(key.code) ==> final(self).tui_state == old(self).tui_state,
    {
        if !key.pressed {
            return KeyAction::Nothing;
        }
        if key.code == KeyCode::Char('c') && key.control_only {
            self.should_exit = true;
        }
        match key.code {
            KeyCode::Char('q') | KeyCode::Esc => KeyAction::StopDevShells,
            KeyCode::Char('j') | KeyCode::Down => {
                self.state().select_next();
                KeyAction::Nothing
            },
            KeyCode::Char('k') | KeyCode::Up => {
                self.state().select_previous();
                KeyAction::Nothing
            },
            KeyCode::Char('g') | KeyCode::Home => {
                self.state().selected = Some(0);
                KeyAction::Nothing
            },
            KeyCode::Char('G') | KeyCode::End => {
                self.state().selected = Some(usize::MAX);
                KeyAction::Nothing
            },
            KeyCode::Char('u') => {
                self.state().scroll_up();
                KeyAction::Nothing
            },
            KeyCode::Char('i') => {
                self.state().scroll_down();
                KeyAction::Nothing
            },
            KeyCode::Char('r') => KeyAction::RunBuild,
            _ => KeyAction::Nothing,
        }
    }
}

/// Law: scrolling down and then up brings the detail pane back to where it
/// was, unless it was at the top or could not scroll further down.
pub proof fn law_scroll_down_then_up(offset: u16)
    requires
        0 < offset < u16::MAX - 3,
    ensures
        scroll_up_spec(scroll_down_spec(offset)) == offset,
{
}

/// Law: scrolling up and then down brings the detail pane back to where it
/// was, when it was scrolled by more than three lines and not to the largest
/// offset.
pub proof fn law_scroll_up_then_down(offset: u16)
    requires
        3 < offset < u16::MAX,
    ensures
        scroll_down_spec(scroll_up_spec(offset)) == offset,
{
}

/// Law: moving the selection down and then up returns to the row that was
/// selected, unless it was the very last possible index.
pub proof fn law_select_next_then_previous(i: usize)
    requires
        i < usize::MAX,
    ensures
        select_previous_spec(select_next_spec(Some(i))) == Some(i),
{
}

/// Law: moving the selection up and then down returns to the row that was
/// selected, unless it was the first.
pub proof fn law_select_previous_then_next(i: usize)
    requires
        i > 0,
    ensures
        select_next_spec(select_previous_spec(Some(i))) == Some(i),
{
}

/// The scroll offsets the interface can reach: multiples of three, at most
/// the largest offset that scrolling down stops below.
pub open spec fn aligned_offset(offset: u16) -> bool {
    offset % 3 == 0 && offset <= u16::MAX - 3
}

/// Law: the detail pane starts at an aligned offset, and no key or wheel
/// step leaves the aligned offsets: the offset stays a multiple of three and
/// at most 65532.
pub proof fn law_scroll_offset_stays_aligned(s: TuiStateView, code: KeyCode)
    requires
        aligned_offset(s.1),
    ensures
        aligned_offset(initial_state().1),
        aligned_offset(apply_key(s, code).1),
        aligned_offset(scroll_up_spec(s.1)),
        aligned_offset(scroll_down_spec(s.1)),
{
}

/// Law: `g` does what Home does and selects the top row; `G` does what End
/// does and selects the bottom row (the last index, which rendering clamps
/// to the last row); neither scrolls nor touches the build status.
pub proof fn law_g_top_and_capital_g_bottom(s: TuiStateView)
    ensures
        apply_key(s, KeyCode::Char('g')) == apply_key(s, KeyCode::Home),
        apply_key(s, KeyCode::Char('G')) == apply_key(s, KeyCode::End),
        apply_key(s, KeyCode::Char('g')).0 == Some(0usize),
        apply_key(s, KeyCode::Char('G')).0 == Some(usize::MAX),
        apply_key(s, KeyCode::Char('g')).1 == s.1 && apply_key(s, KeyCode::Char('g')).2 == s.2,
        apply_key(s, KeyCode::Char('G')).1 == s.1 && apply_key(s, KeyCode::Char('G')).2 == s.2,
        apply_key(apply_key(s, KeyCode::Char('g')), KeyCode::Char('j')).0 == Some(1usize),
        apply_key(apply_key(s, KeyCode::Char('G')), KeyCode::Char('g')).0 == Some(0usize),
{
}

/// The state after a sequence of keys that work on it (a wheel step up or
/// down is the key `u` or `i`).
pub open spec fn apply_keys(s: TuiStateView, codes: Seq<KeyCode>) -> TuiStateView
    decreases codes.len(),
{
    if codes.len() == 0 {
        s
    } else {
        apply_key(apply_keys(s, codes.drop_last()), codes.last())
    }
}

/// Law: from the initial state, after any sequence of keys and wheel steps,
/// the scroll offset is a multiple of three and at most 65532.
pub proof fn law_scroll_offset_aligned_after_any_keys(codes: Seq<KeyCode>)
    ensures
        aligned_offset(apply_keys(initial_state(), codes).1),
    decreases codes.len(),
{
    if codes.len() > 0 {
        law_scroll_offset_aligned_after_any_keys(codes.drop_last());
        law_scroll_offset_stays_aligned(apply_keys(initial_state(), codes.drop_last()), codes.last());
    }
}

} // verus!
