use vstd::prelude::*;
use vstd::utf8::{decode_utf8, valid_utf8};

use crate::keys::{Key, Mode, Page};
use crate::rxtx::{receive_line, trim_line_end, lossy_decode, RxTxView, RxTxWidget};
use crate::serial::{BridgeError, LinkState, Serial, SerialView};

verus! {

/// The tabs of a session, in display order.
#[derive(PartialEq, Eq, Structural, Clone, Copy, Debug)]
pub enum SelectedTab {
    TxRx,
    Command,
    Stream,
    Ymodem,
    Chart,
}

/// Number of tabs.
pub const TAB_COUNT: usize = 5;

impl SelectedTab {
    /// Position of the tab in display order.
    pub open spec fn spec_index(self) -> nat {
        match self {
            SelectedTab::TxRx => 0,
            SelectedTab::Command => 1,
            SelectedTab::Stream => 2,
            SelectedTab::Ymodem => 3,
            SelectedTab::Chart => 4,
        }
    }

    /// The tab at position `i` in display order, if there is one.
    pub open spec fn spec_from_repr(i: nat) -> Option<SelectedTab> {
        if i == 0 {
            Some(SelectedTab::TxRx)
        } else if i == 1 {
            Some(SelectedTab::Command)
        } else if i == 2 {
            Some(SelectedTab::Stream)
        } else if i == 3 {
            Some(SelectedTab::Ymodem)
        } else if i == 4 {
            Some(SelectedTab::Chart)
        } else {
            None
        }
    }

    /// The tab after this one, the first after the last.
    pub open spec fn spec_next(self) -> SelectedTab {
        SelectedTab::spec_from_repr(((self.spec_index() + 1) % 5) as nat).unwrap()
    }

    /// The tab before this one, the last before the first.
    pub open spec fn spec_previous(self) -> SelectedTab {
        SelectedTab::spec_from_repr(((self.spec_index() + 4) % 5) as nat).unwrap()
    }

    /// The tab reached by `n` steps forward.
    pub open spec fn next_n(self, n: nat) -> SelectedTab
        decreases n,
    {
        if n == 0 {
            self
        } else {
            self.next_n((n - 1) as nat).spec_next()
        }
    }

    /// The tab reached by `n` steps back.
    pub open spec fn previous_n(self, n: nat) -> SelectedTab
        decreases n,
    {
        if n == 0 {
            self
        } else {
            self.previous_n((n - 1) as nat).spec_previous()
        }
    }

    /// Position of the tab in display order.
    pub fn index(self) -> (r: usize)
        ensures
            r == self.spec_index(),
    {
        match self {
            SelectedTab::TxRx => 0,
            SelectedTab::Command => 1,
            SelectedTab::Stream => 2,
            SelectedTab::Ymodem => 3,
            SelectedTab::Chart => 4,
        }
    }

    /// The tab at position `i` in display order, if there is one.
    pub fn from_repr(i: usize) -> (r: Option<SelectedTab>)
        ensures
            r == SelectedTab::spec_from_repr(i as nat),
    {
        if i == 0 {
            Some(SelectedTab::TxRx)
        } else if i == 1 {
            Some(SelectedTab::Command)
        } else if i == 2 {
            Some(SelectedTab::Stream)
        } else if i == 3 {
            Some(SelectedTab::Ymodem)
        } else if i == 4 {
            Some(SelectedTab::Chart)
        } else {
            None
        }
    }

    /// The tab before this one, the last before the first.
    pub fn previous(self) -> (r: SelectedTab)
        ensures
            r == self.spec_previous(),
    {
        let current_index = self.index();
        if current_index == 0 {
            return SelectedTab::Chart;
        }
        match SelectedTab::from_repr(current_index - 1) {
            Some(t) => t,
            None => SelectedTab::Chart,
        }
    }

    /// The tab after this one, the first after the last.
    pub fn next(self) -> (r: SelectedTab)
        ensures
            r == self.spec_next(),
    {
        let current_index = self.index();
        match SelectedTab::from_repr(current_index + 1) {
            Some(t) => t,
            None => SelectedTab::TxRx,
        }
    }

    /// The tab's label, with the key that selects it.
    pub fn label(self) -> (r: &'static str)
        ensures
            r@ == self.spec_label(),
    {
        match self {
            SelectedTab::TxRx => "TxRx(t)",
            SelectedTab::Command => "List(l)",
            SelectedTab::Stream => "Stream(s)",
            SelectedTab::Ymodem => "Ymodem(y)",
            SelectedTab::Chart => "Chart(c)",
        }
    }

    /// The tab's label, with the key that selects it.
    pub open spec fn spec_label(self) -> Seq<char> {
        match self {
            SelectedTab::TxRx => "TxRx(t)"@,
            SelectedTab::Command => "List(l)"@,
            SelectedTab::Stream => "Stream(s)"@,
            SelectedTab::Ymodem => "Ymodem(y)"@,
            SelectedTab::Chart => "Chart(c)"@,
        }
    }
}

/// Stepping forward from the first tab visits all five tabs, each once, and
/// comes back to the first; one step back from the first lands on the last.
pub proof fn lemma_tab_cycle()
    ensures
        SelectedTab::TxRx.next_n(1) == SelectedTab::Command,
        SelectedTab::TxRx.next_n(2) == SelectedTab::Stream,
        SelectedTab::TxRx.next_n(3) == SelectedTab::Ymodem,
        SelectedTab::TxRx.next_n(4) == SelectedTab::Chart,
        SelectedTab::TxRx.next_n(5) == SelectedTab::TxRx,
        SelectedTab::TxRx.previous_n(1) == SelectedTab::Chart,
        forall|t: SelectedTab| #[trigger] t.next_n(5) == t && t.previous_n(5) == t,
{
    reveal_with_fuel(SelectedTab::next_n, 6);
    reveal_with_fuel(SelectedTab::previous_n, 6);
}

/// Increment that stops at the largest `usize`.
pub open spec fn bump(n: nat) -> nat {
    if n < usize::MAX {
        n + 1
    } else {
        n
    }
}

/// The tab that a command-mode letter selects, if any.
pub open spec fn tab_for_key(c: char) -> Option<SelectedTab> {
    if c == 't' {
        Some(SelectedTab::TxRx)
    } else if c == 'l' {
        Some(SelectedTab::Command)
    } else if c == 's' {
        Some(SelectedTab::Stream)
    } else if c == 'y' {
        Some(SelectedTab::Ymodem)
    } else if c == 'c' {
        Some(SelectedTab::Chart)
    } else {
        None
    }
}

/// The abstract state of a session.
pub struct MainLayoutView {
    pub send_count: nat,
    pub receive_count: nat,
    pub selected_tab: SelectedTab,
    pub mode: Mode,
    pub widget: RxTxView,
}

/// What one key press does to a session and its bridge: the page to go to,
/// if the session ends, the next session state, and the next bridge state.
pub open spec fn key_step(v: MainLayoutView, s: SerialView, key: Key) -> (
    Option<Page>,
    MainLayoutView,
    SerialView,
) {
    match v.mode {
        Mode::Command => match key {
            Key::Esc => (Some(Page::Index), v, s.closed()),
            Key::Char('q') => (Some(Page::Exit), v, s.closed()),
            Key::Char('i') => (None, MainLayoutView { mode: Mode::Input, ..v }, s),
            Key::Right => (None, MainLayoutView { selected_tab: v.selected_tab.spec_next(), ..v }, s),
            Key::Left => (
                None,
                MainLayoutView { selected_tab: v.selected_tab.spec_previous(), ..v },
                s,
            ),
            Key::Char(c) => if tab_for_key(c) is Some {
                (None, MainLayoutView { selected_tab: tab_for_key(c).unwrap(), ..v }, s)
            } else if v.selected_tab == SelectedTab::TxRx {
                (None, MainLayoutView { widget: v.widget.toggled(key), ..v }, s)
            } else {
                (None, v, s)
            },
            _ => if v.selected_tab == SelectedTab::TxRx {
                (None, MainLayoutView { widget: v.widget.toggled(key), ..v }, s)
            } else {
                (None, v, s)
            },
        },
        Mode::Input => match key {
            Key::Esc => (None, MainLayoutView { mode: Mode::Command, ..v }, s),
            Key::Enter => match s.send_result(v.widget.outgoing()) {
                Ok(()) => (
                    None,
                    MainLayoutView {
                        widget: v.widget.submitted(),
                        send_count: bump(v.send_count),
                        ..v
                    },
                    s.after_send(v.widget.outgoing()),
                ),
                Err(BridgeError::Busy) => (
                    None,
                    MainLayoutView { widget: v.widget.after_submit(Err(BridgeError::Busy)), ..v },
                    s,
                ),
                Err(_) => (Some(Page::Index), v, s.closed()),
            },
            _ => (None, MainLayoutView { widget: v.widget.edited(key), ..v }, s),
        },
    }
}

impl Default for MainLayout {
    /// The same as [`MainLayout::new`].
    fn default() -> (r: Self)
        ensures
            r.wf(),
            r@.send_count == 0,
            r@.receive_count == 0,
            r@.selected_tab == SelectedTab::TxRx,
            r@.mode == Mode::Command,
            r@.widget.transcript == Seq::<Seq<char>>::empty(),
            r@.widget.editor.text == Seq::<char>::empty(),
            r@.widget.editor.cursor == 0,
            !r@.widget.hex_mode && !r@.widget.qa_mode && !r@.widget.enter_end,
    {
        MainLayout::new()
    }
}

/// The session: mode, active tab, counters, and the send/receive tab.
pub struct MainLayout {
    send_count: usize,
    receive_count: usize,
    selected_tab: SelectedTab,
    mode: Mode,
    widget: RxTxWidget,
}

impl View for MainLayout {
    type V = MainLayoutView;

    closed spec fn view(&self) -> MainLayoutView {
        MainLayoutView {
            send_count: self.send_count as nat,
            receive_count: self.receive_count as nat,
            selected_tab: self.selected_tab,
            mode: self.mode,
            widget: self.widget@,
        }
    }
}

impl MainLayout {
    /// The editor's cursor is valid.
    pub open spec fn wf(&self) -> bool {
        self@.widget.editor.cursor <= self@.widget.editor.text.len()
    }

    /// A session in command mode on the first tab, counters at zero.
    pub fn new() -> (r: Self)
        ensures
            r.wf(),
            r@.send_count == 0,
            r@.receive_count == 0,
            r@.selected_tab == SelectedTab::TxRx,
            r@.mode == Mode::Command,
            r@.widget.transcript == Seq::<Seq<char>>::empty(),
            r@.widget.editor.text == Seq::<char>::empty(),
            r@.widget.editor.cursor == 0,
            !r@.widget.hex_mode && !r@.widget.qa_mode && !r@.widget.enter_end,
    {
        MainLayout {
            send_count: 0,
            receive_count: 0,
            selected_tab: SelectedTab::TxRx,
            mode: Mode::Command,
            widget: RxTxWidget::new(),
        }
    }

    /// Number of messages sent.
    pub fn send_count(&self) -> (r: usize)
        ensures
            r == self@.send_count,
    {
        self.send_count
    }

    /// Number of messages received.
    pub fn receive_count(&self) -> (r: usize)
        ensures
            r == self@.receive_count,
    {
        self.receive_count
    }

    /// The active tab.
    pub fn selected_tab(&self) -> (r: SelectedTab)
        ensures
            r == self@.selected_tab,
    {
        self.selected_tab
    }

    /// Who owns the keyboard.
    pub fn mode(&self) -> (r: Mode)
        ensures
            r == self@.mode,
    {
        self.mode
    }

    /// The send/receive tab.
    pub fn widget(&self) -> (r: &RxTxWidget)
        ensures
            r@ == self@.widget,
    {
        &self.widget
    }

    /// One render tick: takes at most one message from the bridge into the
    /// transcript, counting it. A lost link, once nothing is left to take,
    /// ends the session towards port selection.
    pub fn read(&mut self, serial: &mut Serial) -> (r: Option<Page>)
        requires
            old(self).wf(),
            old(serial)@.wf(),
        ensures
            final(self).wf(),
            final(serial)@.wf(),
            old(serial)@.inbound.len() > 0 ==> {
                &&& r is None
                &&& final(serial)@ == (SerialView {
                    inbound: old(serial)@.inbound.drop_first(),
                    ..old(serial)@
                })
                &&& final(self)@ == (MainLayoutView {
                    receive_count: bump(old(self)@.receive_count),
                    widget: RxTxView {
                        transcript: old(self)@.widget.transcript.push(
                            trim_line_end(lossy_decode(old(serial)@.inbound[0])),
                        ),
                        ..old(self)@.widget
                    },
                    ..old(self)@
                })
            },
            old(serial)@.inbound.len() > 0 && valid_utf8(old(serial)@.inbound[0])
                ==> final(self)@.widget.transcript == old(self)@.widget.transcript.push(
                trim_line_end(decode_utf8(old(serial)@.inbound[0])),
            ),
            old(serial)@.inbound.len() == 0 ==> {
                &&& final(self)@ == old(self)@
                &&& final(serial)@ == old(serial)@
                &&& r == (if old(serial)@.state == LinkState::Lost {
                    Some(Page::Index)
                } else {
                    None
                })
            },
    {
        match serial.receive() {
            Ok(Some(bytes)) => {
                let line = receive_line(&bytes);
                self.widget.push_line(line);
                self.receive_count = self.receive_count.saturating_add(1);
                None
            },
            Ok(None) => None,
            Err(_) => Some(Page::Index),
        }
    }

    /// Handles one key press; returns the page to go to when the session
    /// ends, after closing the bridge.
    pub fn event(&mut self, key: Key, serial: &mut Serial) -> (r: Option<Page>)
        requires
            old(self).wf(),
            old(serial)@.wf(),
        ensures
            final(self).wf(),
            final(serial)@.wf(),
            (r, final(self)@, final(serial)@) == key_step(old(self)@, old(serial)@, key),
    {
        match self.mode {
            Mode::Command => match key {
                Key::Esc => {
                    serial.close();
                    Some(Page::Index)
                },
                Key::Char('q') => {
                    serial.close();
                    Some(Page::Exit)
                },
                Key::Char('t') => {
                    self.selected_tab = SelectedTab::TxRx;
                    None
                },
                Key::Char('l') => {
                    self.selected_tab = SelectedTab::Command;
                    None
                },
                Key::Char('s') => {
                    self.selected_tab = SelectedTab::Stream;
                    None
                },
                Key::Char('y') => {
                    self.selected_tab = SelectedTab::Ymodem;
                    None
                },
                Key::Char('c') => {
                    self.selected_tab = SelectedTab::Chart;
                    None
                },
                Key::Char('i') => {
                    self.mode = Mode::Input;
                    None
                },
                Key::Right => {
                    self.selected_tab = self.selected_tab.next();
                    None
                },
                Key::Left => {
                    self.selected_tab = self.selected_tab.previous();
                    None
                },
                _ => {
                    if self.selected_tab == SelectedTab::TxRx {
                        self.widget.event(key);
                    }
                    None
                },
            },
            Mode::Input => match key {
                Key::Esc => {
                    self.mode = Mode::Command;
                    None
                },
                _ => {
                    match self.widget.input(key, serial) {
                        Ok(()) => {
                            if key == Key::Enter {
                                self.send_count = self.send_count.saturating_add(1);
                            }
                            None
                        },
                        Err(BridgeError::Busy) => None,
                        Err(_) => {
                            serial.close();
                            Some(Page::Index)
                        },
                    }
                },
            },
        }
    }
}

} // verus!
