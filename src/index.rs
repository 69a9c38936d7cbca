use vstd::prelude::*;

use crate::keys::{digit_of, digit_value, Key, Page};

verus! {

/// Number of data bits per character.
#[derive(PartialEq, Eq, Structural, Clone, Copy, Debug)]
pub enum DataBits {
    Five,
    Six,
    Seven,
    Eight,
}

/// Number of stop bits.
#[derive(PartialEq, Eq, Structural, Clone, Copy, Debug)]
pub enum StopBits {
    One,
    Two,
}

/// Parity checking.
#[derive(PartialEq, Eq, Structural, Clone, Copy, Debug)]
pub enum Parity {
    NoParity,
    Even,
    Odd,
}

/// Flow control.
#[derive(PartialEq, Eq, Structural, Clone, Copy, Debug)]
pub enum FlowControl {
    NoFlowControl,
    Software,
    Hardware,
}

/// Number of baud rates offered.
pub const BAUD_RATE_COUNT: usize = 20;

/// Number of data-bit settings offered.
pub const DATA_BITS_COUNT: usize = 4;

/// Number of stop-bit settings offered.
pub const STOP_BITS_COUNT: usize = 2;

/// Number of parity settings offered.
pub const PARITY_COUNT: usize = 3;

/// Number of flow-control settings offered.
pub const FLOW_COUNT: usize = 3;

/// The baud rates offered, in menu order.
pub open spec fn baud_rates() -> Seq<u32> {
    seq![
        300u32, 600, 1200, 2400, 4800, 9600, 14400, 19200, 38400, 56000, 57600, 115200, 128000,
        256000, 460800, 512000, 750000, 900000, 921600, 1500000,
    ]
}

/// The data-bit settings offered, in menu order.
pub open spec fn data_bits_options() -> Seq<DataBits> {
    seq![DataBits::Five, DataBits::Six, DataBits::Seven, DataBits::Eight]
}

/// The stop-bit settings offered, in menu order.
pub open spec fn stop_bits_options() -> Seq<StopBits> {
    seq![StopBits::One, StopBits::Two]
}

/// The parity settings offered, in menu order.
pub open spec fn parity_options() -> Seq<Parity> {
    seq![Parity::NoParity, Parity::Even, Parity::Odd]
}

/// The flow-control settings offered, in menu order.
pub open spec fn flow_options() -> Seq<FlowControl> {
    seq![FlowControl::NoFlowControl, FlowControl::Software, FlowControl::Hardware]
}

/// The baud rate at position `i` of the menu.
pub fn baud_rate_at(i: usize) -> (r: u32)
    requires
        i < BAUD_RATE_COUNT,
    ensures
        r == baud_rates()[i as int],
{
    match i {
        0 => 300,
        1 => 600,
        2 => 1200,
        3 => 2400,
        4 => 4800,
        5 => 9600,
        6 => 14400,
        7 => 19200,
        8 => 38400,
        9 => 56000,
        10 => 57600,
        11 => 115200,
        12 => 128000,
        13 => 256000,
        14 => 460800,
        15 => 512000,
        16 => 750000,
        17 => 900000,
        18 => 921600,
        _ => 1500000,
    }
}

/// The data-bit setting at position `i` of the menu.
pub fn data_bits_at(i: usize) -> (r: DataBits)
    requires
        i < DATA_BITS_COUNT,
    ensures
        r == data_bits_options()[i as int],
{
    match i {
        0 => DataBits::Five,
        1 => DataBits::Six,
        2 => DataBits::Seven,
        _ => DataBits::Eight,
    }
}

/// The stop-bit setting at position `i` of the menu.
pub fn stop_bits_at(i: usize) -> (r: StopBits)
    requires
        i < STOP_BITS_COUNT,
    ensures
        r == stop_bits_options()[i as int],
{
    match i {
        0 => StopBits::One,
        _ => StopBits::Two,
    }
}

/// The parity setting at position `i` of the menu.
pub fn parity_at(i: usize) -> (r: Parity)
    requires
        i < PARITY_COUNT,
    ensures
        r == parity_options()[i as int],
{
    match i {
        0 => Parity::NoParity,
        1 => Parity::Even,
        _ => Parity::Odd,
    }
}

/// The flow-control setting at position `i` of the menu.
pub fn flow_at(i: usize) -> (r: FlowControl)
    requires
        i < FLOW_COUNT,
    ensures
        r == flow_options()[i as int],
{
    match i {
        0 => FlowControl::NoFlowControl,
        1 => FlowControl::Software,
        _ => FlowControl::Hardware,
    }
}

/// The fields of the port-selection page, top to bottom.
#[derive(PartialEq, Eq, Structural, Clone, Copy, Debug)]
pub enum Menu {
    SerialPort,
    BaudRate,
    DataBits,
    StopBits,
    Parity,
    FlowConntrol,
}

impl Menu {
    /// Position of the field, top first.
    pub open spec fn spec_index(self) -> nat {
        match self {
            Menu::SerialPort => 0,
            Menu::BaudRate => 1,
            Menu::DataBits => 2,
            Menu::StopBits => 3,
            Menu::Parity => 4,
            Menu::FlowConntrol => 5,
        }
    }

    /// The field at position `i`, if there is one.
    pub open spec fn spec_from_repr(i: nat) -> Option<Menu> {
        if i == 0 {
            Some(Menu::SerialPort)
        } else if i == 1 {
            Some(Menu::BaudRate)
        } else if i == 2 {
            Some(Menu::DataBits)
        } else if i == 3 {
            Some(Menu::StopBits)
        } else if i == 4 {
            Some(Menu::Parity)
        } else if i == 5 {
            Some(Menu::FlowConntrol)
        } else {
            None
        }
    }

    /// The field below this one, the top one below the last.
    pub open spec fn spec_next(self) -> Menu {
        Menu::spec_from_repr(((self.spec_index() + 1) % 6) as nat).unwrap()
    }

    /// The field above this one, the last one above the top.
    pub open spec fn spec_previous(self) -> Menu {
        Menu::spec_from_repr(((self.spec_index() + 5) % 6) as nat).unwrap()
    }

    /// Position of the field, top first.
    pub fn index(self) -> (r: usize)
        ensures
            r == self.spec_index(),
    {
        match self {
            Menu::SerialPort => 0,
            Menu::BaudRate => 1,
            Menu::DataBits => 2,
            Menu::StopBits => 3,
            Menu::Parity => 4,
            Menu::FlowConntrol => 5,
        }
    }

    /// The field at position `i`, if there is one.
    pub fn from_repr(i: usize) -> (r: Option<Menu>)
        ensures
            r == Menu::spec_from_repr(i as nat),
    {
        if i == 0 {
            Some(Menu::SerialPort)
        } else if i == 1 {
            Some(Menu::BaudRate)
        } else if i == 2 {
            Some(Menu::DataBits)
        } else if i == 3 {
            Some(Menu::StopBits)
        } else if i == 4 {
            Some(Menu::Parity)
        } else if i == 5 {
            Some(Menu::FlowConntrol)
        } else {
            None
        }
    }

    /// The field above this one, the last one above the top.
    pub fn previous(self) -> (r: Menu)
        ensures
            r == self.spec_previous(),
    {
        let current_index = self.index();
        if current_index == 0 {
            return Menu::FlowConntrol;
        }
        match Menu::from_repr(current_index - 1) {
            Some(m) => m,
            None => Menu::FlowConntrol,
        }
    }

    /// The field below this one, the top one below the last.
    pub fn next(self) -> (r: Menu)
        ensures
            r == self.spec_next(),
    {
        let current_index = self.index();
        match Menu::from_repr(current_index + 1) {
            Some(m) => m,
            None => Menu::SerialPort,
        }
    }

    /// The field's name.
    pub fn label(self) -> (r: &'static str)
        ensures
            r@ == self.spec_label(),
    {
        match self {
            Menu::SerialPort => "Serial Port",
            Menu::BaudRate => "Baud Rate",
            Menu::DataBits => "Data Bits",
            Menu::StopBits => "Stop Bits",
            Menu::Parity => "Parity",
            Menu::FlowConntrol => "Flow Conntrol",
        }
    }

    /// The field's name.
    pub open spec fn spec_label(self) -> Seq<char> {
        match self {
            Menu::SerialPort => "Serial Port"@,
            Menu::BaudRate => "Baud Rate"@,
            Menu::DataBits => "Data Bits"@,
            Menu::StopBits => "Stop Bits"@,
            Menu::Parity => "Parity"@,
            Menu::FlowConntrol => "Flow Conntrol"@,
        }
    }
}

/// The abstract line configuration and current page.
pub struct AppContextView {
    pub path: Seq<char>,
    pub baud_rate: u32,
    pub data_bits: DataBits,
    pub stop_bits: StopBits,
    pub parity: Parity,
    pub flow_control: FlowControl,
    pub page: Page,
}

/// The serial line configuration and the current top-level page.
pub struct AppContext {
    path: String,
    baud_rate: u32,
    data_bits: DataBits,
    stop_bits: StopBits,
    parity: Parity,
    flow_control: FlowControl,
    page: Page,
}

impl View for AppContext {
    type V = AppContextView;

    closed spec fn view(&self) -> AppContextView {
        AppContextView {
            path: self.path@,
            baud_rate: self.baud_rate,
            data_bits: self.data_bits,
            stop_bits: self.stop_bits,
            parity: self.parity,
            flow_control: self.flow_control,
            page: self.page,
        }
    }
}

impl AppContext {
    /// No port, 115200 baud, 8 data bits, 1 stop bit, no parity, no flow
    /// control, on the port-selection page.
    pub fn new() -> (r: Self)
        ensures
            r@ == (AppContextView {
                path: Seq::empty(),
                baud_rate: 115200,
                data_bits: DataBits::Eight,
                stop_bits: StopBits::One,
                parity: Parity::NoParity,
                flow_control: FlowControl::NoFlowControl,
                page: Page::Index,
            }),
    {
        AppContext {
            path: String::new(),
            baud_rate: 115200,
            data_bits: DataBits::Eight,
            stop_bits: StopBits::One,
            parity: Parity::NoParity,
            flow_control: FlowControl::NoFlowControl,
            page: Page::Index,
        }
    }

    /// The port's path.
    pub fn path(&self) -> (r: &String)
        ensures
            r@ == self@.path,
    {
        &self.path
    }

    /// The baud rate.
    pub fn baud_rate(&self) -> (r: u32)
        ensures
            r == self@.baud_rate,
    {
        self.baud_rate
    }

    /// The data bits.
    pub fn data_bits(&self) -> (r: DataBits)
        ensures
            r == self@.data_bits,
    {
        self.data_bits
    }

    /// The stop bits.
    pub fn stop_bits(&self) -> (r: StopBits)
        ensures
            r == self@.stop_bits,
    {
        self.stop_bits
    }

    /// The parity.
    pub fn parity(&self) -> (r: Parity)
        ensures
            r == self@.parity,
    {
        self.parity
    }

    /// The flow control.
    pub fn flow_control(&self) -> (r: FlowControl)
        ensures
            r == self@.flow_control,
    {
        self.flow_control
    }

    /// The current page.
    pub fn page(&self) -> (r: Page)
        ensures
            r == self@.page,
    {
        self.page
    }

    /// Moves to `page`.
    pub fn set_page(&mut self, page: Page)
        ensures
            final(self)@ == (AppContextView { page, ..old(self)@ }),
    {
        self.page = page;
    }

    /// The port could not be opened: back to port selection.
    pub fn open_failed(&mut self)
        ensures
            final(self)@ == (AppContextView { page: Page::Index, ..old(self)@ }),
    {
        self.page = Page::Index;
    }
}

/// The abstract state of the port-selection page.
pub struct IndexPageView {
    pub position: Menu,
    pub select: bool,
    pub index: nat,
    pub ports: Seq<Seq<char>>,
}

/// The port names of a list.
pub open spec fn names(ports: Seq<String>) -> Seq<Seq<char>> {
    ports.map_values(|p: String| p@)
}

impl IndexPageView {
    /// The typed index with one more digit, unless it already has two.
    pub open spec fn with_digit(self, d: nat) -> IndexPageView {
        if self.index >= 10 {
            self
        } else {
            IndexPageView { index: self.index * 10 + d, ..self }
        }
    }

    /// The context with the typed index committed into the current field,
    /// where the index names one of the field's options.
    pub open spec fn commit(self, c: AppContextView) -> AppContextView {
        match self.position {
            Menu::SerialPort => if self.index < self.ports.len() {
                AppContextView { path: self.ports[self.index as int], ..c }
            } else {
                c
            },
            Menu::BaudRate => if self.index < baud_rates().len() {
                AppContextView { baud_rate: baud_rates()[self.index as int], ..c }
            } else {
                c
            },
            Menu::DataBits => if self.index < data_bits_options().len() {
                AppContextView { data_bits: data_bits_options()[self.index as int], ..c }
            } else {
                c
            },
            Menu::StopBits => if self.index < stop_bits_options().len() {
                AppContextView { stop_bits: stop_bits_options()[self.index as int], ..c }
            } else {
                c
            },
            Menu::Parity => if self.index < parity_options().len() {
                AppContextView { parity: parity_options()[self.index as int], ..c }
            } else {
                c
            },
            Menu::FlowConntrol => if self.index < flow_options().len() {
                AppContextView { flow_control: flow_options()[self.index as int], ..c }
            } else {
                c
            },
        }
    }
}

/// What one key press does on the port-selection page: the page to go to,
/// if any, the page's next state, and the next configuration.
pub open spec fn index_step(v: IndexPageView, c: AppContextView, key: Key) -> (
    Option<Page>,
    IndexPageView,
    AppContextView,
) {
    match key {
        Key::Enter => (Some(Page::Main), v, c),
        Key::Char('q') => (Some(Page::Exit), v, c),
        Key::Down => (None, IndexPageView { position: v.position.spec_next(), ..v }, c),
        Key::Up => (None, IndexPageView { position: v.position.spec_previous(), ..v }, c),
        Key::Char(ch) => if v.select && digit_of(ch) is Some {
            (None, v.with_digit(digit_of(ch).unwrap()), c)
        } else {
            (None, v, c)
        },
        Key::Backspace => if v.select {
            (None, IndexPageView { index: v.index / 10, ..v }, c)
        } else {
            (None, v, c)
        },
        Key::Right => (None, IndexPageView { select: true, ..v }, c),
        Key::Left => (None, IndexPageView { select: false, index: 0, ..v }, v.commit(c)),
        _ => (None, v, c),
    }
}

/// The port-selection page: the highlighted field, whether it is open for
/// typing an option's number, the number typed so far, and the ports found.
pub struct IndexPage {
    position: Menu,
    select: bool,
    index: usize,
    port_list: Vec<String>,
}

impl View for IndexPage {
    type V = IndexPageView;

    closed spec fn view(&self) -> IndexPageView {
        IndexPageView {
            position: self.position,
            select: self.select,
            index: self.index as nat,
            ports: names(self.port_list@),
        }
    }
}

impl IndexPage {
    /// The typed number has at most two digits.
    pub open spec fn wf(&self) -> bool {
        self@.index < 100
    }

    /// The page on the first field, closed, over the ports `info`.
    pub fn new(info: Vec<String>) -> (r: Self)
        ensures
            r.wf(),
            r@.position == Menu::SerialPort,
            !r@.select,
            r@.index == 0,
            r@.ports == names(info@),
    {
        IndexPage { position: Menu::SerialPort, select: false, index: 0, port_list: info }
    }

    /// The highlighted field.
    pub fn position(&self) -> (r: Menu)
        ensures
            r == self@.position,
    {
        self.position
    }

    /// Whether the highlighted field is open for typing.
    pub fn select(&self) -> (r: bool)
        ensures
            r == self@.select,
    {
        self.select
    }

    /// The number typed so far.
    pub fn index(&self) -> (r: usize)
        ensures
            r == self@.index,
    {
        self.index
    }

    /// The ports found.
    pub fn port_list(&self) -> (r: &Vec<String>)
        ensures
            names(r@) == self@.ports,
    {
        &self.port_list
    }

    /// Entering the page: the first port found becomes the configured one.
    pub fn init_context(&self, context: &mut AppContext)
        ensures
            self@.ports.len() > 0 ==> final(context)@ == (AppContextView {
                path: self@.ports[0],
                ..old(context)@
            }),
            self@.ports.len() == 0 ==> final(context)@ == old(context)@,
    {
        if self.port_list.len() > 0 {
            context.path = self.port_list[0].clone();
        }
    }

    fn add_number(&mut self, n: usize)
        requires
            old(self).wf(),
            n < 10,
        ensures
            final(self).wf(),
            final(self)@ == old(self)@.with_digit(n as nat),
    {
        if self.index >= 10 {
            return;
        }
        self.index = self.index * 10;
        self.index = self.index + n;
    }

    fn delete_number(&mut self)
        requires
            old(self).wf(),
        ensures
            final(self).wf(),
            final(self)@ == (IndexPageView { index: old(self)@.index / 10, ..old(self)@ }),
    {
        self.index = self.index / 10;
    }

    fn down(&mut self)
        ensures
            final(self)@ == (IndexPageView { position: old(self)@.position.spec_next(), ..old(self)@ }),
    {
        self.position = self.position.next();
    }

    fn up(&mut self)
        ensures
            final(self)@ == (IndexPageView {
                position: old(self)@.position.spec_previous(),
                ..old(self)@
            }),
    {
        self.position = self.position.previous();
    }

    fn commit(&self, context: &mut AppContext)
        ensures
            final(context)@ == self@.commit(old(context)@),
    {
        match self.position {
            Menu::SerialPort => {
                if self.index < self.port_list.len() {
                    context.path = self.port_list[self.index].clone();
                }
            },
            Menu::BaudRate => {
                if self.index < BAUD_RATE_COUNT {
                    context.baud_rate = baud_rate_at(self.index);
                }
            },
            Menu::DataBits => {
                if self.index < DATA_BITS_COUNT {
                    context.data_bits = data_bits_at(self.index);
                }
            },
            Menu::StopBits => {
                if self.index < STOP_BITS_COUNT {
                    context.stop_bits = stop_bits_at(self.index);
                }
            },
            Menu::Parity => {
                if self.index < PARITY_COUNT {
                    context.parity = parity_at(self.index);
                }
            },
            Menu::FlowConntrol => {
                if self.index < FLOW_COUNT {
                    context.flow_control = flow_at(self.index);
                }
            },
        }
    }

    /// Handles one key press: arrows move between fields and open or close
    /// one, digits and Backspace edit the typed number, closing a field
    /// commits the option it names, Enter opens the session, `q` quits.
    pub fn event(&mut self, key: Key, context: &mut AppContext) -> (r: Option<Page>)
        requires
            old(self).wf(),
        ensures
            final(self).wf(),
            (r, final(self)@, final(context)@) == index_step(old(self)@, old(context)@, key),
    {
        match key {
            Key::Enter => Some(Page::Main),
            Key::Char('q') => Some(Page::Exit),
            Key::Down => {
                self.down();
                None
            },
            Key::Up => {
                self.up();
                None
            },
            Key::Char(c) => {
                if self.select {
                    match digit_value(c) {
                        Some(d) => self.add_number(d),
                        None => {},
                    }
                }
                None
            },
            Key::Backspace => {
                if self.select {
                    self.delete_number();
                }
                None
            },
            Key::Right => {
                self.select = true;
                None
            },
            Key::Left => {
                self.select = false;
                self.commit(context);
                self.index = 0;
                None
            },
            _ => None,
        }
    }
}

} // verus!
