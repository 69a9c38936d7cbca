use serial_tool::index::{
    baud_rate_at, data_bits_at, flow_at, parity_at, stop_bits_at, AppContext, DataBits,
    FlowControl, IndexPage, Menu, Parity, StopBits,
};
use serial_tool::keys::{digit_value, Key, Page};

fn ports() -> Vec<String> {
    vec!["/dev/ttyUSB0".to_string(), "/dev/ttyUSB1".to_string()]
}

#[test]
fn context_defaults() {
    let c = AppContext::new();
    assert_eq!(c.path(), "");
    assert_eq!(c.baud_rate(), 115200);
    assert_eq!(c.data_bits(), DataBits::Eight);
    assert_eq!(c.stop_bits(), StopBits::One);
    assert_eq!(c.parity(), Parity::NoParity);
    assert_eq!(c.flow_control(), FlowControl::NoFlowControl);
    assert_eq!(c.page(), Page::Index);
}

#[test]
fn menu_wraps_both_ways() {
    assert_eq!(Menu::SerialPort.previous(), Menu::FlowConntrol);
    assert_eq!(Menu::FlowConntrol.next(), Menu::SerialPort);
    assert_eq!(Menu::BaudRate.next(), Menu::DataBits);
    assert_eq!(Menu::Parity.label(), "Parity");
}

#[test]
fn option_tables() {
    assert_eq!(baud_rate_at(0), 300);
    assert_eq!(baud_rate_at(11), 115200);
    assert_eq!(baud_rate_at(19), 1500000);
    assert_eq!(data_bits_at(0), DataBits::Five);
    assert_eq!(stop_bits_at(1), StopBits::Two);
    assert_eq!(parity_at(2), Parity::Odd);
    assert_eq!(flow_at(1), FlowControl::Software);
    assert_eq!(digit_value('7'), Some(7));
    assert_eq!(digit_value('x'), None);
}

#[test]
fn init_context_takes_first_port() {
    let page = IndexPage::new(ports());
    let mut c = AppContext::new();
    page.init_context(&mut c);
    assert_eq!(c.path(), "/dev/ttyUSB0");
}

#[test]
fn pick_port_and_baud_rate() {
    let mut page = IndexPage::new(ports());
    let mut c = AppContext::new();
    assert_eq!(page.event(Key::Right, &mut c), None);
    assert_eq!(page.event(Key::Char('1'), &mut c), None);
    assert_eq!(page.event(Key::Left, &mut c), None);
    assert_eq!(c.path(), "/dev/ttyUSB1");
    assert_eq!(page.index(), 0);

    page.event(Key::Down, &mut c);
    assert_eq!(page.position(), Menu::BaudRate);
    page.event(Key::Right, &mut c);
    page.event(Key::Char('1'), &mut c);
    page.event(Key::Char('9'), &mut c);
    assert_eq!(page.index(), 19);
    page.event(Key::Char('9'), &mut c);
    assert_eq!(page.index(), 19);
    page.event(Key::Backspace, &mut c);
    assert_eq!(page.index(), 1);
    page.event(Key::Char('0'), &mut c);
    page.event(Key::Left, &mut c);
    assert_eq!(c.baud_rate(), 57600);
}

#[test]
fn out_of_range_index_keeps_setting() {
    let mut page = IndexPage::new(ports());
    let mut c = AppContext::new();
    page.event(Key::Up, &mut c);
    assert_eq!(page.position(), Menu::FlowConntrol);
    page.event(Key::Right, &mut c);
    page.event(Key::Char('5'), &mut c);
    page.event(Key::Left, &mut c);
    assert_eq!(c.flow_control(), FlowControl::NoFlowControl);
    page.event(Key::Right, &mut c);
    page.event(Key::Char('2'), &mut c);
    page.event(Key::Left, &mut c);
    assert_eq!(c.flow_control(), FlowControl::Hardware);
}

#[test]
fn digits_ignored_unless_field_open() {
    let mut page = IndexPage::new(ports());
    let mut c = AppContext::new();
    page.event(Key::Char('3'), &mut c);
    assert_eq!(page.index(), 0);
    assert!(!page.select());
}

#[test]
fn enter_and_quit_leave_page() {
    let mut page = IndexPage::new(ports());
    let mut c = AppContext::new();
    assert_eq!(page.event(Key::Enter, &mut c), Some(Page::Main));
    assert_eq!(page.event(Key::Char('q'), &mut c), Some(Page::Exit));
    c.set_page(Page::Main);
    c.open_failed();
    assert_eq!(c.page(), Page::Index);
}

#[test]
fn other_settings_commit() {
    let mut page = IndexPage::new(ports());
    let mut c = AppContext::new();
    page.event(Key::Down, &mut c);
    page.event(Key::Down, &mut c);
    page.event(Key::Right, &mut c);
    page.event(Key::Char('1'), &mut c);
    page.event(Key::Left, &mut c);
    assert_eq!(c.data_bits(), DataBits::Six);
    page.event(Key::Down, &mut c);
    page.event(Key::Right, &mut c);
    page.event(Key::Char('1'), &mut c);
    page.event(Key::Left, &mut c);
    assert_eq!(c.stop_bits(), StopBits::Two);
    page.event(Key::Down, &mut c);
    page.event(Key::Right, &mut c);
    page.event(Key::Char('1'), &mut c);
    page.event(Key::Left, &mut c);
    assert_eq!(c.parity(), Parity::Even);
    assert_eq!(page.port_list().len(), 2);
}
