use serial_tool::keys::{Key, Mode, Page};
use serial_tool::layout::{MainLayout, SelectedTab};
use serial_tool::rxtx::{line_of, receive_line, RxTxWidget};
use serial_tool::serial::{self, BridgeError, LinkState, ReadOutcome, WriteOutcome};

#[test]
fn next_tab_cycles_through_all() {
    let mut t = SelectedTab::TxRx;
    let mut seen = Vec::new();
    for _ in 0..5 {
        t = t.next();
        seen.push(t);
    }
    assert_eq!(
        seen,
        vec![
            SelectedTab::Command,
            SelectedTab::Stream,
            SelectedTab::Ymodem,
            SelectedTab::Chart,
            SelectedTab::TxRx
        ]
    );
    assert_eq!(SelectedTab::TxRx.previous(), SelectedTab::Chart);
    let mut p = SelectedTab::TxRx;
    for _ in 0..5 {
        p = p.previous();
    }
    assert_eq!(p, SelectedTab::TxRx);
}

#[test]
fn tab_index_and_labels() {
    assert_eq!(SelectedTab::Ymodem.index(), 3);
    assert_eq!(SelectedTab::from_repr(4), Some(SelectedTab::Chart));
    assert_eq!(SelectedTab::from_repr(5), None);
    assert_eq!(SelectedTab::Command.label(), "List(l)");
}

#[test]
fn end_to_end_receive_and_send() {
    let mut bridge = serial::new(64);
    let mut session = MainLayout::new();
    let mut device_log: Vec<Vec<u8>> = Vec::new();

    // The device's first read gives "hi\n".
    assert!(bridge.on_read(ReadOutcome::Data(b"hi\n".to_vec())).is_none());
    assert_eq!(session.read(&mut bridge), None);
    assert_eq!(session.widget().transcript(), &vec!["hi".to_string()]);
    assert_eq!(session.receive_count(), 1);

    assert_eq!(session.event(Key::Char('i'), &mut bridge), None);
    assert_eq!(session.mode(), Mode::Input);
    assert_eq!(session.event(Key::Char('o'), &mut bridge), None);
    assert_eq!(session.event(Key::Char('k'), &mut bridge), None);
    assert_eq!(session.event(Key::Enter, &mut bridge), None);

    while let Some(m) = bridge.next_write() {
        let n = m.len();
        device_log.push(m);
        bridge.on_write(WriteOutcome::Written(n));
    }
    assert_eq!(device_log, vec![b"ok".to_vec()]);
    assert_eq!(
        session.widget().transcript(),
        &vec!["hi".to_string(), "ok".to_string()]
    );
    assert_eq!(session.widget().editor().get_string(), "");
    assert_eq!(session.widget().editor().get_index(), 0);
    assert_eq!(session.send_count(), 1);
}

#[test]
fn command_keys_switch_tabs_and_toggle() {
    let mut bridge = serial::new(4);
    let mut session = MainLayout::new();
    assert_eq!(session.event(Key::Char('y'), &mut bridge), None);
    assert_eq!(session.selected_tab(), SelectedTab::Ymodem);
    assert_eq!(session.event(Key::Right, &mut bridge), None);
    assert_eq!(session.selected_tab(), SelectedTab::Chart);
    assert_eq!(session.event(Key::Right, &mut bridge), None);
    assert_eq!(session.selected_tab(), SelectedTab::TxRx);
    assert_eq!(session.event(Key::Left, &mut bridge), None);
    assert_eq!(session.selected_tab(), SelectedTab::Chart);
    assert_eq!(session.event(Key::Char('t'), &mut bridge), None);
    assert_eq!(session.event(Key::Char('h'), &mut bridge), None);
    assert!(session.widget().hex_mode());
    assert_eq!(session.event(Key::Char('a'), &mut bridge), None);
    assert!(session.widget().qa_mode());
    assert_eq!(session.event(Key::Char('n'), &mut bridge), None);
    assert!(session.widget().enter_end());
    assert_eq!(session.event(Key::Char('h'), &mut bridge), None);
    assert!(!session.widget().hex_mode());
}

#[test]
fn escape_keeps_draft_and_exit_keys_close() {
    let mut bridge = serial::new(4);
    let mut session = MainLayout::new();
    session.event(Key::Char('i'), &mut bridge);
    session.event(Key::Char('x'), &mut bridge);
    assert_eq!(session.event(Key::Esc, &mut bridge), None);
    assert_eq!(session.mode(), Mode::Command);
    assert_eq!(session.widget().editor().get_string(), "x");
    assert_eq!(session.event(Key::Char('q'), &mut bridge), Some(Page::Exit));
    assert_eq!(bridge.state(), LinkState::Closed);

    let mut bridge2 = serial::new(4);
    let mut session2 = MainLayout::new();
    assert_eq!(session2.event(Key::Esc, &mut bridge2), Some(Page::Index));
    assert!(!bridge2.is_running());
}

#[test]
fn busy_link_keeps_message() {
    let mut bridge = serial::new(1);
    assert_eq!(bridge.send(vec![0]), Ok(()));
    let mut session = MainLayout::new();
    session.event(Key::Char('i'), &mut bridge);
    session.event(Key::Char('z'), &mut bridge);
    assert_eq!(session.event(Key::Enter, &mut bridge), None);
    assert_eq!(session.widget().editor().get_string(), "z");
    assert_eq!(session.send_count(), 0);
    assert_eq!(
        session.widget().transcript(),
        &vec!["[link busy: message kept, press Enter to retry]".to_string()]
    );
    assert_eq!(bridge.outbound_len(), 1);
}

#[test]
fn lost_link_returns_to_port_selection() {
    let mut bridge = serial::new(4);
    let mut session = MainLayout::new();
    bridge.on_read(ReadOutcome::Failed);
    assert_eq!(session.read(&mut bridge), Some(Page::Index));

    let mut bridge2 = serial::new(4);
    bridge2.fail();
    let mut session2 = MainLayout::new();
    session2.event(Key::Char('i'), &mut bridge2);
    session2.event(Key::Char('a'), &mut bridge2);
    assert_eq!(session2.event(Key::Enter, &mut bridge2), Some(Page::Index));
}

#[test]
fn empty_poll_changes_nothing() {
    let mut bridge = serial::new(4);
    let mut session = MainLayout::new();
    assert_eq!(session.read(&mut bridge), None);
    assert_eq!(session.receive_count(), 0);
    assert!(session.widget().transcript().is_empty());
}

#[test]
fn received_line_endings_are_trimmed() {
    assert_eq!(line_of("abc\r\n"), "abc");
    assert_eq!(line_of("\n\n"), "");
    assert_eq!(line_of("a\nb"), "a\nb");
    assert_eq!(receive_line(&b"ok\r\n".to_vec()), "ok");
}

#[test]
fn invalid_utf8_is_replaced() {
    assert_eq!(receive_line(&vec![b'a', 0xff, b'b']), "a\u{fffd}b");
    assert_eq!(receive_line(&"中\n".as_bytes().to_vec()), "中");
}

#[test]
fn widget_submit_sends_utf8_bytes() {
    let mut bridge = serial::new(4);
    let mut widget = RxTxWidget::new();
    widget.input(Key::Char('é'), &mut bridge).unwrap();
    assert_eq!(widget.submit(&mut bridge), Ok(()));
    assert_eq!(bridge.next_write(), Some("é".as_bytes().to_vec()));
    bridge.close();
    widget.input(Key::Char('x'), &mut bridge).unwrap();
    assert_eq!(widget.submit(&mut bridge), Err(BridgeError::Closed));
}

#[test]
fn default_session_starts_in_command_mode() {
    let session = MainLayout::default();
    assert_eq!(session.mode(), Mode::Command);
    assert_eq!(session.selected_tab(), SelectedTab::TxRx);
    assert_eq!(session.send_count(), 0);
    assert_eq!(session.receive_count(), 0);
    assert!(!session.widget().hex_mode());
    assert!(!session.widget().qa_mode());
    assert!(!session.widget().enter_end());
}
