use vstd::prelude::*;
use vstd::string::StrSliceExecFns;
use vstd::utf8::{decode_utf8, encode_utf8, valid_utf8};

use crate::input::{EditOp, Input, InputView};
use crate::keys::Key;
use crate::serial::{BridgeError, Serial};

verus! {

/// What `String::from_utf8_lossy` makes of a byte sequence.
pub uninterp spec fn lossy_decode(b: Seq<u8>) -> Seq<char>;

/// Relies on `String::from_utf8_lossy`: the text that `b` encodes, with each
/// invalid run replaced by U+FFFD; valid UTF-8 is decoded as it stands.
#[verifier::external_body]
fn decode_lossy(b: &Vec<u8>) -> (r: String)
    ensures
        r@ == lossy_decode(b@),
        valid_utf8(b@) ==> r@ == decode_utf8(b@),
        b@.len() > 0 ==> r@.len() > 0,
{
    String::from_utf8_lossy(b.as_slice()).into_owned()
}

/// `s` without the line feeds and carriage returns at its end.
pub open spec fn trim_line_end(s: Seq<char>) -> Seq<char>
    decreases s.len(),
{
    if s.len() > 0 && (s.last() == '\n' || s.last() == '\r') {
        trim_line_end(s.drop_last())
    } else {
        s
    }
}

/// Whether `c` ends a line.
fn is_line_end(c: char) -> (r: bool)
    ensures
        r == (c == '\n' || c == '\r'),
{
    c == '\n' || c == '\r'
}

/// The transcript line for a received text: the text without its line ending.
pub fn line_of(text: &str) -> (r: String)
    ensures
        r@ == trim_line_end(text@),
{
    let n = text.unicode_len();
    let mut k: usize = n;
    assert(text@.subrange(0, k as int) =~= text@);
    while k > 0 && is_line_end(text.get_char(k - 1))
        invariant
            k <= text@.len(),
            trim_line_end(text@) == trim_line_end(text@.subrange(0, k as int)),
        decreases k,
    {
        assert(text@.subrange(0, k as int).drop_last() =~= text@.subrange(0, k - 1));
        k = k - 1;
    }
    proof {
        let p = text@.subrange(0, k as int);
        if k > 0 {
            assert(p.last() == text@[k - 1]);
        }
    }
    text.substring_char(0, k).to_owned()
}

/// The transcript line for bytes received from the device.
pub fn receive_line(bytes: &Vec<u8>) -> (r: String)
    ensures
        r@ == trim_line_end(lossy_decode(bytes@)),
        valid_utf8(bytes@) ==> r@ == trim_line_end(decode_utf8(bytes@)),
{
    let text = decode_lossy(bytes);
    line_of(text.as_str())
}

/// The transcript line that tells the user a message found the link busy.
pub open spec fn busy_notice() -> Seq<char> {
    "[link busy: message kept, press Enter to retry]"@
}

/// The transcript line that tells the user a message found the link busy.
fn busy_line() -> (r: String)
    ensures
        r@ == busy_notice(),
{
    "[link busy: message kept, press Enter to retry]".to_owned()
}

/// The edit that a key makes in input mode, if any.
pub open spec fn edit_op(key: Key) -> Option<EditOp> {
    match key {
        Key::Char(c) => Some(EditOp::Insert(c)),
        Key::Backspace => Some(EditOp::Delete),
        Key::Left => Some(EditOp::Left),
        Key::Right => Some(EditOp::Right),
        _ => None,
    }
}

/// The texts of a list of lines.
pub open spec fn texts(lines: Seq<String>) -> Seq<Seq<char>> {
    lines.map_values(|l: String| l@)
}

/// The abstract state of the send/receive tab.
pub struct RxTxView {
    pub transcript: Seq<Seq<char>>,
    pub editor: InputView,
    pub hex_mode: bool,
    pub qa_mode: bool,
    pub enter_end: bool,
}

impl RxTxView {
    /// The state after a command-mode key: `h`, `a` and `n` each flip one
    /// display option; other keys change nothing.
    pub open spec fn toggled(self, key: Key) -> RxTxView {
        match key {
            Key::Char('h') => RxTxView { hex_mode: !self.hex_mode, ..self },
            Key::Char('a') => RxTxView { qa_mode: !self.qa_mode, ..self },
            Key::Char('n') => RxTxView { enter_end: !self.enter_end, ..self },
            _ => self,
        }
    }

    /// The bytes that submitting the editor's text sends.
    pub open spec fn outgoing(self) -> Seq<u8> {
        encode_utf8(self.editor.text)
    }

    /// The state after an accepted submit: the text joins the transcript and
    /// the editor is empty.
    pub open spec fn submitted(self) -> RxTxView {
        RxTxView {
            transcript: self.transcript.push(self.editor.text),
            editor: InputView { text: Seq::empty(), cursor: 0 },
            ..self
        }
    }

    /// The state after a submit that the bridge answered with `r`: accepted,
    /// the text moves to the transcript; refused as busy, the text stays and
    /// the transcript says so; refused otherwise, nothing changes.
    pub open spec fn after_submit(self, r: Result<(), BridgeError>) -> RxTxView {
        match r {
            Ok(()) => self.submitted(),
            Err(BridgeError::Busy) => RxTxView {
                transcript: self.transcript.push(busy_notice()),
                ..self
            },
            Err(_) => self,
        }
    }

    /// The state after an input-mode key other than Enter.
    pub open spec fn edited(self, key: Key) -> RxTxView {
        match edit_op(key) {
            Some(op) => RxTxView { editor: self.editor.step(op), ..self },
            None => self,
        }
    }
}

/// The send/receive tab: a transcript of exchanged lines, the editor for
/// the outgoing message, and three display options.
pub struct RxTxWidget {
    receive_buf: Vec<String>,
    input: Input,
    hex_mode: bool,
    qa_mode: bool,
    enter_end: bool,
}

impl View for RxTxWidget {
    type V = RxTxView;

    closed spec fn view(&self) -> RxTxView {
        RxTxView {
            transcript: texts(self.receive_buf@),
            editor: self.input@,
            hex_mode: self.hex_mode,
            qa_mode: self.qa_mode,
            enter_end: self.enter_end,
        }
    }
}

impl RxTxWidget {
    /// The editor's cursor is valid.
    pub open spec fn wf(&self) -> bool {
        self@.editor.cursor <= self@.editor.text.len()
    }

    /// An empty transcript and editor, every option off.
    pub fn new() -> (r: Self)
        ensures
            r.wf(),
            r@.transcript == Seq::<Seq<char>>::empty(),
            r@.editor == (InputView { text: Seq::empty(), cursor: 0 }),
            !r@.hex_mode && !r@.qa_mode && !r@.enter_end,
    {
        let r = RxTxWidget {
            receive_buf: Vec::new(),
            input: Input::new(),
            hex_mode: false,
            qa_mode: false,
            enter_end: false,
        };
        assert(r@.transcript =~= Seq::<Seq<char>>::empty());
        r
    }

    /// The transcript, oldest line first.
    pub fn transcript(&self) -> (r: &Vec<String>)
        ensures
            texts(r@) == self@.transcript,
    {
        &self.receive_buf
    }

    /// The editor.
    pub fn editor(&self) -> (r: &Input)
        ensures
            r@ == self@.editor,
    {
        &self.input
    }

    /// Whether bytes are shown in hexadecimal.
    pub fn hex_mode(&self) -> (r: bool)
        ensures
            r == self@.hex_mode,
    {
        self.hex_mode
    }

    /// Whether question/answer display is on.
    pub fn qa_mode(&self) -> (r: bool)
        ensures
            r == self@.qa_mode,
    {
        self.qa_mode
    }

    /// Whether the line-ending option is on.
    pub fn enter_end(&self) -> (r: bool)
        ensures
            r == self@.enter_end,
    {
        self.enter_end
    }

    /// Appends a line to the transcript.
    pub fn push_line(&mut self, line: String)
        requires
            old(self).wf(),
        ensures
            final(self).wf(),
            final(self)@ == (RxTxView { transcript: old(self)@.transcript.push(line@), ..old(self)@ }),
    {
        let ghost l = line@;
        self.receive_buf.push(line);
        assert(self@.transcript =~= old(self)@.transcript.push(l));
    }

    /// Handles a command-mode key meant for this tab.
    pub fn event(&mut self, key: Key)
        requires
            old(self).wf(),
        ensures
            final(self).wf(),
            final(self)@ == old(self)@.toggled(key),
    {
        match key {
            Key::Char('h') => self.hex_mode = !self.hex_mode,
            Key::Char('a') => self.qa_mode = !self.qa_mode,
            Key::Char('n') => self.enter_end = !self.enter_end,
            _ => {},
        }
    }

    /// Sends the editor's text through the bridge. If the bridge takes it,
    /// the text joins the transcript and the editor is cleared; otherwise the
    /// text stays in the editor, a busy link is noted in the transcript, and
    /// the bridge's error is returned.
    pub fn submit(&mut self, serial: &mut Serial) -> (r: Result<(), BridgeError>)
        requires
            old(self).wf(),
            old(serial)@.wf(),
        ensures
            final(self).wf(),
            final(serial)@.wf(),
            r == old(serial)@.send_result(old(self)@.outgoing()),
            final(serial)@ == old(serial)@.after_send(old(self)@.outgoing()),
            final(self)@ == old(self)@.after_submit(r),
    {
        let text = self.input.get_string();
        let bytes = text.as_str().as_bytes_vec();
        let sent = serial.send(bytes);
        match sent {
            Ok(()) => {
                let t = self.input.take();
                self.push_line(t);
                Ok(())
            },
            Err(BridgeError::Busy) => {
                self.push_line(busy_line());
                Err(BridgeError::Busy)
            },
            Err(e) => Err(e),
        }
    }

    /// Handles an input-mode key: Enter submits, the others edit.
    pub fn input(&mut self, key: Key, serial: &mut Serial) -> (r: Result<(), BridgeError>)
        requires
            old(self).wf(),
            old(serial)@.wf(),
        ensures
            final(self).wf(),
            final(serial)@.wf(),
            key == Key::Enter ==> {
                &&& r == old(serial)@.send_result(old(self)@.outgoing())
                &&& final(serial)@ == old(serial)@.after_send(old(self)@.outgoing())
                &&& final(self)@ == old(self)@.after_submit(r)
            },
            key != Key::Enter ==> r is Ok && final(serial)@ == old(serial)@ && final(self)@ == old(
                self,
            )@.edited(key),
    {
        match key {
            Key::Char(c) => {
                self.input.enter_char(c);
                Ok(())
            },
            Key::Backspace => {
                self.input.delete_char();
                Ok(())
            },
            Key::Left => {
                self.input.move_cursor_left();
                Ok(())
            },
            Key::Right => {
                self.input.move_cursor_right();
                Ok(())
            },
            Key::Enter => self.submit(serial),
            _ => Ok(()),
        }
    }
}

} // verus!
