//! The edit events that the editor exchanges with the other participants of
//! a board, and the buffer that gathers outgoing events into batches.

use vstd::prelude::*;
use vstd::string::*;
use crate::geometry::{Pos2, Rect};

verus! {

/// The window, in microseconds, within which outgoing events are gathered
/// into one batch.
pub const FLUSH_WINDOW_MICROS: u64 = 100;

/// Who sends an event, and on which board.
#[derive(Debug)]
pub struct RequestInfo {
    pub board: String,
    pub user: String,
}

/// The pointer of a participant has moved.
#[derive(Debug)]
pub struct MousePosition {
    pub rq: RequestInfo,
    pub position: Pos2,
}

/// A participant has placed a figure.
#[derive(Debug)]
pub struct AddFigure {
    pub rq: RequestInfo,
    pub rect: Rect,
    pub text: String,
}

/// A participant has drawn an arrow. An end that is bound names its cell by
/// the decimal digits of the identifier; a free end is the empty string.
#[derive(Debug)]
pub struct AddArrow {
    pub rq: RequestInfo,
    pub start_id: String,
    pub end_id: String,
}

/// An edit event.
#[derive(Debug)]
pub enum WsMessages {
    MousePosition(MousePosition),
    AddFigure(AddFigure),
    AddArrow(AddArrow),
}

/// What a [`RequestInfo`] is, as a mathematical value.
pub struct RequestModel {
    pub board: Seq<char>,
    pub user: Seq<char>,
}

/// What a [`WsMessages`] is, as a mathematical value.
pub enum MessageModel {
    MousePosition { rq: RequestModel, position: Pos2 },
    AddFigure { rq: RequestModel, rect: Rect, text: Seq<char> },
    AddArrow { rq: RequestModel, start_id: Seq<char>, end_id: Seq<char> },
}

impl View for RequestInfo {
    type V = RequestModel;

    open spec fn view(&self) -> RequestModel {
        RequestModel { board: self.board@, user: self.user@ }
    }
}

impl View for WsMessages {
    type V = MessageModel;

    open spec fn view(&self) -> MessageModel {
        match self {
            WsMessages::MousePosition(m) => MessageModel::MousePosition { rq: m.rq@, position: m.position },
            WsMessages::AddFigure(m) => MessageModel::AddFigure { rq: m.rq@, rect: m.rect, text: m.text@ },
            WsMessages::AddArrow(m) => MessageModel::AddArrow {
                rq: m.rq@,
                start_id: m.start_id@,
                end_id: m.end_id@,
            },
        }
    }
}

/// The models of a list of messages.
pub open spec fn message_models(messages: Seq<WsMessages>) -> Seq<MessageModel> {
    Seq::new(messages.len(), |i: int| messages[i]@)
}

impl RequestInfo {
    /// A copy of the header.
    pub fn copy(&self) -> (r: RequestInfo)
        ensures
            r@ == self@,
    {
        RequestInfo { board: self.board.clone(), user: self.user.clone() }
    }
}

/// The character of a decimal digit.
pub open spec fn digit_char(d: nat) -> char {
    if d == 0 {
        '0'
    } else if d == 1 {
        '1'
    } else if d == 2 {
        '2'
    } else if d == 3 {
        '3'
    } else if d == 4 {
        '4'
    } else if d == 5 {
        '5'
    } else if d == 6 {
        '6'
    } else if d == 7 {
        '7'
    } else if d == 8 {
        '8'
    } else {
        '9'
    }
}

/// The decimal digits of a number, without leading zeros.
pub open spec fn decimal(n: nat) -> Seq<char>
    decreases n,
{
    if n < 10 {
        seq![digit_char(n)]
    } else {
        decimal(n / 10).push(digit_char(n % 10))
    }
}

/// The value of a decimal digit, and nothing for any other character.
pub open spec fn digit_value(c: char) -> Option<nat> {
    if c == '0' {
        Some(0)
    } else if c == '1' {
        Some(1)
    } else if c == '2' {
        Some(2)
    } else if c == '3' {
        Some(3)
    } else if c == '4' {
        Some(4)
    } else if c == '5' {
        Some(5)
    } else if c == '6' {
        Some(6)
    } else if c == '7' {
        Some(7)
    } else if c == '8' {
        Some(8)
    } else if c == '9' {
        Some(9)
    } else {
        None
    }
}

/// The number that a text of decimal digits stands for, and nothing for an
/// empty text or one that holds another character.
pub open spec fn decimal_value(s: Seq<char>) -> Option<nat>
    decreases s.len(),
{
    if s.len() == 0 {
        None
    } else if s.len() == 1 {
        digit_value(s[0])
    } else {
        match (decimal_value(s.drop_last()), digit_value(s.last())) {
            (Some(value), Some(digit)) => Some(value * 10 + digit),
            _ => None,
        }
    }
}

/// The identifier that a text names: the value of its decimal digits, if it
/// is a number that an identifier can hold.
pub open spec fn named_id(s: Seq<char>) -> Option<u64> {
    match decimal_value(s) {
        Some(value) => if value <= u64::MAX {
            Some(value as u64)
        } else {
            None
        },
        None => None,
    }
}

fn digit_str(d: u64) -> (r: &'static str)
    requires
        d < 10,
    ensures
        r@ == seq![digit_char(d as nat)],
{
    proof {
        reveal_strlit("0");
        reveal_strlit("1");
        reveal_strlit("2");
        reveal_strlit("3");
        reveal_strlit("4");
        reveal_strlit("5");
        reveal_strlit("6");
        reveal_strlit("7");
        reveal_strlit("8");
        reveal_strlit("9");
    }
    let r = if d == 0 {
        "0"
    } else if d == 1 {
        "1"
    } else if d == 2 {
        "2"
    } else if d == 3 {
        "3"
    } else if d == 4 {
        "4"
    } else if d == 5 {
        "5"
    } else if d == 6 {
        "6"
    } else if d == 7 {
        "7"
    } else if d == 8 {
        "8"
    } else {
        "9"
    };
    assert(r@ =~= seq![digit_char(d as nat)]);
    r
}

fn digit_of(c: char) -> (r: Option<u64>)
    ensures
        match r {
            Some(d) => d < 10 && digit_value(c) == Some(d as nat),
            None => digit_value(c) is None,
        },
{
    if c == '0' {
        Some(0)
    } else if c == '1' {
        Some(1)
    } else if c == '2' {
        Some(2)
    } else if c == '3' {
        Some(3)
    } else if c == '4' {
        Some(4)
    } else if c == '5' {
        Some(5)
    } else if c == '6' {
        Some(6)
    } else if c == '7' {
        Some(7)
    } else if c == '8' {
        Some(8)
    } else if c == '9' {
        Some(9)
    } else {
        None
    }
}

/// The text that names an identifier: its decimal digits.
pub fn id_text(id: u64) -> (r: String)
    ensures
        r@ == decimal(id as nat),
    decreases id,
{
    if id < 10 {
        String::from_str(digit_str(id))
    } else {
        let mut text = id_text(id / 10);
        text.append(digit_str(id % 10));
        assert(text@ =~= decimal(id as nat));
        text
    }
}

/// A text of digits stands for at least what its beginning stands for.
proof fn lemma_value_grows(s: Seq<char>, n: int)
    requires
        1 <= n <= s.len(),
        decimal_value(s) is Some,
    ensures
        decimal_value(s.take(n)) is Some,
        decimal_value(s.take(n))->0 <= decimal_value(s)->0,
    decreases s.len(),
{
    if n == s.len() {
        assert(s.take(n) =~= s);
    } else {
        assert(s.drop_last().take(n) =~= s.take(n));
        lemma_value_grows(s.drop_last(), n);
    }
}

/// A text that holds a character other than a digit stands for no number.
proof fn lemma_value_needs_digits(s: Seq<char>, at: int)
    requires
        0 <= at < s.len(),
        digit_value(s[at]) is None,
    ensures
        decimal_value(s) is None,
    decreases s.len(),
{
    if s.len() > 1 && at < s.len() - 1 {
        lemma_value_needs_digits(s.drop_last(), at);
    }
}

/// The identifier that a text names.
pub fn parse_id(text: &str) -> (r: Option<u64>)
    ensures
        r == named_id(text@),
{
    let len = text.unicode_len();
    if len == 0 {
        return None;
    }
    let mut value: u64 = 0;
    let mut idx: usize = 0;
    while idx < len
        invariant
            len == text@.len(),
            idx <= len,
            idx > 0 ==> decimal_value(text@.take(idx as int)) == Some(value as nat),
            idx == 0 ==> value == 0,
        decreases len - idx,
    {
        let c = text.get_char(idx);
        let ghost head = text@.take(idx + 1);
        assert(head.drop_last() =~= text@.take(idx as int));
        assert(head.last() == c);
        match digit_of(c) {
            None => {
                proof {
                    lemma_value_needs_digits(text@, idx as int);
                }
                return None;
            },
            Some(d) => {
                if value > (u64::MAX - d) / 10 {
                    proof {
                        if decimal_value(text@) is Some {
                            lemma_value_grows(text@, idx + 1);
                        }
                    }
                    return None;
                }
                value = value * 10 + d;
            },
        }
        idx += 1;
    }
    assert(text@.take(len as int) =~= text@);
    Some(value)
}

/// The buffer of outgoing events. Events gather in a packet; the first event
/// that comes later than the window after the packet was begun sends the
/// packet off and begins the next.
#[derive(Debug)]
pub struct Outbox {
    packet_start: Option<u64>,
    packet: Vec<WsMessages>,
}

/// What an [`Outbox`] is, as a mathematical value.
pub struct OutboxModel {
    /// When the packet was begun, in microseconds, if the clock runs for it.
    pub packet_start: Option<u64>,
    /// The events gathered so far.
    pub packet: Seq<MessageModel>,
}

impl OutboxModel {
    /// Whether an event at `now` comes later than the window after the
    /// packet was begun.
    pub open spec fn overdue(self, now: u64) -> bool {
        self.packet_start matches Some(start) && now - start > FLUSH_WINDOW_MICROS
    }

    /// The buffer after an event at `now`.
    pub open spec fn buffered(self, message: MessageModel, now: u64) -> OutboxModel {
        if self.packet_start is None {
            OutboxModel { packet_start: Some(now), packet: self.packet.push(message) }
        } else if self.overdue(now) {
            OutboxModel { packet_start: None, packet: seq![message] }
        } else {
            OutboxModel { packet_start: self.packet_start, packet: self.packet.push(message) }
        }
    }

    /// The batch that an event at `now` sends off: the packet, if it is
    /// overdue and holds anything.
    pub open spec fn flushed(self, now: u64) -> Option<Seq<MessageModel>> {
        if self.overdue(now) && self.packet.len() > 0 {
            Some(self.packet)
        } else {
            None
        }
    }
}

impl View for Outbox {
    type V = OutboxModel;

    closed spec fn view(&self) -> OutboxModel {
        OutboxModel { packet_start: self.packet_start, packet: message_models(self.packet@) }
    }
}

impl Outbox {
    /// An empty buffer.
    pub fn new() -> (r: Outbox)
        ensures
            r@ == (OutboxModel { packet_start: None, packet: Seq::empty() }),
    {
        let r = Outbox { packet_start: None, packet: Vec::new() };
        assert(r@.packet =~= Seq::empty());
        r
    }

    /// The number of events that wait in the packet.
    pub fn len(&self) -> (r: usize)
        ensures
            r == self@.packet.len(),
    {
        self.packet.len()
    }

    /// Takes an outgoing event at the time `now`, in microseconds. Returns
    /// the batch to send, if the event sends one off.
    pub fn send_buffered(&mut self, message: WsMessages, now: u64) -> (r: Option<Vec<WsMessages>>)
        ensures
            final(self)@ == old(self)@.buffered(message@, now),
            match r {
                Some(batch) => old(self)@.flushed(now) == Some(message_models(batch@)),
                None => old(self)@.flushed(now) is None,
            },
    {
        let overdue = match self.packet_start {
            Some(start) => now > start && now - start > FLUSH_WINDOW_MICROS,
            None => false,
        };
        if self.packet_start.is_none() {
            self.packet.push(message);
            self.packet_start = Some(now);
            assert(self@.packet =~= old(self)@.packet.push(message@));
            None
        } else if overdue {
            let mut batch: Vec<WsMessages> = Vec::new();
            std::mem::swap(&mut batch, &mut self.packet);
            self.packet.push(message);
            self.packet_start = None;
            assert(self@.packet =~= seq![message@]);
            if batch.len() > 0 {
                Some(batch)
            } else {
                None
            }
        } else {
            self.packet.push(message);
            assert(self@.packet =~= old(self)@.packet.push(message@));
            None
        }
    }

    /// Hands out whatever waits in the packet, and stops the clock.
    pub fn flush(&mut self) -> (r: Vec<WsMessages>)
        ensures
            final(self)@ == (OutboxModel { packet_start: None, packet: Seq::empty() }),
            message_models(r@) == old(self)@.packet,
    {
        let mut batch: Vec<WsMessages> = Vec::new();
        std::mem::swap(&mut batch, &mut self.packet);
        self.packet_start = None;
        assert(self@.packet =~= Seq::empty());
        batch
    }
}

} // verus!
