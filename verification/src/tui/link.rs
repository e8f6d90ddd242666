//! What the panel's broker link makes of each event on its event connection:
//! which terminal screen to update and with which bytes, and what to tell the
//! main loop.

use vstd::prelude::*;

use crate::ids::TerminalId;
use crate::protocol::model::{event_payload, Event, ServerEvent};
use crate::text::string_of;

verus! {

/// What the link reports to the main loop; the screens are already updated.
#[derive(Clone, Copy, Debug, PartialEq, Eq, Structural)]
pub enum LinkEvent {
    Output(TerminalId),
    Snapshot(TerminalId),
    Exited(TerminalId),
    Disconnected,
}

/// What to do to the terminal screens for one server event.
#[derive(Clone, Debug, PartialEq, Eq)]
pub enum ScreenUpdate {
    /// Size the terminal's screen (creating it at that size) and feed it `bytes`.
    Snapshot { terminal_id: TerminalId, cols: u16, rows: u16, bytes: Vec<u8> },
    /// Feed `bytes` to the terminal's screen (creating a default one).
    Output { terminal_id: TerminalId, bytes: Vec<u8> },
    /// Forget the terminal's screen.
    Exited { terminal_id: TerminalId },
    /// Nothing to do.
    Ignore,
}

/// A snapshot's text with every line feed preceded by a carriage return: a
/// plain snapshot has bare line feeds, which a terminal would draw as a staircase.
pub open spec fn crlf(text: Seq<char>) -> Seq<char>
    decreases text.len(),
{
    if text.len() == 0 {
        Seq::empty()
    } else {
        crlf(text.drop_last()) + if text.last() == '\n' {
            seq!['\r', '\n']
        } else {
            seq![text.last()]
        }
    }
}

/// After the correction every line feed directly follows a carriage return.
pub proof fn law_crlf_line_feeds_follow_carriage_returns(text: Seq<char>)
    ensures
        forall|i: int| 0 <= i < crlf(text).len() && #[trigger] crlf(text)[i] == '\n' ==> i > 0 && crlf(text)[i - 1]
            == '\r',
    decreases text.len(),
{
    if text.len() > 0 {
        let d = text.drop_last();
        law_crlf_line_feeds_follow_carriage_returns(d);
        let p = crlf(d);
        let c = crlf(text);
        assert forall|i: int| 0 <= i < c.len() && #[trigger] c[i] == '\n' implies i > 0 && c[i - 1] == '\r' by {
            if i < p.len() {
                assert(c[i] == p[i]);
                assert(c[i - 1] == p[i - 1]);
            }
        }
    }
}

/// The text with each `'\n'` replaced by `"\r\n"`, as UTF-8 bytes.
pub fn snapshot_bytes(text: &str) -> (r: Vec<u8>)
    ensures
        r@ == vstd::utf8::encode_utf8(crlf(text@)),
{
    let cs = crate::text::chars_of(text);
    let mut out: Vec<char> = Vec::new();
    let mut i: usize = 0;
    while i < cs.len()
        invariant
            i <= cs@.len(),
            cs@ == text@,
            out@ == crlf(cs@.take(i as int)),
        decreases cs@.len() - i,
    {
        let c = cs[i];
        if c == '\n' {
            out.push('\r');
            out.push('\n');
        } else {
            out.push(c);
        }
        proof {
            assert(cs@.take(i + 1).drop_last() =~= cs@.take(i as int));
        }
        i = i + 1;
        proof {
            assert(out@ =~= crlf(cs@.take(i as int)));
        }
    }
    assert(cs@.take(cs@.len() as int) =~= cs@);
    let s = string_of(&out);
    s.as_str().as_bytes_vec()
}

/// The screen update of an event: a snapshot resizes and redraws, output with a
/// valid payload is fed in, an exit forgets the screen; other events, and output
/// whose payload is refused, change nothing.
pub open spec fn update_matches(event: Event, u: ScreenUpdate) -> bool {
    match event {
        Event::Snapshot { terminal_id, cols, rows, text } => u matches ScreenUpdate::Snapshot {
            terminal_id: t,
            cols: c,
            rows: r,
            bytes,
        } && t == terminal_id && c == cols && r == rows && bytes@ == vstd::utf8::encode_utf8(
            crlf(text),
        ),
        Event::Output { terminal_id, .. } => match event_payload(event) {
            Ok(data) => u matches ScreenUpdate::Output { terminal_id: t, bytes } && t
                == terminal_id && bytes@ == data,
            Err(_) => u is Ignore,
        },
        Event::Exit { terminal_id, .. } => u == (ScreenUpdate::Exited { terminal_id }),
        _ => u is Ignore,
    }
}

/// How the screens change for `event`.
pub fn screen_update(event: &ServerEvent) -> (r: ScreenUpdate)
    ensures
        update_matches(event@, r),
{
    match event {
        ServerEvent::Snapshot { terminal_id, cols, rows, text } => ScreenUpdate::Snapshot {
            terminal_id: *terminal_id,
            cols: *cols,
            rows: *rows,
            bytes: snapshot_bytes(text.as_str()),
        },
        ServerEvent::Output { terminal_id, .. } => match event.output_data() {
            Ok(bytes) => ScreenUpdate::Output { terminal_id: *terminal_id, bytes },
            Err(_) => ScreenUpdate::Ignore,
        },
        ServerEvent::Exit { terminal_id, .. } => ScreenUpdate::Exited { terminal_id: *terminal_id },
        _ => ScreenUpdate::Ignore,
    }
}

pub open spec fn spec_link_event(u: ScreenUpdate) -> Option<LinkEvent> {
    match u {
        ScreenUpdate::Snapshot { terminal_id, .. } => Some(LinkEvent::Snapshot(terminal_id)),
        ScreenUpdate::Output { terminal_id, .. } => Some(LinkEvent::Output(terminal_id)),
        ScreenUpdate::Exited { terminal_id } => Some(LinkEvent::Exited(terminal_id)),
        ScreenUpdate::Ignore => None,
    }
}

impl ScreenUpdate {
    /// What the main loop hears of the update.
    pub fn link_event(&self) -> (r: Option<LinkEvent>)
        ensures
            r == spec_link_event(*self),
    {
        match self {
            ScreenUpdate::Snapshot { terminal_id, .. } => Some(LinkEvent::Snapshot(*terminal_id)),
            ScreenUpdate::Output { terminal_id, .. } => Some(LinkEvent::Output(*terminal_id)),
            ScreenUpdate::Exited { terminal_id } => Some(LinkEvent::Exited(*terminal_id)),
            ScreenUpdate::Ignore => None,
        }
    }
}

} // verus!
