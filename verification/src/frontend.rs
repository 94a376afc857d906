//! Decision logic of the line-oriented front end: packet parsing for the
//! newline-delimited socket protocol, escaped-newline decoding, and the
//! dispatch step that turns one parsed command plus the session state into
//! panel work, the next state and a response. The surrounding I/O — reading
//! lines, writing responses, running the panel — stays outside the library.
//!
//! The protocol is ASCII: the command head ends at the first ASCII
//! whitespace byte and is matched case-insensitively.

use vstd::prelude::*;

verus! {

/// ASCII whitespace: space, tab, line feed, carriage return.
pub open spec fn is_ws(b: u8) -> bool {
    b == 0x20 || b == 0x09 || b == 0x0A || b == 0x0D
}

/// ASCII upper-casing of one byte; other bytes unchanged.
pub open spec fn ascii_upper(b: u8) -> u8 {
    if 0x61 <= b && b <= 0x7A {
        (b - 0x20) as u8
    } else {
        b
    }
}

pub open spec fn upper_seq(s: Seq<u8>) -> Seq<u8> {
    s.map_values(|b: u8| ascii_upper(b))
}

/// Length of the command head: everything before the first ASCII
/// whitespace byte, or the whole packet when none occurs.
pub open spec fn head_len(s: Seq<u8>) -> int
    decreases s.len(),
{
    if s.len() == 0 {
        0
    } else if is_ws(s[0]) {
        0
    } else {
        1 + head_len(s.skip(1))
    }
}

pub open spec fn spec_head(s: Seq<u8>) -> Seq<u8> {
    s.take(head_len(s))
}

/// The bytes after the first whitespace byte, when there is one.
pub open spec fn spec_rest(s: Seq<u8>) -> Option<Seq<u8>> {
    if head_len(s) < s.len() {
        Some(s.skip(head_len(s) + 1))
    } else {
        None
    }
}

/// The head length is the unique cut obeying the first-whitespace rule.
proof fn lemma_head_len_char(s: Seq<u8>, w: int)
    requires
        0 <= w <= s.len(),
        forall|j: int| 0 <= j < w ==> !is_ws(s[j]),
        w < s.len() ==> is_ws(s[w]),
    ensures
        head_len(s) == w,
    decreases s.len(),
{
    if s.len() == 0 {
    } else if w == 0 {
    } else {
        assert(!is_ws(s[0]));
        lemma_head_len_char(s.skip(1), w - 1);
    }
}

/// "CLEAR"
pub open spec fn kw_clear() -> Seq<u8> {
    seq![0x43u8, 0x4Cu8, 0x45u8, 0x41u8, 0x52u8]
}

/// "PARTIAL_ON"
pub open spec fn kw_partial_on() -> Seq<u8> {
    seq![0x50u8, 0x41u8, 0x52u8, 0x54u8, 0x49u8, 0x41u8, 0x4Cu8, 0x5Fu8, 0x4Fu8, 0x4Eu8]
}

/// "PARTIAL_OFF"
pub open spec fn kw_partial_off() -> Seq<u8> {
    seq![0x50u8, 0x41u8, 0x52u8, 0x54u8, 0x49u8, 0x41u8, 0x4Cu8, 0x5Fu8, 0x4Fu8, 0x46u8, 0x46u8]
}

/// "PING"
pub open spec fn kw_ping() -> Seq<u8> {
    seq![0x50u8, 0x49u8, 0x4Eu8, 0x47u8]
}

/// "TEXT"
pub open spec fn kw_text() -> Seq<u8> {
    seq![0x54u8, 0x45u8, 0x58u8, 0x54u8]
}

/// Command named by one packet: the upper-cased head selects it; any
/// unrecognized head means the whole packet is text to display.
#[derive(Debug, Clone, Copy, PartialEq, Eq, Structural)]
pub enum PacketCommand {
    Text,
    Clear,
    PartialOn,
    PartialOff,
    Ping,
}

pub open spec fn command_of(s: Seq<u8>) -> PacketCommand {
    let h = upper_seq(spec_head(s));
    if h == kw_clear() {
        PacketCommand::Clear
    } else if h == kw_partial_on() {
        PacketCommand::PartialOn
    } else if h == kw_partial_off() {
        PacketCommand::PartialOff
    } else if h == kw_ping() {
        PacketCommand::Ping
    } else {
        PacketCommand::Text
    }
}

/// Payload carried by one packet: a recognized "TEXT" head passes what
/// follows the separator, an unrecognized head passes the whole packet,
/// the other commands carry none.
pub open spec fn payload_of(s: Seq<u8>) -> Option<Seq<u8>> {
    let h = upper_seq(spec_head(s));
    if h == kw_clear() || h == kw_partial_on() || h == kw_partial_off() || h == kw_ping() {
        None
    } else if h == kw_text() {
        spec_rest(s)
    } else {
        Some(s)
    }
}

/// Whether the byte at `i` is ASCII whitespace.
fn ws_at(s: &[u8], i: usize) -> (r: bool)
    requires
        i < s@.len(),
    ensures
        r == is_ws(s@[i as int]),
{
    let b = *vstd::slice::slice_index_get(s, i);
    b == 0x20 || b == 0x09 || b == 0x0A || b == 0x0D
}

/// Copy `s[from..to]` into a fresh vector.
#[verifier::loop_isolation(false)]
fn copy_range(s: &[u8], from: usize, to: usize) -> (v: Vec<u8>)
    requires
        from <= to <= s@.len(),
    ensures
        v@ == s@.subrange(from as int, to as int),
{
    let mut v: Vec<u8> = Vec::new();
    let mut i: usize = from;
    while i < to
        invariant
            from <= i <= to,
            v@ == s@.subrange(from as int, i as int),
        decreases to - i,
    {
        v.push(*vstd::slice::slice_index_get(s, i));
        i = i + 1;
        proof {
            assert(v@ =~= s@.subrange(from as int, i as int));
        }
    }
    v
}

/// Split one packet into its command and payload.
#[verifier::loop_isolation(false)]
pub fn parse_packet(input: &[u8]) -> (r: (PacketCommand, Option<Vec<u8>>))
    ensures
        r.0 == command_of(input@),
        match (r.1, payload_of(input@)) {
            (Some(v), Some(p)) => v@ == p,
            (None, None) => true,
            _ => false,
        },
{
    let n = input.len();
    let mut w: usize = 0;
    while w < n && !ws_at(input, w)
        invariant
            w <= n,
            forall|j: int| 0 <= j < w ==> !is_ws(input@[j]),
        decreases n - w,
    {
        w = w + 1;
    }
    proof {
        lemma_head_len_char(input@, w as int);
    }
    let mut head: Vec<u8> = Vec::new();
    let mut i: usize = 0;
    while i < w
        invariant
            i <= w,
            head@ == upper_seq(input@.subrange(0, i as int)),
        decreases w - i,
    {
        let b = *vstd::slice::slice_index_get(input, i);
        let up: u8 = if 0x61 <= b && b <= 0x7A {
            b - 0x20
        } else {
            b
        };
        head.push(up);
        i = i + 1;
        proof {
            assert(head@ =~= upper_seq(input@.subrange(0, i as int)));
        }
    }
    proof {
        assert(input@.subrange(0, w as int) =~= spec_head(input@));
    }
    let ghost h = upper_seq(spec_head(input@));
    let is_clear = head.len() == 5 && head[0] == 0x43 && head[1] == 0x4C && head[2] == 0x45
        && head[3] == 0x41 && head[4] == 0x52;
    proof {
        if is_clear {
            assert(h =~= kw_clear());
        }
    }
    if is_clear {
        return (PacketCommand::Clear, None);
    }
    let is_partial_on = head.len() == 10 && head[0] == 0x50 && head[1] == 0x41 && head[2] == 0x52
        && head[3] == 0x54 && head[4] == 0x49 && head[5] == 0x41 && head[6] == 0x4C && head[7]
        == 0x5F && head[8] == 0x4F && head[9] == 0x4E;
    proof {
        if is_partial_on {
            assert(h =~= kw_partial_on());
        }
    }
    if is_partial_on {
        return (PacketCommand::PartialOn, None);
    }
    let is_partial_off = head.len() == 11 && head[0] == 0x50 && head[1] == 0x41 && head[2] == 0x52
        && head[3] == 0x54 && head[4] == 0x49 && head[5] == 0x41 && head[6] == 0x4C && head[7]
        == 0x5F && head[8] == 0x4F && head[9] == 0x46 && head[10] == 0x46;
    proof {
        if is_partial_off {
            assert(h =~= kw_partial_off());
        }
    }
    if is_partial_off {
        return (PacketCommand::PartialOff, None);
    }
    let is_ping = head.len() == 4 && head[0] == 0x50 && head[1] == 0x49 && head[2] == 0x4E
        && head[3] == 0x47;
    proof {
        if is_ping {
            assert(h =~= kw_ping());
        }
    }
    if is_ping {
        return (PacketCommand::Ping, None);
    }
    let is_text = head.len() == 4 && head[0] == 0x54 && head[1] == 0x45 && head[2] == 0x58
        && head[3] == 0x54;
    proof {
        if is_text {
            assert(h =~= kw_text());
        }
    }
    if is_text {
        if w < n {
            let payload = copy_range(input, w + 1, n);
            proof {
                assert(payload@ =~= input@.skip(w as int + 1));
            }
            return (PacketCommand::Text, Some(payload));
        }
        return (PacketCommand::Text, None);
    }
    let whole = copy_range(input, 0, n);
    proof {
        assert(whole@ =~= input@);
    }
    (PacketCommand::Text, Some(whole))
}

/// Decoding of the two-byte escape `\n` into a line feed, scanning left to
/// right without overlap; every other byte passes through.
pub open spec fn decode_newlines_spec(s: Seq<u8>) -> Seq<u8>
    decreases s.len(),
{
    if s.len() == 0 {
        Seq::empty()
    } else if s.len() >= 2 && s[0] == 0x5C && s[1] == 0x6E {
        seq![0x0Au8] + decode_newlines_spec(s.skip(2))
    } else {
        seq![s[0]] + decode_newlines_spec(s.skip(1))
    }
}

/// Replace each escaped newline `\n` with a real line feed.
#[verifier::loop_isolation(false)]
pub fn decode_newlines(input: &[u8]) -> (out: Vec<u8>)
    ensures
        out@ == decode_newlines_spec(input@),
{
    let n = input.len();
    let mut out: Vec<u8> = Vec::new();
    let mut i: usize = 0;
    proof {
        assert(input@.skip(0) =~= input@);
        assert(Seq::<u8>::empty() + decode_newlines_spec(input@) =~= decode_newlines_spec(input@));
    }
    while i < n
        invariant
            i <= n,
            decode_newlines_spec(input@) == out@ + decode_newlines_spec(input@.skip(i as int)),
        decreases n - i,
    {
        let b = *vstd::slice::slice_index_get(input, i);
        let ghost rest = input@.skip(i as int);
        let ghost out_old = out@;
        if i + 1 < n && b == 0x5C && *vstd::slice::slice_index_get(input, i + 1) == 0x6E {
            out.push(0x0A);
            proof {
                let d = decode_newlines_spec(input@.skip(i as int + 2));
                assert(rest[0] == input@[i as int] && rest[1] == input@[i as int + 1]);
                assert(rest.skip(2) =~= input@.skip(i as int + 2));
                assert(decode_newlines_spec(rest) == seq![0x0Au8] + d);
                assert(out@ =~= out_old + seq![0x0Au8]);
                assert(out_old + (seq![0x0Au8] + d) =~= (out_old + seq![0x0Au8]) + d);
            }
            i = i + 2;
        } else {
            out.push(b);
            proof {
                let d = decode_newlines_spec(input@.skip(i as int + 1));
                assert(rest[0] == input@[i as int]);
                assert(rest.skip(1) =~= input@.skip(i as int + 1));
                assert(decode_newlines_spec(rest) == seq![b] + d);
                assert(out@ =~= out_old + seq![b]);
                assert(out_old + (seq![b] + d) =~= (out_old + seq![b]) + d);
            }
            i = i + 1;
        }
    }
    proof {
        assert(input@.skip(n as int) =~= Seq::<u8>::empty());
        assert(out@ + Seq::<u8>::empty() =~= out@);
    }
    out
}

/// Whether the text is blank: empty, or ASCII whitespace only.
#[verifier::loop_isolation(false)]
pub fn is_blank(text: &[u8]) -> (r: bool)
    ensures
        r <==> (forall|j: int| 0 <= j < text@.len() ==> is_ws(text@[j])),
{
    let n = text.len();
    let mut i: usize = 0;
    while i < n
        invariant
            i <= n,
            forall|j: int| 0 <= j < i ==> is_ws(text@[j]),
        decreases n - i,
    {
        let b = *vstd::slice::slice_index_get(text, i);
        if !(b == 0x20 || b == 0x09 || b == 0x0A || b == 0x0D) {
            return false;
        }
        i = i + 1;
    }
    true
}

/// "/clear"
pub open spec fn kw_slash_clear() -> Seq<u8> {
    seq![0x2Fu8, 0x63u8, 0x6Cu8, 0x65u8, 0x61u8, 0x72u8]
}

/// "/partial"
pub open spec fn kw_slash_partial() -> Seq<u8> {
    seq![0x2Fu8, 0x70u8, 0x61u8, 0x72u8, 0x74u8, 0x69u8, 0x61u8, 0x6Cu8]
}

/// "/nopartial"
pub open spec fn kw_slash_nopartial() -> Seq<u8> {
    seq![0x2Fu8, 0x6Eu8, 0x6Fu8, 0x70u8, 0x61u8, 0x72u8, 0x74u8, 0x69u8, 0x61u8, 0x6Cu8]
}

/// What one interactive line asks for. Slash lines are commands, matched
/// exactly and case-sensitively; a blank line is skipped; anything else is
/// text to display.
#[derive(Debug, Clone, Copy, PartialEq, Eq, Structural)]
pub enum ReplCommand {
    Clear,
    PartialOn,
    PartialOff,
    Unknown,
    Blank,
    Text,
}

pub open spec fn repl_command_of(s: Seq<u8>) -> ReplCommand {
    if s.len() > 0 && s[0] == 0x2F {
        if s == kw_slash_clear() {
            ReplCommand::Clear
        } else if s == kw_slash_partial() {
            ReplCommand::PartialOn
        } else if s == kw_slash_nopartial() {
            ReplCommand::PartialOff
        } else {
            ReplCommand::Unknown
        }
    } else if forall|j: int| 0 <= j < s.len() ==> is_ws(s[j]) {
        ReplCommand::Blank
    } else {
        ReplCommand::Text
    }
}

/// Classify one line read from the interactive prompt.
pub fn parse_repl_line(line: &[u8]) -> (r: ReplCommand)
    ensures
        r == repl_command_of(line@),
{
    let n = line.len();
    if n > 0 && *vstd::slice::slice_index_get(line, 0) == 0x2F {
        let is_clear = n == 6 && *vstd::slice::slice_index_get(line, 1) == 0x63
            && *vstd::slice::slice_index_get(line, 2) == 0x6C && *vstd::slice::slice_index_get(
            line,
            3,
        ) == 0x65 && *vstd::slice::slice_index_get(line, 4) == 0x61 && *vstd::slice::slice_index_get(
            line,
            5,
        ) == 0x72;
        proof {
            if is_clear {
                assert(line@ =~= kw_slash_clear());
            }
        }
        if is_clear {
            return ReplCommand::Clear;
        }
        let is_partial = n == 8 && *vstd::slice::slice_index_get(line, 1) == 0x70
            && *vstd::slice::slice_index_get(line, 2) == 0x61 && *vstd::slice::slice_index_get(
            line,
            3,
        ) == 0x72 && *vstd::slice::slice_index_get(line, 4) == 0x74 && *vstd::slice::slice_index_get(
            line,
            5,
        ) == 0x69 && *vstd::slice::slice_index_get(line, 6) == 0x61
            && *vstd::slice::slice_index_get(line, 7) == 0x6C;
        proof {
            if is_partial {
                assert(line@ =~= kw_slash_partial());
            }
        }
        if is_partial {
            return ReplCommand::PartialOn;
        }
        let is_nopartial = n == 10 && *vstd::slice::slice_index_get(line, 1) == 0x6E
            && *vstd::slice::slice_index_get(line, 2) == 0x6F && *vstd::slice::slice_index_get(
            line,
            3,
        ) == 0x70 && *vstd::slice::slice_index_get(line, 4) == 0x61 && *vstd::slice::slice_index_get(
            line,
            5,
        ) == 0x72 && *vstd::slice::slice_index_get(line, 6) == 0x74 && *vstd::slice::slice_index_get(
            line,
            7,
        ) == 0x69 && *vstd::slice::slice_index_get(line, 8) == 0x61
            && *vstd::slice::slice_index_get(line, 9) == 0x6C;
        proof {
            if is_nopartial {
                assert(line@ =~= kw_slash_nopartial());
            }
        }
        if is_nopartial {
            return ReplCommand::PartialOff;
        }
        ReplCommand::Unknown
    } else if is_blank(line) {
        ReplCommand::Blank
    } else {
        ReplCommand::Text
    }
}

/// Panel work one dispatch step asks for.
#[derive(Debug, Clone, Copy, PartialEq, Eq, Structural)]
pub enum PanelAction {
    /// Clear to the background color, Normal refresh.
    ClearPanel,
    /// Write a blank background frame into both frame RAMs.
    WriteBlankBase,
    /// Show the decoded text with a partial refresh.
    ShowTextPartial,
    /// Show the decoded text with a fast refresh.
    ShowTextFast,
    /// Show the decoded text with a full refresh.
    ShowTextFull,
    /// No panel work.
    Nothing,
}

/// Reply sent back over the socket after one dispatch step.
#[derive(Debug, Clone, Copy, PartialEq, Eq, Structural)]
pub enum Response {
    OkClear,
    OkPartialOn,
    OkPartialOff,
    Pong,
    IgnoredEmpty,
    OkText,
}

/// One dispatch step of a front-end session.
pub open spec fn session_step_spec(
    partial: bool,
    fast: bool,
    cmd: PacketCommand,
    text_blank: bool,
) -> (PanelAction, bool, Response) {
    match cmd {
        PacketCommand::Clear => (PanelAction::ClearPanel, partial, Response::OkClear),
        PacketCommand::PartialOn => (PanelAction::WriteBlankBase, true, Response::OkPartialOn),
        PacketCommand::PartialOff => (PanelAction::Nothing, false, Response::OkPartialOff),
        PacketCommand::Ping => (PanelAction::Nothing, partial, Response::Pong),
        PacketCommand::Text => if text_blank {
            (PanelAction::Nothing, partial, Response::IgnoredEmpty)
        } else if partial {
            (PanelAction::ShowTextPartial, partial, Response::OkText)
        } else if fast {
            (PanelAction::ShowTextFast, partial, Response::OkText)
        } else {
            (PanelAction::ShowTextFull, partial, Response::OkText)
        },
    }
}

/// Decide what one parsed command does: the panel work to perform, the
/// partial-update flag the session carries forward, and the response to
/// send. Enabling partial updates seeds a blank base frame first, as
/// artifact-free partial refreshes require.
pub fn session_step(partial: bool, fast: bool, cmd: PacketCommand, text_blank: bool) -> (r: (
    PanelAction,
    bool,
    Response,
))
    ensures
        r == session_step_spec(partial, fast, cmd, text_blank),
{
    match cmd {
        PacketCommand::Clear => (PanelAction::ClearPanel, partial, Response::OkClear),
        PacketCommand::PartialOn => (PanelAction::WriteBlankBase, true, Response::OkPartialOn),
        PacketCommand::PartialOff => (PanelAction::Nothing, false, Response::OkPartialOff),
        PacketCommand::Ping => (PanelAction::Nothing, partial, Response::Pong),
        PacketCommand::Text => if text_blank {
            (PanelAction::Nothing, partial, Response::IgnoredEmpty)
        } else if partial {
            (PanelAction::ShowTextPartial, partial, Response::OkText)
        } else if fast {
            (PanelAction::ShowTextFast, partial, Response::OkText)
        } else {
            (PanelAction::ShowTextFull, partial, Response::OkText)
        },
    }
}

} // verus!
