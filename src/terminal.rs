//! The messages of an interactive terminal session and the bookkeeping of a
//! one-shot command run on it.
use vstd::prelude::*;

use crate::codec::{decimal, decimal_string};
use crate::text::{ends_with_char, str_eq};

verus! {

/// The JSON string literal of a text: quoted and escaped.
pub uninterp spec fn json_quoted(s: Seq<char>) -> Seq<char>;

/// Relies on serde_json's `Value::from(&str)` and its `Display`, which
/// writes the compact JSON form of a string; it depends on the text alone.
#[verifier::external_body]
fn json_string(s: &str) -> (r: String)
    ensures
        r@ == json_quoted(s@),
{
    serde_json::Value::from(s).to_string()
}

/// What the client sends to a terminal.
#[derive(Debug, Clone, PartialEq, Eq)]
pub enum InputMessage {
    /// Keystrokes for the shell.
    Stdin(String),
    /// The window's new size.
    Resize { cols: u16, rows: u16 },
}

/// The width and height in pixels sent with every resize.
pub const PIXEL_WIDTH: u64 = 800;
pub const PIXEL_HEIGHT: u64 = 600;

/// The frame of an input message: `["stdin",<text>]` or
/// `["set_size",<cols>,<rows>,800,600]`.
pub open spec fn input_frame(m: InputMessage) -> Seq<char> {
    match m {
        InputMessage::Stdin(d) => "[\"stdin\","@ + json_quoted(d@) + "]"@,
        InputMessage::Resize { cols, rows } => "[\"set_size\","@ + decimal(cols as nat) + ","@
            + decimal(rows as nat) + ","@ + decimal(PIXEL_WIDTH as nat) + ","@ + decimal(
            PIXEL_HEIGHT as nat,
        ) + "]"@,
    }
}

impl InputMessage {
    /// The JSON text that carries the message over the socket.
    pub fn to_json(&self) -> (r: String)
        ensures
            r@ == input_frame(*self),
    {
        match self {
            InputMessage::Stdin(d) => {
                let mut r = String::from_str("[\"stdin\",");
                r.append(json_string(d.as_str()).as_str());
                r.append("]");
                r
            },
            InputMessage::Resize { cols, rows } => {
                let mut r = String::from_str("[\"set_size\",");
                r.append(decimal_string(*cols as u64).as_str());
                r.append(",");
                r.append(decimal_string(*rows as u64).as_str());
                r.append(",");
                r.append(decimal_string(PIXEL_WIDTH).as_str());
                r.append(",");
                r.append(decimal_string(PIXEL_HEIGHT).as_str());
                r.append("]");
                r
            },
        }
    }
}

/// What a terminal sends to the client.
#[derive(Debug, Clone, PartialEq, Eq)]
pub enum OutputMessage {
    /// The session is set up.
    Init {},
    /// Output of the shell.
    Stdout(String),
    /// The shell exited with this code.
    Disconnect(i32),
}

impl OutputMessage {
    /// Reads a message from the fields of its frame `[<tag>, <value>]`: the
    /// tag, the value when it is a string, and the value when it is an
    /// integer. `None` for an unknown tag. A missing text is empty and a
    /// missing code is 0.
    pub fn from_parts(tag: Option<&str>, text: Option<&str>, code: Option<i64>) -> (r: Option<OutputMessage>)
        ensures
            match tag {
                Some(t) => if t@ == "stdout"@ {
                    r matches Some(OutputMessage::Stdout(d)) && d@ == match text {
                        Some(x) => x@,
                        None => Seq::<char>::empty(),
                    }
                } else if t@ == "setup"@ {
                    r == Some(OutputMessage::Init {})
                } else if t@ == "disconnect"@ {
                    r == Some(
                        OutputMessage::Disconnect(
                            match code {
                                Some(c) => c as i32,
                                None => 0i32,
                            },
                        ),
                    )
                } else {
                    r is None
                },
                None => r is None,
            },
    {
        let t = match tag {
            Some(t) => t,
            None => return None,
        };
        if str_eq(t, "stdout") {
            let d = match text {
                Some(x) => String::from_str(x),
                None => String::new(),
            };
            Some(OutputMessage::Stdout(d))
        } else if str_eq(t, "setup") {
            Some(OutputMessage::Init {})
        } else if str_eq(t, "disconnect") {
            let c: i32 = match code {
                Some(c) => #[verifier::truncate] (c as i32),
                None => 0,
            };
            Some(OutputMessage::Disconnect(c))
        } else {
            None
        }
    }
}

/// The outcome of a one-shot command: what the shell printed, and its exit
/// code once it disconnected.
#[derive(Debug, Clone, PartialEq, Eq)]
pub struct TerminalCallResult {
    pub stdout: String,
    pub disconnect_code: Option<i32>,
}

impl TerminalCallResult {
    /// Nothing printed yet.
    pub fn new() -> (r: TerminalCallResult)
        ensures
            r.stdout@.len() == 0,
            r.disconnect_code is None,
    {
        TerminalCallResult { stdout: String::new(), disconnect_code: None }
    }

    /// Takes in one message of the session; true once the shell has
    /// disconnected and the call is over.
    pub fn record(&mut self, msg: OutputMessage) -> (done: bool)
        ensures
            match msg {
                OutputMessage::Init {} => !done && *final(self) == *old(self),
                OutputMessage::Stdout(d) => !done && final(self).stdout@ == old(self).stdout@ + d@
                    && final(self).disconnect_code == old(self).disconnect_code,
                OutputMessage::Disconnect(c) => done && final(self).stdout == old(self).stdout
                    && final(self).disconnect_code == Some(c),
            },
    {
        match msg {
            OutputMessage::Init {} => false,
            OutputMessage::Stdout(d) => {
                self.stdout.append(d.as_str());
                false
            },
            OutputMessage::Disconnect(c) => {
                self.disconnect_code = Some(c);
                true
            },
        }
    }
}

/// The keystrokes that run a command: the command, ended by a newline.
pub fn command_input(command: &str) -> (r: String)
    ensures
        command@.len() > 0 && command@.last() == '\n' ==> r@ == command@,
        !(command@.len() > 0 && command@.last() == '\n') ==> r@ == command@ + "\n"@,
{
    let mut r = String::from_str(command);
    if !ends_with_char(command, '\n') {
        r.append("\n");
    }
    r
}

/// How long to wait before looking up a new terminal again: 50 ms, doubled
/// on each attempt, doubling at most ten times.
pub open spec fn retry_delay(attempt: nat) -> nat
    decreases attempt,
{
    if attempt == 0 {
        50
    } else if attempt > 10 {
        retry_delay(10)
    } else {
        2 * retry_delay((attempt - 1) as nat)
    }
}

/// The delay in milliseconds before the next lookup.
pub fn retry_delay_ms(attempt: usize) -> (r: u64)
    ensures
        r == retry_delay(attempt as nat),
{
    let capped: usize = if attempt > 10 {
        10
    } else {
        attempt
    };
    let mut d: u64 = 50;
    let mut i: usize = 0;
    while i < capped
        invariant
            i <= capped <= 10,
            d == retry_delay(i as nat),
            d <= 50 * 1024,
        decreases capped - i,
    {
        proof {
            lemma_retry_bound(i as nat);
        }
        d = d * 2;
        i = i + 1;
    }
    proof {
        if attempt > 10 {
            assert(retry_delay(attempt as nat) == retry_delay(10));
        }
    }
    d
}

proof fn lemma_retry_bound(i: nat)
    requires
        i < 10,
    ensures
        retry_delay(i) <= 50 * 512,
{
    assert(retry_delay(0) == 50);
    assert(retry_delay(1) == 100);
    assert(retry_delay(2) == 200);
    assert(retry_delay(3) == 400);
    assert(retry_delay(4) == 800);
    assert(retry_delay(5) == 1600);
    assert(retry_delay(6) == 3200);
    assert(retry_delay(7) == 6400);
    assert(retry_delay(8) == 12800);
    assert(retry_delay(9) == 25600);
}

} // verus!
