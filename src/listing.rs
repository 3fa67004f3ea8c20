//! The listing session: the decisions of the run, apart from the OS calls.
//!
//! For each identifier in turn the session asks to open the process, then,
//! if that worked, to resolve its name, then to close the handle, and hands
//! out the line to write at each point. The caller performs each command and
//! answers with the matching event. One process's failure never ends the run,
//! every identifier gets exactly one listing line, and every handle that was
//! opened is closed exactly once.
use vstd::prelude::*;
use crate::report::{digit_run, digits_value, lemma_stdout_line_leads_with_pid, Line};

verus! {

/// What the caller is to do next.
#[derive(Clone, Copy, Debug, PartialEq, Eq, Structural)]
pub enum Command {
    /// Open a handle to this process with query and read rights only.
    Open(u32),
    /// Resolve the module base name of this process through its open handle.
    ResolveName(u32),
    /// Release the handle to this process.
    Close(u32),
    /// The listing is done.
    Finished,
}

/// What came of the last command.
#[derive(Debug, PartialEq, Eq)]
pub enum Event {
    /// The process was opened.
    Opened,
    /// The process could not be opened; the text describes why.
    OpenFailed(String),
    /// The process's module base name.
    Named(String),
    /// The name could not be had; the text describes why.
    NameFailed(String),
    /// The handle was released.
    Closed,
    /// Releasing the handle failed; the text describes why.
    CloseFailed(String),
}

/// The line to write, if any, and the next command.
#[derive(Debug, PartialEq, Eq)]
pub struct Action {
    pub line: Option<Line>,
    pub command: Command,
}

/// The session's state, as the contracts see it.
pub struct ListingState {
    /// The identifiers to list, in order.
    pub pids: Seq<u32>,
    /// Index of the identifier being worked on.
    pub pos: nat,
    /// A handle to the current process is open.
    pub held: bool,
    /// The current process's listing line has been handed out.
    pub named: bool,
    /// Identifiers whose process was opened, in order.
    pub opened: Seq<u32>,
    /// Identifiers whose handle the session asked to close, in order.
    pub closed: Seq<u32>,
    /// Identifiers whose listing line was handed out, in order.
    pub listed: Seq<u32>,
}

impl ListingState {
    pub open spec fn current(self) -> u32 {
        self.pids[self.pos as int]
    }

    pub open spec fn inv(self) -> bool {
        &&& self.pos <= self.pids.len()
        &&& self.held ==> self.pos < self.pids.len()
        &&& self.named ==> self.held
        &&& self.listed == self.pids.take(self.pos + if self.named {
            1int
        } else {
            0int
        })
        &&& if self.held && !self.named {
            self.opened == self.closed.push(self.current())
        } else {
            self.closed == self.opened
        }
    }

    /// The command the session waits on.
    pub open spec fn pending(self) -> Command {
        if self.pos >= self.pids.len() {
            Command::Finished
        } else if !self.held {
            Command::Open(self.current())
        } else if !self.named {
            Command::ResolveName(self.current())
        } else {
            Command::Close(self.current())
        }
    }

    /// `event` answers the pending command.
    pub open spec fn accepts(self, event: Event) -> bool {
        match self.pending() {
            Command::Open(_) => event is Opened || event is OpenFailed,
            Command::ResolveName(_) => event is Named || event is NameFailed,
            Command::Close(_) => event is Closed || event is CloseFailed,
            Command::Finished => false,
        }
    }

    /// The state after `event`.
    pub open spec fn after(self, event: Event) -> ListingState {
        let pid = self.current();
        match event {
            Event::Opened => ListingState { held: true, opened: self.opened.push(pid), ..self },
            Event::OpenFailed(_) => ListingState {
                pos: self.pos + 1,
                listed: self.listed.push(pid),
                ..self
            },
            Event::Named(_) | Event::NameFailed(_) => ListingState {
                named: true,
                listed: self.listed.push(pid),
                closed: self.closed.push(pid),
                ..self
            },
            Event::Closed | Event::CloseFailed(_) => ListingState {
                pos: self.pos + 1,
                held: false,
                named: false,
                ..self
            },
        }
    }

    /// The line handed out on `event`.
    pub open spec fn line_for(self, event: Event) -> Option<Line> {
        let pid = self.current();
        match event {
            Event::OpenFailed(error) => Some(Line::OpenFailed { pid, error }),
            Event::Named(name) => Some(Line::Named { pid, name }),
            Event::NameFailed(error) => Some(Line::NameFailed { pid, error }),
            Event::CloseFailed(error) => Some(Line::CloseFailed { pid, error }),
            _ => None,
        }
    }
}

/// A listing session over a fixed sequence of identifiers.
pub struct Listing {
    pids: Vec<u32>,
    pos: usize,
    held: bool,
    named: bool,
    opened: Ghost<Seq<u32>>,
    closed: Ghost<Seq<u32>>,
    listed: Ghost<Seq<u32>>,
}

impl View for Listing {
    type V = ListingState;

    closed spec fn view(&self) -> ListingState {
        ListingState {
            pids: self.pids@,
            pos: self.pos as nat,
            held: self.held,
            named: self.named,
            opened: self.opened@,
            closed: self.closed@,
            listed: self.listed@,
        }
    }
}

impl Listing {
    /// A session that will list `pids` in order.
    pub fn new(pids: Vec<u32>) -> (r: Listing)
        ensures
            r@ == (ListingState {
                pids: pids@,
                pos: 0,
                held: false,
                named: false,
                opened: Seq::empty(),
                closed: Seq::empty(),
                listed: Seq::empty(),
            }),
            r@.inv(),
    {
        let r = Listing {
            pids,
            pos: 0,
            held: false,
            named: false,
            opened: Ghost(Seq::empty()),
            closed: Ghost(Seq::empty()),
            listed: Ghost(Seq::empty()),
        };
        assert(r@.listed =~= r@.pids.take(0));
        r
    }

    /// The command the session waits on.
    pub fn pending(&self) -> (r: Command)
        requires
            self@.inv(),
        ensures
            r == self@.pending(),
    {
        if self.pos >= self.pids.len() {
            Command::Finished
        } else if !self.held {
            Command::Open(self.pids[self.pos])
        } else if !self.named {
            Command::ResolveName(self.pids[self.pos])
        } else {
            Command::Close(self.pids[self.pos])
        }
    }

    /// Whether `event` answers the pending command.
    pub fn accepts(&self, event: &Event) -> (r: bool)
        requires
            self@.inv(),
        ensures
            r == self@.accepts(*event),
    {
        match self.pending() {
            Command::Open(_) => matches!(event, Event::Opened | Event::OpenFailed(_)),
            Command::ResolveName(_) => matches!(event, Event::Named(_) | Event::NameFailed(_)),
            Command::Close(_) => matches!(event, Event::Closed | Event::CloseFailed(_)),
            Command::Finished => false,
        }
    }

    /// Takes the answer to the pending command: moves to the next state and
    /// says what line to write and what to do next.
    pub fn step(&mut self, event: Event) -> (r: Action)
        requires
            old(self)@.inv(),
            old(self)@.accepts(event),
        ensures
            final(self)@ == old(self)@.after(event),
            final(self)@.inv(),
            r.line == old(self)@.line_for(event),
            r.command == final(self)@.pending(),
    {
        let count = self.pids.len();
        assert(self.pos < count);
        let pid = self.pids[self.pos];
        let line = match event {
            Event::Opened => {
                self.held = true;
                self.opened = Ghost(self.opened@.push(pid));
                None
            },
            Event::OpenFailed(error) => {
                self.pos = self.pos + 1;
                self.listed = Ghost(self.listed@.push(pid));
                Some(Line::OpenFailed { pid, error })
            },
            Event::Named(name) => {
                self.named = true;
                self.listed = Ghost(self.listed@.push(pid));
                self.closed = Ghost(self.closed@.push(pid));
                Some(Line::Named { pid, name })
            },
            Event::NameFailed(error) => {
                self.named = true;
                self.listed = Ghost(self.listed@.push(pid));
                self.closed = Ghost(self.closed@.push(pid));
                Some(Line::NameFailed { pid, error })
            },
            Event::Closed => {
                self.pos = self.pos + 1;
                self.held = false;
                self.named = false;
                None
            },
            Event::CloseFailed(error) => {
                self.pos = self.pos + 1;
                self.held = false;
                self.named = false;
                Some(Line::CloseFailed { pid, error })
            },
        };
        assert(self@.listed =~= self@.pids.take(self@.pos + if self@.named {
            1int
        } else {
            0int
        }));
        Action { line, command: self.pending() }
    }
}

/// Once the session is finished, every identifier has had exactly one
/// listing line, in the order given, and the handles asked to close are
/// exactly the handles opened, each once, in the same order.
pub proof fn lemma_finished_listing_is_complete(s: ListingState)
    requires
        s.inv(),
        s.pending() == Command::Finished,
    ensures
        s.listed == s.pids,
        s.closed == s.opened,
{
    assert(s.pids.take(s.pids.len() as int) =~= s.pids);
}

/// At every point of a session, the handles asked to close are the handles
/// opened, but for at most the one currently held: no handle is closed
/// twice, and none is closed without having been opened.
pub proof fn lemma_handles_closed_once(s: ListingState)
    requires
        s.inv(),
    ensures
        s.closed == s.opened || (s.held && s.opened == s.closed.push(s.current())),
{
}

/// Each event hands out at most one line, about the identifier being worked
/// on, and that identifier is recorded as listed exactly when the line is its
/// listing line.
pub proof fn lemma_step_lists_current(s: ListingState, e: Event)
    requires
        s.inv(),
        s.accepts(e),
    ensures
        s.line_for(e) matches Some(l) ==> l.pid_spec() == s.current() && s.pids.contains(
            l.pid_spec(),
        ),
        s.after(e).listed == if s.line_for(e) matches Some(l) && l.is_listing() {
            s.listed.push(s.current())
        } else {
            s.listed
        },
        s.after(e).inv(),
{
    let t = s.after(e);
    assert(t.listed =~= t.pids.take(t.pos + if t.named {
        1int
    } else {
        0int
    }));
}

/// Every line a session writes to standard output begins with a run of
/// decimal digits, ended by a colon, that reads as one of the identifiers
/// being listed.
pub proof fn lemma_stdout_line_names_listed_pid(s: ListingState, e: Event)
    requires
        s.inv(),
        s.accepts(e),
        s.line_for(e) matches Some(l) && l.to_stdout_spec(),
    ensures
        ({
            let t = s.line_for(e).unwrap().text_spec();
            let k = digit_run(t);
            &&& 0 < k < t.len()
            &&& t[k as int] == ':'
            &&& exists|i: int|
                0 <= i < s.pids.len() && s.pids[i] as nat == digits_value(t.take(k as int))
        }),
{
    let l = s.line_for(e).unwrap();
    lemma_stdout_line_leads_with_pid(l);
}

} // verus!
