use crate::clock::unix_seconds;
use crate::codec::{
    command_of, header_fields, parse_command, split_header, strip_line_ending, without_line_ending,
    Command, CommandView, Response, ResponseView, SetAddCommand, SetAddCommandView,
};
use crate::entry::{Data, DataView};
use crate::store::{added, evict, live, lookup, replaced, DataStorage, StoreView};
use vstd::prelude::*;
use vstd::string::StringExecFns;

verus! {

/// The three verbs that write.
#[derive(Debug, PartialEq, Eq)]
pub enum Verb {
    /// `set`: store unconditionally.
    Put,
    /// `add`: store only under a key that is not live.
    Add,
    /// `replace`: store only under a key that is live.
    Replace,
}

/// Where a connection stands between two lines.
#[derive(Debug, PartialEq, Eq)]
pub enum ConnectionState {
    /// The next line is a request header.
    AwaitHeader,
    /// The next line is the data block of the write request held here.
    AwaitData { verb: Verb, command: SetAddCommand },
}

/// The mathematical content of a [`ConnectionState`].
pub enum ConnectionStateView {
    AwaitHeader,
    AwaitData { verb: Verb, command: SetAddCommandView },
}

impl View for ConnectionState {
    type V = ConnectionStateView;

    open spec fn view(&self) -> ConnectionStateView {
        match self {
            ConnectionState::AwaitHeader => ConnectionStateView::AwaitHeader,
            ConnectionState::AwaitData { verb, command } => ConnectionStateView::AwaitData {
                verb: *verb,
                command: command@,
            },
        }
    }
}

/// What the reader of a connection reports.
pub enum Event<'a> {
    /// One line came in, terminator included.
    Line(&'a str),
    /// The peer closed the connection, or reading failed.
    Closed,
}

/// The mathematical content of an [`Event`].
pub enum EventView {
    Line(Seq<char>),
    Closed,
}

impl<'a> View for Event<'a> {
    type V = EventView;

    open spec fn view(&self) -> EventView {
        match self {
            Event::Line(line) => EventView::Line(line@),
            Event::Closed => EventView::Closed,
        }
    }
}

/// What the handler of a connection is to do after an event.
#[derive(Debug, PartialEq, Eq)]
pub struct Outcome {
    /// The state to go on in; `None` closes the connection.
    pub next: Option<ConnectionState>,
    /// The reply to send first; `None` sends nothing.
    pub reply: Option<Response>,
}

/// One step of a connection in full: where it goes on, what it sends, and the
/// store it leaves.
pub struct Transition {
    pub next: Option<ConnectionStateView>,
    pub reply: Option<ResponseView>,
    pub store: StoreView,
}

impl Outcome {
    /// The state to go on in, as mathematical content.
    pub open spec fn next_view(self) -> Option<ConnectionStateView> {
        match self.next {
            Some(state) => Some(state@),
            None => None,
        }
    }

    /// The reply to send, as mathematical content.
    pub open spec fn reply_view(self) -> Option<ResponseView> {
        match self.reply {
            Some(reply) => Some(reply@),
            None => None,
        }
    }

    /// This outcome together with the store it left.
    pub open spec fn with_store(self, store: StoreView) -> Transition {
        Transition { next: self.next_view(), reply: self.reply_view(), store }
    }
}

/// The reply to a lookup.
pub open spec fn lookup_reply(found: Option<DataView>) -> ResponseView {
    match found {
        Some(data) => ResponseView::Value {
            data_block: data.data_block,
            flags: data.flags,
            byte_count: data.byte_count,
        },
        None => ResponseView::End,
    }
}

/// The record a write request stores when its data line is `line` and the
/// clock reads `now`.
pub open spec fn record_of(command: SetAddCommandView, line: Seq<char>, now: nat) -> DataView {
    DataView {
        flags: command.flags,
        byte_count: command.byte_count,
        data_block: without_line_ending(line),
        inserted_at: now,
        expiry_sec: command.expiry_date,
    }
}

/// Whether a write of `verb` under `key` at `now` is carried out.
pub open spec fn write_stores(verb: Verb, store: StoreView, key: Seq<char>, now: nat) -> bool {
    match verb {
        Verb::Put => true,
        Verb::Add => !live(store, key, now),
        Verb::Replace => live(store, key, now),
    }
}

/// The store after a write of `verb` under `key` at `now`.
pub open spec fn write_result(
    verb: Verb,
    store: StoreView,
    key: Seq<char>,
    data: DataView,
    now: nat,
) -> StoreView {
    match verb {
        Verb::Put => store.insert(key, data),
        Verb::Add => added(store, key, data, now),
        Verb::Replace => replaced(store, key, data, now),
    }
}

/// The reply to a write, if it gets one.
pub open spec fn write_reply(no_reply: bool, stored: bool) -> Option<ResponseView> {
    if no_reply {
        None
    } else if stored {
        Some(ResponseView::Stored)
    } else {
        Some(ResponseView::NotStored)
    }
}

/// The step a connection takes on a header line.
pub open spec fn header_step(line: Seq<char>, store: StoreView, now: nat) -> Transition {
    match command_of(header_fields(line)) {
        None => Transition { next: None, reply: None, store },
        Some(CommandView::Get(key)) => Transition {
            next: Some(ConnectionStateView::AwaitHeader),
            reply: Some(lookup_reply(lookup(store, key, now))),
            store: evict(store, key, now),
        },
        Some(CommandView::Put(command)) => Transition {
            next: Some(ConnectionStateView::AwaitData { verb: Verb::Put, command }),
            reply: None,
            store,
        },
        Some(CommandView::Add(command)) => Transition {
            next: Some(ConnectionStateView::AwaitData { verb: Verb::Add, command }),
            reply: None,
            store,
        },
        Some(CommandView::Replace(command)) => Transition {
            next: Some(ConnectionStateView::AwaitData { verb: Verb::Replace, command }),
            reply: None,
            store,
        },
    }
}

/// The step a connection takes on the data line of a pending write.
pub open spec fn data_step(
    verb: Verb,
    command: SetAddCommandView,
    line: Seq<char>,
    store: StoreView,
    now: nat,
) -> Transition {
    Transition {
        next: Some(ConnectionStateView::AwaitHeader),
        reply: write_reply(command.no_reply, write_stores(verb, store, command.key, now)),
        store: write_result(verb, store, command.key, record_of(command, line, now), now),
    }
}

/// The step a connection in `state` takes on `event`, over `store`, when the
/// clock reads `now`. A closed connection and a header that is no request end
/// the connection without a reply and leave the store as it is.
pub open spec fn transition(
    state: ConnectionStateView,
    event: EventView,
    store: StoreView,
    now: nat,
) -> Transition {
    match event {
        EventView::Closed => Transition { next: None, reply: None, store },
        EventView::Line(line) => match state {
            ConnectionStateView::AwaitHeader => header_step(line, store, now),
            ConnectionStateView::AwaitData { verb, command } => data_step(
                verb,
                command,
                line,
                store,
                now,
            ),
        },
    }
}

/// Answers a lookup of `key` at `now`.
fn answer_get(store: &mut DataStorage, key: &str, now: u64) -> (reply: Response)
    ensures
        reply@ == lookup_reply(lookup(old(store)@, key@, now as nat)),
        final(store)@ == evict(old(store)@, key@, now as nat),
{
    match store.get_at(key, now) {
        Some(data) => Response::Value {
            data_block: data.data_block.clone(),
            flags: data.flags,
            byte_count: data.byte_count,
        },
        None => Response::End,
    }
}

/// Carries out a pending write whose data line is `line`.
fn apply_write(
    verb: Verb,
    command: SetAddCommand,
    line: &str,
    store: &mut DataStorage,
    now: u64,
) -> (reply: Option<Response>)
    ensures
        (match reply {
            Some(r) => Some(r@),
            None => None,
        }) == write_reply(
            command@.no_reply,
            write_stores(verb, old(store)@, command@.key, now as nat),
        ),
        final(store)@ == write_result(
            verb,
            old(store)@,
            command@.key,
            record_of(command@, line@, now as nat),
            now as nat,
        ),
{
    let mut command = command;
    command.data_block = String::from_str(strip_line_ending(line));
    let no_reply = command.no_reply;
    let data = Data::new_at(
        command.flags,
        command.byte_count,
        command.data_block,
        command.expiry_date,
        now,
    );
    let stored = match verb {
        Verb::Put => {
            store.insert(command.key.as_str(), data);
            true
        },
        Verb::Add => store.add_at(command.key.as_str(), data, now),
        Verb::Replace => store.replace_at(command.key.as_str(), data, now),
    };
    if no_reply {
        None
    } else if stored {
        Some(Response::Stored)
    } else {
        Some(Response::NotStored)
    }
}

/// Takes one step of a connection with the clock reading `now`: reads a header
/// or a data line, applies it to `store`, and says what to send and where to go
/// on.
pub fn step_at(state: ConnectionState, event: Event, store: &mut DataStorage, now: u64) -> (outcome:
    Outcome)
    ensures
        outcome.with_store(final(store)@) == transition(state@, event@, old(store)@, now as nat),
{
    let line = match event {
        Event::Line(line) => line,
        Event::Closed => { return Outcome { next: None, reply: None }; },
    };
    match state {
        ConnectionState::AwaitHeader => match parse_command(split_header(line)) {
            None => Outcome { next: None, reply: None },
            Some(Command::Get(get)) => {
                let reply = answer_get(store, get.key.as_str(), now);
                Outcome { next: Some(ConnectionState::AwaitHeader), reply: Some(reply) }
            },
            Some(Command::Put(command)) => Outcome {
                next: Some(ConnectionState::AwaitData { verb: Verb::Put, command }),
                reply: None,
            },
            Some(Command::Add(command)) => Outcome {
                next: Some(ConnectionState::AwaitData { verb: Verb::Add, command }),
                reply: None,
            },
            Some(Command::Replace(command)) => Outcome {
                next: Some(ConnectionState::AwaitData { verb: Verb::Replace, command }),
                reply: None,
            },
        },
        ConnectionState::AwaitData { verb, command } => {
            let reply = apply_write(verb, command, line, store, now);
            Outcome { next: Some(ConnectionState::AwaitHeader), reply }
        },
    }
}

/// Takes one step of a connection at the current clock reading: the step
/// `step_at` takes for some reading.
pub fn step(state: ConnectionState, event: Event, store: &mut DataStorage) -> (outcome: Outcome)
    ensures
        exists|now: u64|
            outcome.with_store(final(store)@) == #[trigger] transition(
                state@,
                event@,
                old(store)@,
                now as nat,
            ),
{
    let now: u64 = unix_seconds();
    step_at(state, event, store, now)
}

} // verus!
