use crate::codec::{
    command_of, header_fields, without_line_ending, CommandView, ResponseView, SetAddCommandView,
};
use crate::connection::{
    data_step, header_step, lookup_reply, record_of, transition, write_reply,
    ConnectionStateView, EventView, Verb,
};
use crate::entry::DataView;
use crate::grammar::{
    fits_header, get_header, law_get_header_parses, law_set_header_parses, write_header,
};
use crate::store::{evict, held, live, lookup, StoreView};
use crate::text::{is_unicode_space, same_ignoring_ascii_case};
use vstd::prelude::*;

verus! {

/// A line is a request for `key` when its fields spell `get key`.
pub open spec fn asks_for(line: Seq<char>, key: Seq<char>) -> bool {
    command_of(header_fields(line)) == Some(CommandView::Get(key))
}

/// The key that a step acts on, if it acts on one: the key of a `get` header,
/// or that of the pending write when its data line arrives.
pub open spec fn key_acted_on(state: ConnectionStateView, event: EventView) -> Option<Seq<char>> {
    match event {
        EventView::Closed => None,
        EventView::Line(line) => match state {
            ConnectionStateView::AwaitHeader => match command_of(header_fields(line)) {
                Some(CommandView::Get(key)) => Some(key),
                _ => None,
            },
            ConnectionStateView::AwaitData { verb, command } => Some(command.key),
        },
    }
}

/// The store after the records of `writes` were stored under `key` one after
/// the other.
pub open spec fn written_in_turn(store: StoreView, key: Seq<char>, writes: Seq<DataView>) -> StoreView
    decreases writes.len(),
{
    if writes.len() == 0 {
        store
    } else {
        written_in_turn(store, key, writes.drop_last()).insert(key, writes.last())
    }
}

/// A value terminated by CR LF comes back from the data line as it went in,
/// provided it holds no line feed.
pub proof fn law_data_line_keeps_value(value: Seq<char>)
    requires
        !value.contains('\n'),
    ensures
        without_line_ending(value + "\r\n"@) == value,
{
    reveal_strlit("\r\n");
    let line = value + "\r\n"@;
    assert(line[line.len() - 2] == '\r');
    assert(line[line.len() - 1] == '\n');
    assert(line.take(line.len() - 2) =~= value);
}

/// A never-expiring record stored under a key is what every later lookup of
/// that key finds, at any clock reading, and lookups leave it in place.
pub proof fn law_store_round_trip(store: StoreView, key: Seq<char>, data: DataView, now: nat)
    requires
        data.expiry_sec == 0,
    ensures
        lookup(store.insert(key, data), key, now) == Some(data),
        evict(store.insert(key, data), key, now) == store.insert(key, data),
{
}

/// After `set` with a time-to-live of zero and a data line that ends in CR LF,
/// every `get` of the key is answered with the value, flags and declared
/// length that were sent, whatever the clock reads, and leaves the store as it
/// is, so that the next `get` is answered alike.
pub proof fn law_set_then_get(
    store: StoreView,
    command: SetAddCommandView,
    value: Seq<char>,
    set_time: nat,
    request: Seq<char>,
    get_time: nat,
)
    requires
        command.expiry_date == 0,
        !value.contains('\n'),
        asks_for(request, command.key),
    ensures
        ({
            let written = data_step(Verb::Put, command, value + "\r\n"@, store, set_time);
            let read = header_step(request, written.store, get_time);
            &&& written.next == Some(ConnectionStateView::AwaitHeader)
            &&& read.next == Some(ConnectionStateView::AwaitHeader)
            &&& read.reply == Some(
                ResponseView::Value {
                    data_block: value,
                    flags: command.flags,
                    byte_count: command.byte_count,
                },
            )
            &&& read.store == written.store
        }),
{
    law_data_line_keeps_value(value);
}

/// On the wire: a client that sends a `set` header with a time-to-live of
/// zero, then the value and CR LF, then a `get` for the same key, is sent the
/// value back with the flags and the declared length of its header, whatever
/// the store held before and whatever the clock read at each line.
pub proof fn law_wire_round_trip(
    store: StoreView,
    set_verb: Seq<char>,
    command: SetAddCommandView,
    value: Seq<char>,
    get_verb: Seq<char>,
    header_time: nat,
    data_time: nat,
    get_time: nat,
)
    requires
        same_ignoring_ascii_case(set_verb, "set"@),
        same_ignoring_ascii_case(get_verb, "get"@),
        fits_header(command),
        !is_unicode_space(command.key.last()),
        command.expiry_date == 0,
        !value.contains('\n'),
    ensures
        ({
            let start = ConnectionStateView::AwaitHeader;
            let header = EventView::Line(write_header(set_verb, command));
            let data = EventView::Line(value + "\r\n"@);
            let request = EventView::Line(get_header(get_verb, command.key));
            let first = transition(start, header, store, header_time);
            let second = transition(first.next->0, data, first.store, data_time);
            let third = transition(second.next->0, request, second.store, get_time);
            &&& first.next is Some
            &&& first.reply is None
            &&& second.next is Some
            &&& second.reply == write_reply(command.no_reply, true)
            &&& third.next == Some(start)
            &&& third.reply == Some(
                ResponseView::Value {
                    data_block: value,
                    flags: command.flags,
                    byte_count: command.byte_count,
                },
            )
            &&& third.store == second.store
        }),
{
    law_set_header_parses(set_verb, command);
    law_get_header_parses(get_verb, command.key);
    law_set_then_get(
        store,
        command,
        value,
        data_time,
        get_header(get_verb, command.key),
        get_time,
    );
}

/// A step that acts on no key, or on another key, leaves the record under
/// `key` as it was: only a step on `key` itself can overwrite or remove it.
pub proof fn law_other_keys_untouched(
    state: ConnectionStateView,
    event: EventView,
    store: StoreView,
    now: nat,
    key: Seq<char>,
)
    requires
        key_acted_on(state, event) != Some(key),
    ensures
        held(transition(state, event, store, now).store, key) == held(store, key),
{
}

/// A record with a positive time-to-live is found as long as no more than that
/// many seconds have passed since it was written.
pub proof fn law_found_before_expiry(store: StoreView, key: Seq<char>, data: DataView, now: nat)
    requires
        data.expiry_sec > 0,
        now - data.inserted_at <= data.expiry_sec,
    ensures
        lookup(store.insert(key, data), key, now) == Some(data),
        evict(store.insert(key, data), key, now) == store.insert(key, data),
{
}

/// Once more than its time-to-live has passed, a record with a positive
/// time-to-live is missed, that one lookup removes it, and every lookup after
/// it misses too, whatever the clock reads then.
pub proof fn law_missed_after_expiry(
    store: StoreView,
    key: Seq<char>,
    data: DataView,
    now: nat,
    later: nat,
)
    requires
        data.expiry_sec > 0,
        now - data.inserted_at > data.expiry_sec,
    ensures
        lookup(store.insert(key, data), key, now) is None,
        !evict(store.insert(key, data), key, now).contains_key(key),
        lookup(evict(store.insert(key, data), key, now), key, later) is None,
{
}

/// On the wire: a `get` of a key whose record outlived its time-to-live is
/// answered `END`, and so is the `get` after it.
pub proof fn law_get_after_expiry(
    store: StoreView,
    key: Seq<char>,
    data: DataView,
    request: Seq<char>,
    now: nat,
    later: nat,
)
    requires
        data.expiry_sec > 0,
        now - data.inserted_at > data.expiry_sec,
        asks_for(request, key),
    ensures
        ({
            let first = header_step(request, store.insert(key, data), now);
            let second = header_step(request, first.store, later);
            &&& first.reply == Some(ResponseView::End)
            &&& second.reply == Some(ResponseView::End)
        }),
{
}

/// A record written with a negative time-to-live is never found: the `get`
/// that follows its `set` is answered `END`, whatever the clock reads.
pub proof fn law_negative_ttl_never_found(
    store: StoreView,
    command: SetAddCommandView,
    line: Seq<char>,
    set_time: nat,
    request: Seq<char>,
    get_time: nat,
)
    requires
        command.expiry_date < 0,
        asks_for(request, command.key),
    ensures
        header_step(
            request,
            data_step(Verb::Put, command, line, store, set_time).store,
            get_time,
        ).reply == Some(ResponseView::End),
{
}

/// `add` under a key that is not live stores the record and is answered
/// `STORED`; a second `add` while that record is live is answered
/// `NOT_STORED` and changes nothing. (With `noreply` the answer is not sent.)
pub proof fn law_add_twice(
    store: StoreView,
    first: SetAddCommandView,
    first_line: Seq<char>,
    first_time: nat,
    second: SetAddCommandView,
    second_line: Seq<char>,
    second_time: nat,
)
    requires
        !live(store, first.key, first_time),
        second.key == first.key,
        !record_of(first, first_line, first_time).expired_at(second_time),
    ensures
        ({
            let once = data_step(Verb::Add, first, first_line, store, first_time);
            let twice = data_step(Verb::Add, second, second_line, once.store, second_time);
            &&& once.reply == write_reply(first.no_reply, true)
            &&& once.store == store.insert(first.key, record_of(first, first_line, first_time))
            &&& twice.reply == write_reply(second.no_reply, false)
            &&& twice.store == once.store
        }),
{
}

/// `replace` under a key that the store does not hold is answered
/// `NOT_STORED`, unless `noreply` keeps the answer back, and stores nothing.
pub proof fn law_replace_absent(
    store: StoreView,
    command: SetAddCommandView,
    line: Seq<char>,
    now: nat,
)
    requires
        !store.contains_key(command.key),
    ensures
        data_step(Verb::Replace, command, line, store, now).reply == write_reply(
            command.no_reply,
            false,
        ),
        data_step(Verb::Replace, command, line, store, now).store == store,
{
}

/// `replace` under a live key overwrites its record and is answered `STORED`,
/// unless `noreply` keeps the answer back.
pub proof fn law_replace_live(
    store: StoreView,
    command: SetAddCommandView,
    line: Seq<char>,
    now: nat,
)
    requires
        live(store, command.key, now),
    ensures
        data_step(Verb::Replace, command, line, store, now).reply == write_reply(
            command.no_reply,
            true,
        ),
        data_step(Verb::Replace, command, line, store, now).store == store.insert(
            command.key,
            record_of(command, line, now),
        ),
{
}

/// However many writers store under one key, and in whatever order their
/// writes take effect, the key then holds the record of the writer that came
/// last, whole: its value together with its own flags and declared length.
pub proof fn law_last_write_wins(store: StoreView, key: Seq<char>, writes: Seq<DataView>)
    requires
        writes.len() > 0,
    ensures
        held(written_in_turn(store, key, writes), key) == Some(writes.last()),
        writes.contains(writes.last()),
{
}

/// A write sent with `noreply` is answered with nothing at all, whatever its
/// verb and whether or not it stores.
pub proof fn law_noreply_is_silent(
    verb: Verb,
    command: SetAddCommandView,
    line: Seq<char>,
    store: StoreView,
    now: nat,
)
    requires
        command.no_reply,
    ensures
        data_step(verb, command, line, store, now).reply is None,
        data_step(verb, command, line, store, now).next == Some(ConnectionStateView::AwaitHeader),
{
}

/// A `set` sent with `noreply` still stores: the `get` after it is answered
/// with the record, as long as the record has not expired.
pub proof fn law_noreply_set_is_seen(
    store: StoreView,
    command: SetAddCommandView,
    line: Seq<char>,
    set_time: nat,
    request: Seq<char>,
    get_time: nat,
)
    requires
        command.no_reply,
        asks_for(request, command.key),
        !record_of(command, line, set_time).expired_at(get_time),
    ensures
        ({
            let written = data_step(Verb::Put, command, line, store, set_time);
            let read = header_step(request, written.store, get_time);
            &&& written.reply is None
            &&& read.reply == Some(lookup_reply(Some(record_of(command, line, set_time))))
        }),
{
}

} // verus!
