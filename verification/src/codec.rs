use crate::decimal::{
    decimal_digits, decimal_i128, decimal_u128, decimal_u16, parse_i128, parse_u128, parse_u16,
    push_decimal,
};
use crate::text::{
    ascii_space, chars_of, eq_ignore_ascii_case, is_ascii_space, same_ignoring_ascii_case,
    trim_bounds, trimmed,
};
use vstd::prelude::*;
use vstd::string::StrSliceExecFns;
use vstd::string::StringExecFns;

verus! {

/// The fields of `s` when the field read so far is `current`: a field ends at
/// each ASCII white space character and at the end of `s`, and empty fields
/// are dropped.
pub open spec fn fields_after(s: Seq<char>, current: Seq<char>) -> Seq<Seq<char>>
    decreases s.len(),
{
    let finished = if current.len() > 0 {
        seq![current]
    } else {
        Seq::empty()
    };
    if s.len() == 0 {
        finished
    } else if is_ascii_space(s[0]) {
        finished + fields_after(s.drop_first(), Seq::empty())
    } else {
        fields_after(s.drop_first(), current.push(s[0]))
    }
}

/// The maximal runs of `s` that hold no ASCII white space, in order.
pub open spec fn fields(s: Seq<char>) -> Seq<Seq<char>> {
    fields_after(s, Seq::empty())
}

/// The fields of a header line.
pub open spec fn header_fields(line: Seq<char>) -> Seq<Seq<char>> {
    fields(trimmed(line))
}

/// A data line without its terminator: one trailing CR LF, or else one
/// trailing LF, is taken off; nothing else is touched.
pub open spec fn without_line_ending(line: Seq<char>) -> Seq<char> {
    let n = line.len() as int;
    if n >= 2 && line[n - 2] == '\r' && line[n - 1] == '\n' {
        line.take(n - 2)
    } else if n >= 1 && line[n - 1] == '\n' {
        line.take(n - 1)
    } else {
        line
    }
}

/// The texts of a list of borrowed strings.
pub open spec fn texts(tokens: Seq<&str>) -> Seq<Seq<char>> {
    Seq::new(tokens.len(), |i: int| tokens[i]@)
}

/// A write request: the header fields of `set`, `add` and `replace`, with the
/// data block once the data line has been read.
#[derive(Debug, PartialEq, Eq)]
pub struct SetAddCommand {
    pub key: String,
    pub flags: u16,
    pub byte_count: u128,
    pub expiry_date: i128,
    pub no_reply: bool,
    pub data_block: String,
}

/// A read request.
#[derive(Debug, PartialEq, Eq)]
pub struct GetCommand {
    pub key: String,
}

/// One parsed request header.
#[derive(Debug, PartialEq, Eq)]
pub enum Command {
    /// `set`: store unconditionally.
    Put(SetAddCommand),
    /// `get`: look a key up.
    Get(GetCommand),
    /// `add`: store only under a key that is not live.
    Add(SetAddCommand),
    /// `replace`: store only under a key that is live.
    Replace(SetAddCommand),
}

/// The mathematical content of a [`SetAddCommand`].
pub struct SetAddCommandView {
    pub key: Seq<char>,
    pub flags: nat,
    pub byte_count: nat,
    pub expiry_date: int,
    pub no_reply: bool,
    pub data_block: Seq<char>,
}

/// The mathematical content of a [`Command`]; a read request is its key.
pub enum CommandView {
    Put(SetAddCommandView),
    Get(Seq<char>),
    Add(SetAddCommandView),
    Replace(SetAddCommandView),
}

impl View for SetAddCommand {
    type V = SetAddCommandView;

    open spec fn view(&self) -> SetAddCommandView {
        SetAddCommandView {
            key: self.key@,
            flags: self.flags as nat,
            byte_count: self.byte_count as nat,
            expiry_date: self.expiry_date as int,
            no_reply: self.no_reply,
            data_block: self.data_block@,
        }
    }
}

impl View for GetCommand {
    type V = Seq<char>;

    open spec fn view(&self) -> Seq<char> {
        self.key@
    }
}

impl View for Command {
    type V = CommandView;

    open spec fn view(&self) -> CommandView {
        match self {
            Command::Put(c) => CommandView::Put(c@),
            Command::Get(c) => CommandView::Get(c@),
            Command::Add(c) => CommandView::Add(c@),
            Command::Replace(c) => CommandView::Replace(c@),
        }
    }
}

/// The content of an optional write request.
pub open spec fn set_add_view(parsed: Option<SetAddCommand>) -> Option<SetAddCommandView> {
    match parsed {
        Some(c) => Some(c@),
        None => None,
    }
}

/// The content of an optional request.
pub open spec fn command_view(parsed: Option<Command>) -> Option<CommandView> {
    match parsed {
        Some(c) => Some(c@),
        None => None,
    }
}

/// The write request that the fields of a header spell, whatever its verb: the
/// key, then flags as a `u16`, time-to-live as an `i128` and declared length as
/// a `u128`, each in decimal, then optionally `noreply` in any case. A sixth
/// field that is not `noreply`, and any field after it, is ignored. The data
/// block is still empty.
pub open spec fn set_add_of(tokens: Seq<Seq<char>>) -> Option<SetAddCommandView> {
    if tokens.len() < 5 {
        None
    } else {
        match (decimal_u16(tokens[2]), decimal_i128(tokens[3]), decimal_u128(tokens[4])) {
            (Some(flags), Some(ttl), Some(length)) => Some(
                SetAddCommandView {
                    key: tokens[1],
                    flags: flags as nat,
                    byte_count: length as nat,
                    expiry_date: ttl as int,
                    no_reply: tokens.len() > 5 && same_ignoring_ascii_case(tokens[5], "noreply"@),
                    data_block: Seq::empty(),
                },
            ),
            _ => None,
        }
    }
}

/// The request that the fields of a header spell: the verb, in any case, then
/// what the verb asks for. Anything else is no request.
pub open spec fn command_of(tokens: Seq<Seq<char>>) -> Option<CommandView> {
    if tokens.len() == 0 {
        None
    } else if same_ignoring_ascii_case(tokens[0], "set"@) {
        match set_add_of(tokens) {
            Some(c) => Some(CommandView::Put(c)),
            None => None,
        }
    } else if same_ignoring_ascii_case(tokens[0], "get"@) {
        if tokens.len() >= 2 {
            Some(CommandView::Get(tokens[1]))
        } else {
            None
        }
    } else if same_ignoring_ascii_case(tokens[0], "add"@) {
        match set_add_of(tokens) {
            Some(c) => Some(CommandView::Add(c)),
            None => None,
        }
    } else if same_ignoring_ascii_case(tokens[0], "replace"@) {
        match set_add_of(tokens) {
            Some(c) => Some(CommandView::Replace(c)),
            None => None,
        }
    } else {
        None
    }
}

/// Splits a header line into its fields.
pub fn split_header<'a>(line: &'a str) -> (tokens: Vec<&'a str>)
    ensures
        texts(tokens@) == header_fields(line@),
{
    let chars = chars_of(line);
    let n: usize = chars.len();
    let (a, b) = trim_bounds(&chars);
    let ghost t = line@.subrange(a as int, b as int);
    let mut tokens: Vec<&'a str> = Vec::new();
    let mut start: usize = a;
    let mut i: usize = a;
    proof {
        assert(t.skip(0) =~= t);
        assert(t.subrange(0, 0) =~= Seq::<char>::empty());
        assert(texts(tokens@) =~= Seq::<Seq<char>>::empty());
        assert(texts(tokens@) + fields_after(t, Seq::empty()) =~= fields(t));
    }
    while i < b
        invariant
            a <= start <= i <= b <= n,
            n == chars.len(),
            chars@ == line@,
            t == line@.subrange(a as int, b as int),
            texts(tokens@) + fields_after(t.skip(i - a), t.subrange(start - a, i - a)) == fields(t),
        decreases b - i,
    {
        let ghost rest = t.skip(i - a);
        let ghost current = t.subrange(start - a, i - a);
        let ghost before = texts(tokens@);
        proof {
            assert(rest.drop_first() =~= t.skip(i + 1 - a));
            assert(rest[0] == chars@[i as int]);
        }
        if ascii_space(chars[i]) {
            if start < i {
                let token = line.substring_char(start, i);
                tokens.push(token);
                proof {
                    assert(token@ =~= current);
                    assert(texts(tokens@) =~= before + seq![current]);
                    assert(before + (seq![current] + fields_after(rest.drop_first(), Seq::empty()))
                        =~= (before + seq![current]) + fields_after(
                        rest.drop_first(),
                        Seq::empty(),
                    ));
                }
            } else {
                assert(current.len() == 0);
                assert(Seq::<Seq<char>>::empty() + fields_after(rest.drop_first(), Seq::empty())
                    =~= fields_after(rest.drop_first(), Seq::empty()));
            }
            start = i + 1;
            assert(t.subrange(start - a, i + 1 - a) =~= Seq::<char>::empty());
        } else {
            assert(current.push(rest[0]) =~= t.subrange(start - a, i + 1 - a));
        }
        i += 1;
    }
    proof {
        assert(t.skip(b - a) =~= Seq::<char>::empty());
    }
    if start < b {
        let ghost before = texts(tokens@);
        let token = line.substring_char(start, b);
        tokens.push(token);
        proof {
            assert(token@ =~= t.subrange(start - a, b - a));
            assert(texts(tokens@) =~= before + seq![token@]);
        }
    } else {
        assert(t.subrange(start - a, b - a).len() == 0);
        assert(texts(tokens@) + Seq::<Seq<char>>::empty() =~= texts(tokens@));
    }
    tokens
}

/// Takes the terminator off a data line.
pub fn strip_line_ending<'a>(line: &'a str) -> (block: &'a str)
    ensures
        block@ == without_line_ending(line@),
{
    let chars = chars_of(line);
    let n: usize = chars.len();
    if n >= 2 && chars[n - 2] == '\r' && chars[n - 1] == '\n' {
        let block = line.substring_char(0, n - 2);
        assert(block@ =~= line@.take(n - 2));
        block
    } else if n >= 1 && chars[n - 1] == '\n' {
        let block = line.substring_char(0, n - 1);
        assert(block@ =~= line@.take(n - 1));
        block
    } else {
        line
    }
}

/// Reads the fields of a write header, whatever the verb in the first field.
pub fn parse_set_add_command(command: Vec<&str>) -> (parsed: Option<SetAddCommand>)
    ensures
        set_add_view(parsed) == set_add_of(texts(command@)),
{
    if command.len() < 5 {
        return None;
    }
    let flags = match parse_u16(command[2]) {
        Some(flags) => flags,
        None => { return None; },
    };
    let expiry_date = match parse_i128(command[3]) {
        Some(ttl) => ttl,
        None => { return None; },
    };
    let byte_count = match parse_u128(command[4]) {
        Some(length) => length,
        None => { return None; },
    };
    let no_reply = command.len() > 5 && eq_ignore_ascii_case(command[5], "noreply");
    Some(
        SetAddCommand {
            key: String::from_str(command[1]),
            flags,
            byte_count,
            expiry_date,
            no_reply,
            data_block: String::new(),
        },
    )
}

/// Reads the fields of a header line as a request.
pub fn parse_command(command_string: Vec<&str>) -> (parsed: Option<Command>)
    ensures
        command_view(parsed) == command_of(texts(command_string@)),
{
    if command_string.len() == 0 {
        return None;
    }
    let verb: &str = command_string[0];
    if eq_ignore_ascii_case(verb, "set") {
        match parse_set_add_command(command_string) {
            Some(c) => Some(Command::Put(c)),
            None => None,
        }
    } else if eq_ignore_ascii_case(verb, "get") {
        if command_string.len() >= 2 {
            Some(Command::Get(GetCommand { key: String::from_str(command_string[1]) }))
        } else {
            None
        }
    } else if eq_ignore_ascii_case(verb, "add") {
        match parse_set_add_command(command_string) {
            Some(c) => Some(Command::Add(c)),
            None => None,
        }
    } else if eq_ignore_ascii_case(verb, "replace") {
        match parse_set_add_command(command_string) {
            Some(c) => Some(Command::Replace(c)),
            None => None,
        }
    } else {
        None
    }
}

/// One reply of the server.
#[derive(Debug, PartialEq, Eq)]
pub enum Response {
    /// A lookup found a live record.
    Value { data_block: String, flags: u16, byte_count: u128 },
    /// A lookup found nothing.
    End,
    /// A write was carried out.
    Stored,
    /// An `add` or `replace` found its condition unmet.
    NotStored,
}

/// The mathematical content of a [`Response`].
pub enum ResponseView {
    Value { data_block: Seq<char>, flags: nat, byte_count: nat },
    End,
    Stored,
    NotStored,
}

impl View for Response {
    type V = ResponseView;

    open spec fn view(&self) -> ResponseView {
        match self {
            Response::Value { data_block, flags, byte_count } => ResponseView::Value {
                data_block: data_block@,
                flags: *flags as nat,
                byte_count: *byte_count as nat,
            },
            Response::End => ResponseView::End,
            Response::Stored => ResponseView::Stored,
            Response::NotStored => ResponseView::NotStored,
        }
    }
}

/// The line that goes out for a reply, CR LF included.
pub open spec fn wire(reply: ResponseView) -> Seq<char> {
    match reply {
        ResponseView::Value { data_block, flags, byte_count } => "VALUE "@ + data_block + " "@
            + decimal_digits(flags) + " "@ + decimal_digits(byte_count) + "\r\n"@,
        ResponseView::End => "END\r\n"@,
        ResponseView::Stored => "STORED\r\n"@,
        ResponseView::NotStored => "NOT_STORED\r\n"@,
    }
}

impl Response {
    /// The line to send for this reply.
    pub fn serialize(&self) -> (line: String)
        ensures
            line@ == wire(self@),
    {
        match self {
            Response::Value { data_block, flags, byte_count } => {
                let mut line = String::from_str("VALUE ");
                line.append(data_block.as_str());
                line.append(" ");
                push_decimal(&mut line, *flags as u128);
                line.append(" ");
                push_decimal(&mut line, *byte_count);
                line.append("\r\n");
                line
            },
            Response::End => String::from_str("END\r\n"),
            Response::Stored => String::from_str("STORED\r\n"),
            Response::NotStored => String::from_str("NOT_STORED\r\n"),
        }
    }
}

} // verus!
