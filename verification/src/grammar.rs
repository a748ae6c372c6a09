use crate::codec::{
    command_of, fields, fields_after, header_fields, set_add_of, CommandView, SetAddCommandView,
};
use crate::decimal::{
    all_digits, decimal_digits, decimal_i128, decimal_u128, decimal_u16, is_digit,
    law_signed_round_trip, law_unsigned_round_trip, lemma_decimal_digits, signed_digits,
};
use crate::text::{
    ascii_lower, is_ascii_space, is_unicode_space, same_ignoring_ascii_case, trim_end, trim_start,
    trimmed,
};
use vstd::prelude::*;

verus! {

/// A word is a non-empty text without ASCII white space.
pub open spec fn is_word(w: Seq<char>) -> bool {
    w.len() > 0 && forall|i: int| 0 <= i < w.len() ==> !is_ascii_space(#[trigger] w[i])
}

/// The words of `words` with one space between each two.
pub open spec fn joined(words: Seq<Seq<char>>) -> Seq<char>
    decreases words.len(),
{
    if words.len() == 0 {
        Seq::empty()
    } else if words.len() == 1 {
        words[0]
    } else {
        words[0] + seq![' '] + joined(words.drop_first())
    }
}

/// The fields that the header of a write request is made of, in order.
pub open spec fn write_words(verb: Seq<char>, command: SetAddCommandView) -> Seq<Seq<char>> {
    let needed = seq![
        verb,
        command.key,
        decimal_digits(command.flags),
        signed_digits(command.expiry_date),
        decimal_digits(command.byte_count),
    ];
    if command.no_reply {
        needed.push("noreply"@)
    } else {
        needed
    }
}

/// The header line of a write request as a client sends it.
pub open spec fn write_header(verb: Seq<char>, command: SetAddCommandView) -> Seq<char> {
    joined(write_words(verb, command)) + "\r\n"@
}

/// The header line of a read request as a client sends it.
pub open spec fn get_header(verb: Seq<char>, key: Seq<char>) -> Seq<char> {
    joined(seq![verb, key]) + "\r\n"@
}

/// A write request that a header line can carry: the key is a word, the
/// numbers fit their fields, and the data block is still to come.
pub open spec fn fits_header(command: SetAddCommandView) -> bool {
    &&& is_word(command.key)
    &&& command.flags <= u16::MAX
    &&& command.byte_count <= u128::MAX
    &&& i128::MIN <= command.expiry_date <= i128::MAX
    &&& command.data_block == Seq::<char>::empty()
}

/// A word at the head of a text is read into the field in progress.
pub proof fn lemma_word_is_read(word: Seq<char>, rest: Seq<char>, current: Seq<char>)
    requires
        forall|i: int| 0 <= i < word.len() ==> !is_ascii_space(#[trigger] word[i]),
    ensures
        fields_after(word + rest, current) == fields_after(rest, current + word),
    decreases word.len(),
{
    if word.len() == 0 {
        assert(word + rest =~= rest);
        assert(current + word =~= current);
    } else {
        let tail = word.drop_first();
        assert((word + rest)[0] == word[0]);
        assert((word + rest).drop_first() =~= tail + rest);
        assert forall|i: int| 0 <= i < tail.len() implies !is_ascii_space(#[trigger] tail[i]) by {
            assert(tail[i] == word[i + 1]);
        }
        lemma_word_is_read(tail, rest, current.push(word[0]));
        assert(current.push(word[0]) + tail =~= current + word);
    }
}

/// Splitting words that were joined by single spaces gives the words back.
pub proof fn law_fields_of_joined(words: Seq<Seq<char>>)
    requires
        forall|i: int| 0 <= i < words.len() ==> is_word(#[trigger] words[i]),
    ensures
        fields(joined(words)) == words,
    decreases words.len(),
{
    if words.len() == 0 {
        assert(fields(joined(words)) =~= words);
    } else if words.len() == 1 {
        let w = words[0];
        assert(is_word(w));
        lemma_word_is_read(w, Seq::empty(), Seq::empty());
        assert(w + Seq::<char>::empty() =~= w);
        assert(Seq::<char>::empty() + w =~= w);
        assert(fields_after(Seq::<char>::empty(), w) =~= seq![w]);
        assert(seq![w] =~= words);
    } else {
        let w = words[0];
        let others = words.drop_first();
        let tail = seq![' '] + joined(others);
        assert(is_word(w));
        assert(joined(words) =~= w + tail);
        lemma_word_is_read(w, tail, Seq::empty());
        assert(Seq::<char>::empty() + w =~= w);
        assert(tail[0] == ' ');
        assert(tail.drop_first() =~= joined(others));
        assert forall|i: int| 0 <= i < others.len() implies is_word(#[trigger] others[i]) by {
            assert(others[i] == words[i + 1]);
        }
        law_fields_of_joined(others);
        assert(fields_after(tail, w) == seq![w] + fields(joined(others)));
        assert(seq![w] + others =~= words);
    }
}

/// Joined words start with the first character of the first word and end
/// with the last character of the last.
pub proof fn lemma_joined_ends(words: Seq<Seq<char>>)
    requires
        words.len() > 0,
        forall|i: int| 0 <= i < words.len() ==> is_word(#[trigger] words[i]),
    ensures
        joined(words).len() > 0,
        joined(words)[0] == words[0][0],
        joined(words).last() == words.last().last(),
    decreases words.len(),
{
    assert(is_word(words[0]));
    if words.len() > 1 {
        let others = words.drop_first();
        assert forall|i: int| 0 <= i < others.len() implies is_word(#[trigger] others[i]) by {
            assert(others[i] == words[i + 1]);
        }
        lemma_joined_ends(others);
        assert(others.last() == words.last());
    }
}

/// A line of joined words that starts and ends on characters that are no
/// white space, followed by CR LF, splits into its words.
pub proof fn law_header_fields_of_joined(words: Seq<Seq<char>>)
    requires
        words.len() > 0,
        forall|i: int| 0 <= i < words.len() ==> is_word(#[trigger] words[i]),
        !is_unicode_space(words[0][0]),
        !is_unicode_space(words.last().last()),
    ensures
        header_fields(joined(words) + "\r\n"@) == words,
{
    reveal_strlit("\r\n");
    let body = joined(words);
    let line = body + "\r\n"@;
    lemma_joined_ends(words);
    assert(line[0] == body[0]);
    assert(trim_start(line) == line);
    assert(line.last() == '\n');
    assert(line.drop_last() =~= body + seq!['\r']);
    assert(line.drop_last().last() == '\r');
    assert(line.drop_last().drop_last() =~= body);
    assert(trim_end(body) == body);
    assert(trim_end(line.drop_last()) == trim_end(body));
    assert(trim_end(line) == trim_end(line.drop_last()));
    assert(trimmed(line) == body);
    law_fields_of_joined(words);
}

/// The digits of a number form a word, and none of them is white space.
pub proof fn lemma_digits_are_a_word(n: nat)
    ensures
        is_word(decimal_digits(n)),
        !is_unicode_space(decimal_digits(n).last()),
{
    lemma_decimal_digits(n);
    let text = decimal_digits(n);
    assert forall|i: int| 0 <= i < text.len() implies !is_ascii_space(#[trigger] text[i]) by {
        assert(is_digit(text[i]));
    }
    assert(is_digit(text.last()));
}

/// The decimal text of a signed number forms a word.
pub proof fn lemma_signed_digits_are_a_word(v: int)
    ensures
        is_word(signed_digits(v)),
{
    let text = signed_digits(v);
    if v < 0 {
        let digits = decimal_digits((-v) as nat);
        lemma_digits_are_a_word((-v) as nat);
        assert forall|i: int| 0 <= i < text.len() implies !is_ascii_space(#[trigger] text[i]) by {
            if i > 0 {
                assert(text[i] == digits[i - 1]);
            }
        }
    } else {
        lemma_digits_are_a_word(v as nat);
    }
}

/// A text that is a verb up to the case of its letters is a word that starts
/// on a letter.
pub proof fn lemma_verb_is_a_word(verb: Seq<char>, name: Seq<char>)
    requires
        same_ignoring_ascii_case(verb, name),
        name == "set"@ || name == "get"@ || name == "add"@ || name == "replace"@,
    ensures
        is_word(verb),
        !is_unicode_space(verb[0]),
{
    reveal_strlit("set");
    reveal_strlit("get");
    reveal_strlit("add");
    reveal_strlit("replace");
    assert forall|i: int| 0 <= i < verb.len() implies !is_ascii_space(#[trigger] verb[i]) by {
        assert(ascii_lower(verb[i]) == ascii_lower(name[i]));
    }
    assert(ascii_lower(verb[0]) == ascii_lower(name[0]));
}

/// The header line of a write request splits into the fields it was made of.
pub proof fn lemma_write_header_fields(verb: Seq<char>, name: Seq<char>, command: SetAddCommandView)
    requires
        same_ignoring_ascii_case(verb, name),
        name == "set"@ || name == "add"@ || name == "replace"@,
        fits_header(command),
    ensures
        header_fields(write_header(verb, command)) == write_words(verb, command),
        set_add_of(write_words(verb, command)) == Some(command),
{
    let words = write_words(verb, command);
    lemma_verb_is_a_word(verb, name);
    lemma_digits_are_a_word(command.flags);
    lemma_signed_digits_are_a_word(command.expiry_date);
    lemma_digits_are_a_word(command.byte_count);
    reveal_strlit("noreply");
    assert(is_word("noreply"@));
    assert(!is_unicode_space("noreply"@.last()));
    assert forall|i: int| 0 <= i < words.len() implies is_word(#[trigger] words[i]) by {}
    law_header_fields_of_joined(words);
    law_unsigned_round_trip(command.flags);
    law_signed_round_trip(command.expiry_date);
    law_unsigned_round_trip(command.byte_count);
    assert(same_ignoring_ascii_case("noreply"@, "noreply"@));
    let parsed = set_add_of(words);
    assert(decimal_u16(words[2]) == Some(command.flags as u16));
    assert(decimal_i128(words[3]) == Some(command.expiry_date as i128));
    assert(decimal_u128(words[4]) == Some(command.byte_count as u128));
    assert(parsed is Some);
    assert(parsed->0.data_block =~= command.data_block);
}

/// A `set` header, with its verb in any case, is read as the request it was
/// written from.
pub proof fn law_set_header_parses(verb: Seq<char>, command: SetAddCommandView)
    requires
        same_ignoring_ascii_case(verb, "set"@),
        fits_header(command),
    ensures
        command_of(header_fields(write_header(verb, command))) == Some(CommandView::Put(command)),
{
    lemma_write_header_fields(verb, "set"@, command);
}

/// An `add` header, with its verb in any case, is read as the request it was
/// written from.
pub proof fn law_add_header_parses(verb: Seq<char>, command: SetAddCommandView)
    requires
        same_ignoring_ascii_case(verb, "add"@),
        fits_header(command),
    ensures
        command_of(header_fields(write_header(verb, command))) == Some(CommandView::Add(command)),
{
    lemma_write_header_fields(verb, "add"@, command);
    reveal_strlit("set");
    reveal_strlit("get");
    reveal_strlit("add");
    assert(ascii_lower(verb[0]) == ascii_lower("add"@[0]));
}

/// A `replace` header, with its verb in any case, is read as the request it
/// was written from.
pub proof fn law_replace_header_parses(verb: Seq<char>, command: SetAddCommandView)
    requires
        same_ignoring_ascii_case(verb, "replace"@),
        fits_header(command),
    ensures
        command_of(header_fields(write_header(verb, command))) == Some(
            CommandView::Replace(command),
        ),
{
    lemma_write_header_fields(verb, "replace"@, command);
    reveal_strlit("set");
    reveal_strlit("get");
    reveal_strlit("add");
    reveal_strlit("replace");
}

/// A `get` header, with its verb in any case, is read as a request for its
/// key.
pub proof fn law_get_header_parses(verb: Seq<char>, key: Seq<char>)
    requires
        same_ignoring_ascii_case(verb, "get"@),
        is_word(key),
        !is_unicode_space(key.last()),
    ensures
        command_of(header_fields(get_header(verb, key))) == Some(CommandView::Get(key)),
{
    let words = seq![verb, key];
    lemma_verb_is_a_word(verb, "get"@);
    assert forall|i: int| 0 <= i < words.len() implies is_word(#[trigger] words[i]) by {}
    law_header_fields_of_joined(words);
    reveal_strlit("set");
    reveal_strlit("get");
    assert(ascii_lower(verb[0]) == ascii_lower("get"@[0]));
}

} // verus!
