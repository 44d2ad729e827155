//! Configuration files: lines of `key=value`.

use vstd::prelude::*;

verus! {

/// The entry that a line holds: what stands before its first `=` and what
/// stands after it. A line without `=` holds none.
pub open spec fn entry_of(line: Seq<char>) -> Option<(Seq<char>, Seq<char>)> {
    match line.index_of_first('=') {
        Some(at) => Some((line.take(at), line.skip(at + 1))),
        None => None,
    }
}

/// The first line of a text, without its line break: the text up to its
/// first line feed, less a carriage return before that line feed.
pub open spec fn first_line(text: Seq<char>) -> Seq<char> {
    match text.index_of_first('\n') {
        Some(end) => {
            let line = text.take(end);
            if line.len() > 0 && line.last() == '\r' {
                line.drop_last()
            } else {
                line
            }
        },
        None => text,
    }
}

/// What follows the first line of a text and its line break.
pub open spec fn after_first_line(text: Seq<char>) -> Seq<char> {
    match text.index_of_first('\n') {
        Some(end) => text.skip(end + 1),
        None => Seq::empty(),
    }
}

/// The entries of a configuration text, line by line.
pub open spec fn entries_of(text: Seq<char>) -> Seq<(Seq<char>, Seq<char>)>
    decreases text.len(),
{
    if text.len() == 0 {
        Seq::empty()
    } else {
        proof {
            text.index_of_first_ensures('\n');
        }
        (match entry_of(first_line(text)) {
            Some(entry) => seq![entry],
            None => seq![],
        }) + entries_of(after_first_line(text))
    }
}

/// The texts of a list of entries.
pub open spec fn pairs(config: Vec<(String, String)>) -> Seq<(Seq<char>, Seq<char>)> {
    config@.map_values(|entry: (String, String)| (entry.0@, entry.1@))
}

/// Whether an entry of the list stands under the key.
pub open spec fn has_key(entries: Seq<(Seq<char>, Seq<char>)>, key: Seq<char>) -> bool {
    exists|at: int| #![trigger entries[at]] 0 <= at < entries.len() && entries[at].0 == key
}

/// The value under a key: that of the last entry under the key, if there is
/// one. It is the value among the entries after the first, and else that of
/// the first entry if it stands under the key.
pub open spec fn value_of(entries: Seq<(Seq<char>, Seq<char>)>, key: Seq<char>) -> Option<
    Seq<char>,
>
    decreases entries.len(),
{
    if entries.len() == 0 {
        None
    } else {
        match value_of(entries.drop_first(), key) {
            Some(value) => Some(value),
            None => if entries[0].0 == key {
                Some(entries[0].1)
            } else {
                None
            },
        }
    }
}

/// The table of a list of entries: of the entries under one key the last one
/// stays, and the entries that stay keep their order.
pub open spec fn table_of(entries: Seq<(Seq<char>, Seq<char>)>) -> Seq<(Seq<char>, Seq<char>)>
    decreases entries.len(),
{
    if entries.len() == 0 {
        Seq::empty()
    } else if has_key(entries.drop_first(), entries[0].0) {
        table_of(entries.drop_first())
    } else {
        seq![entries[0]] + table_of(entries.drop_first())
    }
}

/// The first place of a mark in a text is the place where it stands with no
/// mark before it.
proof fn first_mark_is_at(text: Seq<char>, mark: char, at: int)
    requires
        0 <= at < text.len(),
        text[at] == mark,
        forall|before: int| 0 <= before < at ==> text[before] != mark,
    ensures
        text.index_of_first(mark) == Some(at),
{
    text.index_of_first_ensures(mark);
}

/// A text that a mark does not stand in has no first place of it.
proof fn no_mark_in(text: Seq<char>, mark: char)
    requires
        forall|at: int| 0 <= at < text.len() ==> text[at] != mark,
    ensures
        text.index_of_first(mark) is None,
{
    text.index_of_first_ensures(mark);
}

/// The characters of a text.
fn chars_of(text: &str) -> (chars: Vec<char>)
    ensures
        chars@ == text@,
{
    let mut chars: Vec<char> = Vec::new();
    for c in iter: text.chars()
        invariant
            iter.seq() == text@,
            chars@ == text@.take(iter.index() as int),
    {
        chars.push(c);
    }
    chars
}

/// Reads a configuration text: one entry for each line that holds a `=`, in
/// the order of the lines. The key is what stands before the line's first
/// `=`, the value what stands after it, both as they are. Lines end at a
/// line feed or at a carriage return with a line feed, and the last line
/// needs no line break. Any other line is passed over.
pub fn parse_config(contents: &str) -> (config: Vec<(String, String)>)
    ensures
        pairs(config) == entries_of(contents@),
{
    let chars = chars_of(contents);
    let length = chars.len();
    let mut config: Vec<(String, String)> = Vec::new();
    let mut start: usize = 0;
    assert(contents@.skip(0) == contents@);
    while start < length
        invariant
            chars@ == contents@,
            length == chars.len(),
            start <= length,
            entries_of(contents@) == pairs(config) + entries_of(contents@.skip(start as int)),
        decreases length - start,
    {
        let ghost rest = contents@.skip(start as int);
        let mut end = start;
        let mut sign: Option<usize> = None;
        while end < length && chars[end] != '\n'
            invariant
                chars@ == contents@,
                length == chars.len(),
                start <= end <= length,
                forall|at: int| start <= at < end ==> chars[at] != '\n',
                match sign {
                    Some(at) => {
                        &&& start <= at < end
                        &&& chars[at as int] == '='
                        &&& forall|before: int| start <= before < at ==> chars[before] != '='
                    },
                    None => forall|at: int| start <= at < end ==> chars[at] != '=',
                },
            decreases length - end,
        {
            if sign.is_none() && chars[end] == '=' {
                sign = Some(end);
            }
            end += 1;
        }
        let stop = if end < length && start < end && chars[end - 1] == '\r' {
            end - 1
        } else {
            end
        };
        let next = if end < length {
            end + 1
        } else {
            length
        };
        proof {
            // The line just scanned is the first line of what was left.
            if end < length {
                first_mark_is_at(rest, '\n', end - start);
            } else {
                no_mark_in(rest, '\n');
            }
            assert(first_line(rest) == contents@.subrange(start as int, stop as int));
            assert(after_first_line(rest) == contents@.skip(next as int));
        }
        let ghost line = contents@.subrange(start as int, stop as int);
        match sign {
            Some(at) => {
                let key = contents.substring_char(start, at).to_owned();
                let value = contents.substring_char(at + 1, stop).to_owned();
                proof {
                    first_mark_is_at(line, '=', at - start);
                    assert(line.take(at - start) == key@);
                    assert(line.skip(at - start + 1) == value@);
                }
                config.push((key, value));
            },
            None => {
                proof {
                    no_mark_in(line, '=');
                }
            },
        }
        start = next;
    }
    config
}

/// A key has a value where an entry stands under it, and nowhere else.
pub proof fn value_where_key(entries: Seq<(Seq<char>, Seq<char>)>, key: Seq<char>)
    ensures
        value_of(entries, key) is Some <==> has_key(entries, key),
    decreases entries.len(),
{
    if entries.len() > 0 {
        let rest = entries.drop_first();
        value_where_key(rest, key);
        if has_key(rest, key) {
            // An entry of the rest is an entry of the whole, one place on.
            let at = choose|at: int| #![trigger rest[at]] 0 <= at < rest.len() && rest[at].0 == key;
            assert(entries[at + 1].0 == key);
        }
        if has_key(entries, key) {
            let at = choose|at: int|
                #![trigger entries[at]]
                0 <= at < entries.len() && entries[at].0 == key;
            if at > 0 {
                assert(rest[at - 1].0 == key);
            }
        }
    }
}

/// The value under a key is the value of the last entry under that key.
pub proof fn value_is_of_last_entry(entries: Seq<(Seq<char>, Seq<char>)>, key: Seq<char>)
    requires
        has_key(entries, key),
    ensures
        exists|at: int|
            #![trigger entries[at]]
            {
                &&& 0 <= at < entries.len()
                &&& entries[at].0 == key
                &&& value_of(entries, key) == Some(entries[at].1)
                &&& forall|later: int|
                    #![trigger entries[later]]
                    at < later < entries.len() ==> entries[later].0 != key
            },
    decreases entries.len(),
{
    let rest = entries.drop_first();
    value_where_key(rest, key);
    if has_key(rest, key) {
        value_is_of_last_entry(rest, key);
        let at = choose|at: int|
            #![trigger rest[at]]
            {
                &&& 0 <= at < rest.len()
                &&& rest[at].0 == key
                &&& value_of(rest, key) == Some(rest[at].1)
                &&& forall|later: int|
                    #![trigger rest[later]]
                    at < later < rest.len() ==> rest[later].0 != key
            };
        // The last entry under the key in the rest is the last one in the whole.
        assert forall|later: int|
            #![trigger entries[later]]
            at + 1 < later < entries.len() implies entries[later].0 != key by {
            assert(rest[later - 1].0 != key);
        }
        assert(entries[at + 1].0 == key);
    } else {
        // No later entry stands under the key, so the first one does.
        assert forall|later: int|
            #![trigger entries[later]]
            0 < later < entries.len() implies entries[later].0 != key by {
            assert(rest[later - 1] == entries[later]);
        }
        assert(entries[0].0 == key);
    }
}

/// The table has the keys of the entries, and no other.
pub proof fn table_has_the_keys(entries: Seq<(Seq<char>, Seq<char>)>, key: Seq<char>)
    ensures
        has_key(table_of(entries), key) <==> has_key(entries, key),
{
    value_where_key(entries, key);
    value_where_key(table_of(entries), key);
    table_keeps_values(entries, key);
}

/// The table holds under each key the value that the entries give it.
pub proof fn table_keeps_values(entries: Seq<(Seq<char>, Seq<char>)>, key: Seq<char>)
    ensures
        value_of(table_of(entries), key) == value_of(entries, key),
    decreases entries.len(),
{
    if entries.len() > 0 {
        let rest = entries.drop_first();
        table_keeps_values(rest, key);
        value_where_key(rest, key);
        value_where_key(rest, entries[0].0);
        if !has_key(rest, entries[0].0) {
            let table = seq![entries[0]] + table_of(rest);
            assert(table.drop_first() == table_of(rest));
        }
    }
}

/// No key stands twice in the table.
pub proof fn table_has_no_key_twice(entries: Seq<(Seq<char>, Seq<char>)>)
    ensures
        forall|first: int, second: int|
            0 <= first < second < table_of(entries).len() ==> table_of(entries)[first].0
                != table_of(entries)[second].0,
    decreases entries.len(),
{
    if entries.len() > 0 {
        let rest = entries.drop_first();
        table_has_no_key_twice(rest);
        if !has_key(rest, entries[0].0) {
            table_has_the_keys(rest, entries[0].0);
            let table = seq![entries[0]] + table_of(rest);
            // The first key is none of the others, and the others differ.
            assert forall|first: int, second: int|
                0 <= first < second < table.len() implies table[first].0 != table[second].0 by {
                assert(table[second] == table_of(rest)[second - 1]);
                if first > 0 {
                    assert(table[first] == table_of(rest)[first - 1]);
                }
            }
        }
    }
}

/// Whether an entry after the one at `at` stands under the same key.
fn key_comes_again(entries: &Vec<(String, String)>, at: usize) -> (again: bool)
    requires
        at < entries.len(),
    ensures
        again == has_key(pairs(*entries).skip(at + 1), entries[at as int].0@),
{
    let ghost later_entries = pairs(*entries).skip(at + 1);
    let mut later = at + 1;
    while later < entries.len()
        invariant
            at < later <= entries.len(),
            later_entries == pairs(*entries).skip(at + 1),
            forall|seen: int| at < seen < later ==> entries[seen].0@ != entries[at as int].0@,
        decreases entries.len() - later,
    {
        if entries[later].0 == entries[at].0 {
            assert(later_entries[later - at - 1].0 == entries[at as int].0@);
            return true;
        }
        later += 1;
    }
    assert forall|found: int| 0 <= found < later_entries.len() implies #[trigger] later_entries[found].0
        != entries[at as int].0@ by {
        assert(later_entries[found] == pairs(*entries)[found + at + 1]);
    }
    false
}

/// Reads a configuration text into a table: one entry for each key, with the
/// value of the last line under that key, as a map filled line by line would
/// hold it. The entries that stay keep the order of their lines.
pub fn config_table(contents: &str) -> (table: Vec<(String, String)>)
    ensures
        pairs(table) == table_of(entries_of(contents@)),
        forall|first: int, second: int|
            0 <= first < second < table.len() ==> pairs(table)[first].0 != pairs(table)[second].0,
        forall|key: Seq<char>| #[trigger]
            value_of(pairs(table), key) == value_of(entries_of(contents@), key),
{
    let entries = parse_config(contents);
    let mut table: Vec<(String, String)> = Vec::new();
    let mut at: usize = 0;
    assert(pairs(entries).skip(0) == pairs(entries));
    while at < entries.len()
        invariant
            at <= entries.len(),
            table_of(pairs(entries)) == pairs(table) + table_of(pairs(entries).skip(at as int)),
        decreases entries.len() - at,
    {
        let ghost rest = pairs(entries).skip(at as int);
        assert(rest.drop_first() == pairs(entries).skip(at + 1));
        if !key_comes_again(&entries, at) {
            let key = entries[at].0.clone();
            let value = entries[at].1.clone();
            let ghost before = pairs(table);
            table.push((key, value));
            assert(pairs(table) == before.push(rest[0]));
        }
        at += 1;
    }
    proof {
        table_has_no_key_twice(entries_of(contents@));
        assert forall|key: Seq<char>| #[trigger]
            value_of(pairs(table), key) == value_of(entries_of(contents@), key) by {
            table_keeps_values(entries_of(contents@), key);
        }
    }
    table
}

} // verus!
