use vstd::prelude::*;

use crate::actuator::CommandBatch;
use crate::data::RawValue;
use crate::poller::TelemetryMessage;

verus! {

/// The JSON text for one boolean level.
pub open spec fn json_bool(b: bool) -> Seq<char> {
    if b {
        "true"@
    } else {
        "false"@
    }
}

/// The lower-case hexadecimal digit for a value below 16.
pub open spec fn hex_digit(d: nat) -> char {
    if d == 0 {
        '0'
    } else if d == 1 {
        '1'
    } else if d == 2 {
        '2'
    } else if d == 3 {
        '3'
    } else if d == 4 {
        '4'
    } else if d == 5 {
        '5'
    } else if d == 6 {
        '6'
    } else if d == 7 {
        '7'
    } else if d == 8 {
        '8'
    } else if d == 9 {
        '9'
    } else if d == 10 {
        'a'
    } else if d == 11 {
        'b'
    } else if d == 12 {
        'c'
    } else if d == 13 {
        'd'
    } else if d == 14 {
        'e'
    } else {
        'f'
    }
}

/// The value of a lower-case hexadecimal digit; 16 for any other character.
pub open spec fn hex_val(c: char) -> nat {
    if c == '0' {
        0
    } else if c == '1' {
        1
    } else if c == '2' {
        2
    } else if c == '3' {
        3
    } else if c == '4' {
        4
    } else if c == '5' {
        5
    } else if c == '6' {
        6
    } else if c == '7' {
        7
    } else if c == '8' {
        8
    } else if c == '9' {
        9
    } else if c == 'a' {
        10
    } else if c == 'b' {
        11
    } else if c == 'c' {
        12
    } else if c == 'd' {
        13
    } else if c == 'e' {
        14
    } else if c == 'f' {
        15
    } else {
        16
    }
}

/// How one character of a pin name is written inside a JSON string: a quote
/// or backslash gets a backslash escape, a control character a `\u00` escape,
/// and every other character stands as itself.
pub open spec fn esc_char(c: char) -> Seq<char> {
    if c == '"' {
        seq!['\\', '"']
    } else if c == '\\' {
        seq!['\\', '\\']
    } else if (c as u32) < 32 {
        seq!['\\', 'u', '0', '0'] + seq![hex_digit((c as u32 / 16) as nat)] + seq![hex_digit(
            (c as u32 % 16) as nat,
        )]
    } else {
        seq![c]
    }
}

/// A pin name as written inside a JSON string, character by character.
pub open spec fn esc_name(s: Seq<char>) -> Seq<char>
    decreases s.len(),
{
    if s.len() == 0 {
        Seq::empty()
    } else {
        esc_char(s[0]) + esc_name(s.drop_first())
    }
}

/// The JSON text for one telemetry entry: the quoted, escaped pin name, a
/// colon, and the level.
pub open spec fn json_field(e: (String, bool)) -> Seq<char> {
    "\""@ + esc_name(e.0@) + "\":"@ + json_bool(e.1)
}

/// The JSON text for every entry after the first, each with its leading
/// comma.
pub open spec fn json_rest(entries: Seq<(String, bool)>) -> Seq<char>
    decreases entries.len(),
{
    if entries.len() == 0 {
        Seq::empty()
    } else {
        ","@ + json_field(entries[0]) + json_rest(entries.drop_first())
    }
}

/// The JSON text for the comma-separated entry list.
pub open spec fn json_fields(entries: Seq<(String, bool)>) -> Seq<char> {
    if entries.len() == 0 {
        Seq::empty()
    } else {
        json_field(entries[0]) + json_rest(entries.drop_first())
    }
}

/// The JSON object a telemetry message is published as: pin names mapped to
/// boolean levels, in entry order.
pub open spec fn json_object(entries: Seq<(String, bool)>) -> Seq<char> {
    "{"@ + json_fields(entries) + "}"@
}

proof fn lemma_json_rest_snoc(entries: Seq<(String, bool)>, e: (String, bool))
    ensures
        json_rest(entries.push(e)) == json_rest(entries) + ","@ + json_field(e),
    decreases entries.len(),
{
    if entries.len() == 0 {
        assert(entries =~= Seq::<(String, bool)>::empty());
        assert(entries.push(e)[0] == e);
        assert(entries.push(e).drop_first() =~= entries);
        assert(json_rest(entries) == Seq::<char>::empty());
        assert(json_rest(entries.push(e)) =~= json_rest(entries) + ","@ + json_field(e));
    } else {
        assert(entries.push(e)[0] == entries[0]);
        assert(entries.push(e).drop_first() =~= entries.drop_first().push(e));
        lemma_json_rest_snoc(entries.drop_first(), e);
        assert(json_rest(entries.push(e)) =~= json_rest(entries) + ","@ + json_field(e));
    }
}

proof fn lemma_json_fields_snoc(entries: Seq<(String, bool)>, e: (String, bool))
    requires
        entries.len() > 0,
    ensures
        json_fields(entries.push(e)) == json_fields(entries) + ","@ + json_field(e),
{
    assert(entries.push(e)[0] == entries[0]);
    assert(entries.push(e).drop_first() =~= entries.drop_first().push(e));
    lemma_json_rest_snoc(entries.drop_first(), e);
    assert(json_fields(entries.push(e)) =~= json_fields(entries) + ","@ + json_field(e));
}

/// Relies on std's String::push: appends the one given character.
#[verifier::external_body]
fn push_char(s: &mut String, c: char)
    ensures
        final(s)@ == old(s)@ + seq![c],
{
    s.push(c);
}

/// The lower-case hexadecimal digit character.
fn hex_char(d: u8) -> (c: char)
    requires
        d < 16,
    ensures
        c == hex_digit(d as nat),
{
    match d {
        0 => '0',
        1 => '1',
        2 => '2',
        3 => '3',
        4 => '4',
        5 => '5',
        6 => '6',
        7 => '7',
        8 => '8',
        9 => '9',
        10 => 'a',
        11 => 'b',
        12 => 'c',
        13 => 'd',
        14 => 'e',
        _ => 'f',
    }
}

/// Append one pin-name character, escaped exactly as `esc_char` prescribes.
fn push_escaped_char(s: &mut String, c: char)
    ensures
        final(s)@ == old(s)@ + esc_char(c),
{
    if c == '"' {
        s.append("\\\"");
        proof {
            reveal_strlit("\\\"");
            assert(final(s)@ =~= old(s)@ + esc_char(c));
        }
    } else if c == '\\' {
        s.append("\\\\");
        proof {
            reveal_strlit("\\\\");
            assert(final(s)@ =~= old(s)@ + esc_char(c));
        }
    } else if (c as u32) < 32 {
        let code = c as u32;
        s.append("\\u00");
        push_char(s, hex_char((code / 16) as u8));
        push_char(s, hex_char((code % 16) as u8));
        proof {
            reveal_strlit("\\u00");
            assert(final(s)@ =~= old(s)@ + esc_char(c));
        }
    } else {
        push_char(s, c);
        proof {
            assert(final(s)@ =~= old(s)@ + esc_char(c));
        }
    }
}

proof fn lemma_esc_name_snoc(s: Seq<char>, c: char)
    ensures
        esc_name(s.push(c)) == esc_name(s) + esc_char(c),
    decreases s.len(),
{
    if s.len() == 0 {
        assert(s =~= Seq::<char>::empty());
        assert(s.push(c)[0] == c);
        assert(s.push(c).drop_first() =~= s);
        assert(esc_name(s) == Seq::<char>::empty());
        assert(esc_name(s.push(c)) =~= esc_name(s) + esc_char(c));
    } else {
        assert(s.push(c)[0] == s[0]);
        assert(s.push(c).drop_first() =~= s.drop_first().push(c));
        lemma_esc_name_snoc(s.drop_first(), c);
        assert(esc_name(s.push(c)) =~= esc_name(s) + esc_char(c));
    }
}

/// Append a pin name with every character escaped as JSON requires.
fn append_escaped(s: &mut String, name: &String)
    ensures
        final(s)@ == old(s)@ + esc_name(name@),
{
    let ghost base = s@;
    let n = name.as_str().unicode_len();
    let mut i: usize = 0;
    proof {
        assert(name@.take(0) =~= Seq::<char>::empty());
        assert(s@ =~= base + esc_name(name@.take(0)));
    }
    while i < n
        invariant
            n == name@.len(),
            i <= n,
            s@ == base + esc_name(name@.take(i as int)),
        decreases n - i,
    {
        let c = name.as_str().get_char(i);
        push_escaped_char(s, c);
        proof {
            lemma_esc_name_snoc(name@.take(i as int), name@[i as int]);
            assert(name@.take(i as int + 1) =~= name@.take(i as int).push(name@[i as int]));
            assert(s@ =~= base + esc_name(name@.take(i as int + 1)));
        }
        i = i + 1;
    }
    proof {
        assert(name@.take(n as int) =~= name@);
    }
}

/// Serialize a telemetry message as the JSON object `json_object` prescribes.
pub fn encode_telemetry(msg: &TelemetryMessage) -> (s: String)
    ensures
        s@ == json_object(msg.entries@),
{
    let ghost entries = msg.entries@;
    let mut s = String::from_str("{");
    let mut k: usize = 0;
    proof {
        assert(entries.take(0) =~= Seq::<(String, bool)>::empty());
        assert(s@ =~= "{"@ + json_fields(entries.take(0)));
    }
    while k < msg.entries.len()
        invariant
            k <= entries.len(),
            msg.entries@ == entries,
            s@ == "{"@ + json_fields(entries.take(k as int)),
        decreases entries.len() - k,
    {
        let ghost prefix = entries.take(k as int);
        if k > 0 {
            s.append(",");
        }
        s.append("\"");
        append_escaped(&mut s, &msg.entries[k].0);
        s.append("\":");
        if msg.entries[k].1 {
            s.append("true");
        } else {
            s.append("false");
        }
        proof {
            assert(entries.take(k as int + 1) =~= prefix.push(entries[k as int]));
            if k == 0 {
                assert(prefix.push(entries[0])[0] == entries[0]);
                assert(prefix.push(entries[0]).drop_first() =~= Seq::<(String, bool)>::empty());
                assert(s@ =~= "{"@ + json_fields(entries.take(k as int + 1)));
            } else {
                lemma_json_fields_snoc(prefix, entries[k as int]);
                assert(s@ =~= "{"@ + json_fields(entries.take(k as int + 1)));
            }
        }
        k = k + 1;
    }
    s.append("}");
    proof {
        assert(entries.take(entries.len() as int) =~= entries);
        assert(s@ =~= json_object(entries));
    }
    s
}

/// The view of one telemetry entry: the pin name's characters and the level.
pub open spec fn entry_view(e: (String, bool)) -> (Seq<char>, bool) {
    (e.0@, e.1)
}

/// The view of a telemetry entry list.
pub open spec fn entries_view(entries: Seq<(String, bool)>) -> Seq<(Seq<char>, bool)> {
    entries.map_values(|e: (String, bool)| entry_view(e))
}

/// Split the text after an opening quote into the string's contents (the
/// escapes of quotes, backslashes and `\u00`-coded characters resolved) and
/// the text after the closing quote; `None` when no closing quote follows or
/// an escape is not one the encoder writes.
pub open spec fn json_parse_name(s: Seq<char>) -> Option<(Seq<char>, Seq<char>)>
    decreases s.len(),
{
    if s.len() == 0 {
        None
    } else if s[0] == '"' {
        Some((Seq::empty(), s.drop_first()))
    } else if s[0] == '\\' {
        if s.len() >= 2 && (s[1] == '"' || s[1] == '\\') {
            match json_parse_name(s.skip(2)) {
                Some(p) => Some((seq![s[1]] + p.0, p.1)),
                None => None,
            }
        } else if s.len() >= 6 && s[1] == 'u' && s[2] == '0' && s[3] == '0' && hex_val(s[4]) < 16
            && hex_val(s[5]) < 16 {
            match json_parse_name(s.skip(6)) {
                Some(p) => Some(
                    (seq![(((16 * hex_val(s[4]) + hex_val(s[5])) as u32) as char)] + p.0, p.1),
                ),
                None => None,
            }
        } else {
            None
        }
    } else {
        match json_parse_name(s.drop_first()) {
            Some(p) => Some((seq![s[0]] + p.0, p.1)),
            None => None,
        }
    }
}

/// Parse the comma-separated `"name":bool` fields between an object's
/// braces. `n` bounds the number of fields and only forces termination.
pub open spec fn json_parse_fields(s: Seq<char>, n: nat) -> Option<Seq<(Seq<char>, bool)>>
    decreases n,
{
    if s.len() == 0 {
        Some(Seq::empty())
    } else if n == 0 {
        None
    } else if s[0] != '"' {
        None
    } else {
        match json_parse_name(s.drop_first()) {
            None => None,
            Some(p) => {
                let name = p.0;
                let rest = p.1;
                if rest.len() == 0 || rest[0] != ':' {
                    None
                } else {
                    let after = rest.drop_first();
                    let value = (if after.take(4) == "true"@ {
                        Some((true, after.skip(4)))
                    } else if after.take(5) == "false"@ {
                        Some((false, after.skip(5)))
                    } else {
                        None
                    });
                    match value {
                        None => None,
                        Some(v) => {
                            let b = v.0;
                            let tail = v.1;
                            if tail.len() == 0 {
                                Some(seq![(name, b)])
                            } else if tail[0] == ',' {
                                match json_parse_fields(tail.drop_first(), (n - 1) as nat) {
                                    Some(more) => Some(seq![(name, b)] + more),
                                    None => None,
                                }
                            } else {
                                None
                            }
                        },
                    }
                }
            },
        }
    }
}

/// Parse a JSON object of booleans: what a subscriber does with a published
/// telemetry message.
pub open spec fn json_parse_object(s: Seq<char>) -> Option<Seq<(Seq<char>, bool)>> {
    if s.len() >= 2 && s[0] == '{' && s[s.len() - 1] == '}' {
        json_parse_fields(s.subrange(1, s.len() - 1), s.len() as nat)
    } else {
        None
    }
}

proof fn lemma_json_parse_name_round_trip(name: Seq<char>, tail: Seq<char>)
    ensures
        json_parse_name(esc_name(name) + seq!['"'] + tail) == Some((name, tail)),
    decreases name.len(),
{
    let s = esc_name(name) + seq!['"'] + tail;
    if name.len() == 0 {
        assert(esc_name(name) =~= Seq::<char>::empty());
        assert(s[0] == '"');
        assert(s.drop_first() =~= tail);
        assert(json_parse_name(s) == Some((Seq::<char>::empty(), tail)));
        assert(name =~= Seq::<char>::empty());
    } else {
        let c = name[0];
        assert(esc_name(name) == esc_char(c) + esc_name(name.drop_first()));
        let s_rest = esc_name(name.drop_first()) + seq!['"'] + tail;
        lemma_json_parse_name_round_trip(name.drop_first(), tail);
        if c == '"' {
            assert(s[0] == '\\');
            assert(s.len() >= 2);
            assert(s[1] == '"');
            assert(s.skip(2) =~= s_rest);
            assert(seq![s[1]] + name.drop_first() =~= name);
        } else if c == '\\' {
            assert(s[0] == '\\');
            assert(s.len() >= 2);
            assert(s[1] == '\\');
            assert(s.skip(2) =~= s_rest);
            assert(seq![s[1]] + name.drop_first() =~= name);
        } else if (c as u32) < 32 {
            let hi = (c as u32 / 16) as nat;
            let lo = (c as u32 % 16) as nat;
            assert(s.len() >= 6);
            assert(s[0] == '\\');
            assert(s[1] == 'u');
            assert(s[2] == '0');
            assert(s[3] == '0');
            assert(s[4] == hex_digit(hi));
            assert(s[5] == hex_digit(lo));
            assert(hex_val(hex_digit(hi)) == hi);
            assert(hex_val(hex_digit(lo)) == lo);
            assert(16 * hi + lo == c as u32);
            vstd::utf8::char_u32_cast(c, c as u32);
            assert((((16 * hex_val(s[4]) + hex_val(s[5])) as u32) as char) == c);
            assert(s.skip(6) =~= s_rest);
            assert(seq![c] + name.drop_first() =~= name);
        } else {
            assert(s[0] == c);
            assert(c != '"' && c != '\\');
            assert(s.drop_first() =~= s_rest);
            assert(seq![c] + name.drop_first() =~= name);
        }
    }
}

proof fn lemma_json_rest_len(entries: Seq<(String, bool)>)
    ensures
        json_rest(entries).len() >= entries.len(),
    decreases entries.len(),
{
    reveal_strlit(",");
    if entries.len() > 0 {
        lemma_json_rest_len(entries.drop_first());
    }
}

proof fn lemma_json_fields_len(entries: Seq<(String, bool)>)
    ensures
        json_fields(entries).len() >= entries.len(),
{
    reveal_strlit("\"");
    if entries.len() > 0 {
        lemma_json_rest_len(entries.drop_first());
    }
}

proof fn lemma_json_parse_fields_round_trip(entries: Seq<(String, bool)>, n: nat)
    requires
        n >= entries.len(),
    ensures
        json_parse_fields(json_fields(entries), n) == Some(entries_view(entries)),
    decreases entries.len(),
{
    reveal_strlit("\"");
    reveal_strlit("\":");
    reveal_strlit("true");
    reveal_strlit("false");
    reveal_strlit(",");
    if entries.len() == 0 {
        assert(json_fields(entries) =~= Seq::<char>::empty());
        assert(entries_view(entries) =~= Seq::<(Seq<char>, bool)>::empty());
    } else {
        let e0 = entries[0];
        let name = e0.0@;
        let b = e0.1;
        let rest = entries.drop_first();
        let s = json_fields(entries);
        assert(s == json_field(e0) + json_rest(rest));
        let tail = seq![':'] + json_bool(b) + json_rest(rest);
        assert(s[0] == '"');
        assert(s.drop_first() =~= esc_name(name) + seq!['"'] + tail);
        lemma_json_parse_name_round_trip(name, tail);
        assert(json_parse_name(s.drop_first()) == Some((name, tail)));
        assert(tail[0] == ':');
        let after = tail.drop_first();
        assert(after =~= json_bool(b) + json_rest(rest));
        let tail2 = json_rest(rest);
        if b {
            assert(after.take(4) =~= "true"@);
            assert(after.skip(4) =~= tail2);
        } else {
            assert(after.take(4)[0] == 'f');
            assert("true"@[0] == 't');
            assert(after.take(4) != "true"@);
            assert(after.take(5) =~= "false"@);
            assert(after.skip(5) =~= tail2);
        }
        if rest.len() == 0 {
            assert(tail2 =~= Seq::<char>::empty());
            assert(json_parse_fields(s, n) == Some(seq![(name, b)]));
            assert(entries_view(entries) =~= seq![(name, b)]);
        } else {
            assert(tail2 =~= ","@ + json_fields(rest));
            assert(tail2[0] == ',');
            assert(tail2.drop_first() =~= json_fields(rest));
            lemma_json_parse_fields_round_trip(rest, (n - 1) as nat);
            assert(json_parse_fields(s, n) == Some(seq![(name, b)] + entries_view(rest)));
            assert(entries_view(entries) =~= seq![(name, b)] + entries_view(rest));
        }
    }
}

/// Round trip: a telemetry message rendered as a JSON object and decoded
/// again yields exactly the source mapping of pin names to levels, whatever
/// characters the names hold: quotes, backslashes and control characters are
/// escaped on the way out and resolved again on the way in.
pub proof fn lemma_telemetry_round_trip(entries: Seq<(String, bool)>)
    ensures
        json_parse_object(json_object(entries)) == Some(entries_view(entries)),
{
    reveal_strlit("{");
    reveal_strlit("}");
    let s = json_object(entries);
    assert(s[0] == '{');
    assert(s[s.len() - 1] == '}');
    lemma_json_fields_len(entries);
    assert(s.subrange(1, s.len() - 1) =~= json_fields(entries));
    lemma_json_parse_fields_round_trip(entries, s.len() as nat);
}

/// What a command payload decodes to: `Some` with the fields of the payload
/// parsed as a JSON object, each value reduced to its raw-value shape, or
/// `None` for any other payload. A function of the payload bytes alone:
/// serde_json holds an object's fields in a map ordered by key, and reduces
/// numbers by their value.
pub uninterp spec fn command_fields_of(payload: Seq<u8>) -> Option<Seq<(Seq<char>, RawValue)>>;

/// The view of a command batch's entries: each pin name's characters with its
/// raw value.
pub open spec fn command_entries_view(entries: Seq<(String, RawValue)>) -> Seq<
    (Seq<char>, RawValue),
> {
    entries.map_values(|e: (String, RawValue)| (e.0@, e.1))
}

/// Relies on serde_json::from_slice (a payload parses exactly when it is a
/// JSON object; its fields come out in the map's key order — entries of a
/// batch are independent, so the order carries no meaning) and on
/// serde_json::Number::as_i64 (`Some` exactly for integers representable in
/// `i64`). The result is a function of the payload bytes alone, named
/// `command_fields_of`.
#[verifier::external_body]
fn decode_fields(payload: &[u8]) -> (r: Option<Vec<(String, RawValue)>>)
    ensures
        (match command_fields_of(payload@) {
            Some(fs) => r matches Some(v) && command_entries_view(v@) == fs,
            None => r is None,
        }),
{
    match serde_json::from_slice::<serde_json::Map<String, serde_json::Value>>(payload) {
        Err(_) => None,
        Ok(m) => Some(
            m.into_iter()
                .map(|(k, v)| (k, match v {
                    serde_json::Value::Bool(b) => RawValue::Bool(b),
                    serde_json::Value::Number(n) => RawValue::Number(n.as_i64()),
                    serde_json::Value::String(s) => RawValue::Str(s),
                    _ => RawValue::Other,
                }))
                .collect(),
        ),
    }
}

/// Decode a command payload. A payload that parses as a JSON object yields a
/// batch holding exactly that object's fields (`command_fields_of`); any
/// other payload is malformed and yields `None`, which the caller logs and
/// drops. The values' meaning is judged entry by entry when the batch is
/// applied, never here.
pub fn decode_command(payload: &[u8]) -> (r: Option<CommandBatch>)
    ensures
        (match command_fields_of(payload@) {
            Some(fs) => r matches Some(b) && command_entries_view(b.entries@) == fs,
            None => r is None,
        }),
{
    match decode_fields(payload) {
        Some(entries) => Some(CommandBatch { entries }),
        None => None,
    }
}

} // verus!
