//! JSON values opened one level: what the relay looks at is plain, what it only
//! carries stays the compact text that `serde_json` writes.

use serde_json::Value;
use vstd::prelude::*;
use vstd::string::*;
use vstd::utf8::*;

use crate::text::{c_string, c_text, strict_text};

verus! {

/// A JSON value. Members of an array, and values the relay never opens, are held
/// as their compact text; see [`JsonModel::well_formed`] for what the texts must be.
#[derive(Debug, PartialEq, Eq)]
pub enum Json {
    /// `null`.
    Null,
    /// A string, without quotes and escapes.
    String(String),
    /// An array, by the compact text of each element.
    Array(Vec<String>),
    /// A boolean, a number or an object, by its compact text.
    Other(String),
}

/// A [`Json`] value over character sequences.
pub enum JsonModel {
    /// See [`Json::Null`].
    Null,
    /// See [`Json::String`].
    String(Seq<char>),
    /// See [`Json::Array`].
    Array(Seq<Seq<char>>),
    /// See [`Json::Other`].
    Other(Seq<char>),
}

impl DeepView for Json {
    type V = JsonModel;

    open spec fn deep_view(&self) -> JsonModel {
        match self {
            Json::Null => JsonModel::Null,
            Json::String(text) => JsonModel::String(text@),
            Json::Array(items) => JsonModel::Array(items.deep_view()),
            Json::Other(text) => JsonModel::Other(text@),
        }
    }
}

/// The texts of `items`, separated by commas.
pub open spec fn comma_joined(items: Seq<Seq<char>>) -> Seq<char>
    decreases items.len(),
{
    if items.len() == 0 {
        Seq::empty()
    } else if items.len() == 1 {
        items[0]
    } else {
        comma_joined(items.drop_last()) + seq![','] + items.last()
    }
}

impl JsonModel {
    /// The compact text of the value.
    pub open spec fn text(self) -> Seq<char> {
        match self {
            JsonModel::Null => "null"@,
            JsonModel::String(text) => json_quoted(text),
            JsonModel::Array(items) => seq!['['] + comma_joined(items) + seq![']'],
            JsonModel::Other(text) => text,
        }
    }

    /// What the held texts must be. An array holds texts of JSON values; what is not
    /// opened is the text of a boolean, a number or an object, and so never of a null,
    /// a string or an array, which have variants of their own.
    pub open spec fn well_formed(self) -> bool {
        match self {
            JsonModel::Null => true,
            JsonModel::String(_) => true,
            JsonModel::Array(items) => forall|i: int|
                0 <= i < items.len() ==> begins_value(#[trigger] items[i]),
            JsonModel::Other(text) => begins_unopened(text),
        }
    }
}

/// Whether `text` begins as a boolean, a number or an object does.
pub open spec fn begins_unopened(text: Seq<char>) -> bool {
    text.len() > 0 && (text[0] == '{' || text[0] == 't' || text[0] == 'f' || text[0] == '-' || '0'
        <= text[0] <= '9')
}

/// Whether `text` begins as a JSON value does.
pub open spec fn begins_value(text: Seq<char>) -> bool {
    begins_unopened(text) || (text.len() > 0 && (text[0] == 'n' || text[0] == '"' || text[0]
        == '['))
}

/// What `serde_json` reads from `text`: the value, or the wording of its error.
pub uninterp spec fn json_parsed(text: Seq<char>) -> Result<JsonModel, Seq<char>>;

/// Whether `text` reads as `value`.
pub open spec fn reads_as(text: Seq<char>, value: JsonModel) -> bool {
    json_parsed(text) is Ok && json_parsed(text)->Ok_0 == value
}

/// Whether `value`, written to a C string and read from it, is `value` again: its text
/// holds no NUL and reads as it. Every value that was read survives, and so does every
/// string; a value put together by hand may hold a text that is not JSON, or one nested
/// deeper than the reader goes.
pub open spec fn survives(value: JsonModel) -> bool {
    !value.text().contains('\0') && reads_as(value.text(), value)
}

/// A parse result taken by its model and the wording of its error.
pub open spec fn parse_model(parsed: Result<Json, String>) -> Result<JsonModel, Seq<char>> {
    match parsed {
        Ok(value) => Ok(value.deep_view()),
        Err(message) => Err(message@),
    }
}

/// `serde_json::from_str` into a value, opened one level, with members and
/// unopened values printed back by the value's own `Display`. The parse and the
/// wording of its error are named; stated of them is that `null` reads as null, that
/// every held text begins as the JSON it stands for, and that the compact text of
/// what was read holds no NUL and reads as the same value. The last is what the
/// crate's feature `float_roundtrip` promises of floats; integers, strings and key
/// order are kept without it, and the compact text is nested no deeper than the text
/// that was read.
#[verifier::external_body]
pub(crate) fn parse_json(text: &str) -> (parsed: Result<Json, String>)
    ensures
        parse_model(parsed) == json_parsed(text@),
        parsed is Ok ==> parse_model(parsed)->Ok_0.well_formed(),
        parsed is Ok ==> !parse_model(parsed)->Ok_0.text().contains('\0'),
        parsed is Ok ==> reads_as(
            parse_model(parsed)->Ok_0.text(),
            parse_model(parsed)->Ok_0,
        ),
        text@ == "null"@ ==> parsed is Ok && parse_model(parsed)->Ok_0 == JsonModel::Null,
{
    match serde_json::from_str(text) {
        Ok(Value::Null) => Ok(Json::Null),
        Ok(Value::String(value)) => Ok(Json::String(value)),
        Ok(Value::Array(items)) => Ok(Json::Array(items.iter().map(Value::to_string).collect())),
        Ok(other) => Ok(Json::Other(other.to_string())),
        Err(error) => Err(error.to_string()),
    }
}

/// The lower-case hexadecimal digit for `value`, which is below sixteen.
pub open spec fn hex_digit(value: int) -> char {
    if value < 10 {
        ('0' as int + value) as char
    } else {
        ('a' as int + value - 10) as char
    }
}

/// How `c` stands in a JSON string literal: quotes, backslashes and control
/// characters are escaped, everything else stands for itself.
pub open spec fn escaped_char(c: char) -> Seq<char> {
    if c == '"' || c == '\\' {
        seq!['\\', c]
    } else if c == '\u{8}' {
        seq!['\\', 'b']
    } else if c == '\t' {
        seq!['\\', 't']
    } else if c == '\n' {
        seq!['\\', 'n']
    } else if c == '\u{c}' {
        seq!['\\', 'f']
    } else if c == '\r' {
        seq!['\\', 'r']
    } else if c <= '\u{1f}' {
        seq!['\\', 'u', '0', '0', hex_digit(c as int / 16), hex_digit(c as int % 16)]
    } else {
        seq![c]
    }
}

/// How the characters of `text` stand in a JSON string literal.
pub open spec fn escaped(text: Seq<char>) -> Seq<char>
    decreases text.len(),
{
    if text.len() == 0 {
        Seq::empty()
    } else {
        escaped(text.drop_last()) + escaped_char(text.last())
    }
}

/// The JSON string literal for `text`.
pub open spec fn json_quoted(text: Seq<char>) -> Seq<char> {
    seq!['"'] + escaped(text) + seq!['"']
}

/// An escaped character holds no NUL.
proof fn lemma_escaped_char_holds_no_nul(c: char)
    ensures
        !escaped_char(c).contains('\0'),
{
    let code = c as int;
    assert(0 <= code / 16 && 0 <= code % 16 < 16);
    assert(c <= '\u{1f}' ==> code / 16 < 2);
}

/// An escaped text holds no NUL.
proof fn lemma_escaped_holds_no_nul(text: Seq<char>)
    ensures
        !escaped(text).contains('\0'),
    decreases text.len(),
{
    if text.len() > 0 {
        lemma_escaped_holds_no_nul(text.drop_last());
        lemma_escaped_char_holds_no_nul(text.last());
        let init = escaped(text.drop_last());
        assert forall|i: int| 0 <= i < escaped(text).len() implies escaped(text)[i] != '\0' by {
            if i < init.len() {
                assert(init.contains(init[i]));
            } else {
                let last = escaped_char(text.last());
                assert(last.contains(last[i - init.len()]));
            }
        }
    }
}

/// A string literal begins with a quote and holds no NUL.
proof fn lemma_quoted_is_a_literal(text: Seq<char>)
    ensures
        json_quoted(text).len() > 0,
        json_quoted(text)[0] == '"',
        !json_quoted(text).contains('\0'),
{
    lemma_escaped_holds_no_nul(text);
}

/// `serde_json::Value`'s `Display` on a string: the quoted and escaped literal,
/// which reads back as the same string.
#[verifier::external_body]
pub(crate) fn quoted(text: &str) -> (literal: String)
    ensures
        literal@ == json_quoted(text@),
        reads_as(literal@, JsonModel::String(text@)),
{
    Value::from(text).to_string()
}

/// Appends `items`, separated by commas, between the two given characters.
fn enclosed(open: &str, items: &Vec<String>, close: &str) -> (text: String)
    ensures
        text@ == open@ + comma_joined(items.deep_view()) + close@,
{
    let mut text: String = open.to_owned();
    let ghost all = items.deep_view();
    assert(all.take(0) =~= Seq::<Seq<char>>::empty());
    for i in 0..items.len()
        invariant
            all == items.deep_view(),
            text@ =~= open@ + comma_joined(all.take(i as int)),
    {
        let ghost before = all.take(i as int);
        let ghost after = all.take(i + 1);
        assert(after.drop_last() =~= before);
        assert(after.last() == items[i as int]@);
        if i > 0 {
            proof {
                reveal_strlit(",");
            }
            text.append(",");
            assert(","@ =~= seq![',']);
        } else {
            assert(before =~= Seq::<Seq<char>>::empty());
            assert(after[0] == items[0]@);
        }
        text.append(items[i].as_str());
    }
    assert(all.take(items.len() as int) =~= all);
    text.append(close);
    text
}

impl Json {
    /// The value as compact JSON text.
    pub fn to_text(&self) -> (text: String)
        ensures
            text@ == self.deep_view().text(),
            self.deep_view().well_formed() ==> begins_value(text@),
            self.deep_view().well_formed() ==> (text@ == "null"@ <==> self is Null),
            self is String ==> !text@.contains('\0') && reads_as(text@, self.deep_view()),
    {
        let text = match self {
            Json::Null => "null".to_owned(),
            Json::String(value) => {
                proof {
                    lemma_quoted_is_a_literal(value@);
                }
                quoted(value.as_str())
            },
            Json::Array(items) => {
                proof {
                    reveal_strlit("[");
                    reveal_strlit("]");
                }
                assert("["@ =~= seq!['[']);
                assert("]"@ =~= seq![']']);
                enclosed("[", items, "]")
            },
            Json::Other(value) => value.clone(),
        };
        proof {
            reveal_strlit("null");
            if self.deep_view().well_formed() && !(self is Null) {
                assert(text@[0] != "null"@[0]);
            }
        }
        text
    }

    /// Reads one JSON value from `text`, or tells why there is none.
    pub fn from_text(text: &str) -> (parsed: Result<Json, String>)
        ensures
            parse_model(parsed) == json_parsed(text@),
            parsed is Ok ==> parse_model(parsed)->Ok_0.well_formed(),
            parsed is Ok ==> survives(parse_model(parsed)->Ok_0),
            text@ == "null"@ ==> parsed is Ok && parse_model(parsed)->Ok_0 == JsonModel::Null,
    {
        parse_json(text)
    }

    /// Whether the value is `null`.
    pub fn is_null(&self) -> (null: bool)
        ensures
            null == (self.deep_view() == JsonModel::Null),
    {
        match self {
            Json::Null => true,
            _ => false,
        }
    }

    /// The array of the given values.
    pub fn array(values: &Vec<Json>) -> (array: Json)
        ensures
            array.deep_view() == JsonModel::Array(
                values.deep_view().map_values(|value: JsonModel| value.text()),
            ),
            (forall|i: int|
                0 <= i < values@.len() ==> (#[trigger] values@[i]).deep_view().well_formed())
                ==> array.deep_view().well_formed(),
    {
        let mut items: Vec<String> = Vec::new();
        for i in 0..values.len()
            invariant
                items.deep_view() =~= values.deep_view().take(i as int).map_values(
                    |value: JsonModel| value.text(),
                ),
                (forall|j: int|
                    0 <= j < values@.len() ==> (#[trigger] values@[j]).deep_view().well_formed())
                    ==> forall|j: int| 0 <= j < i ==> begins_value(#[trigger] items.deep_view()[j]),
        {
            let item = values[i].to_text();
            let ghost before = items.deep_view();
            let ghost text = item@;
            items.push(item);
            assert(items.deep_view() =~= before.push(text));
            assert(values.deep_view()[i as int] == values[i as int].deep_view());
            assert(items.deep_view() =~= values.deep_view().take(i + 1).map_values(
                |value: JsonModel| value.text(),
            ));
        }
        assert(values.deep_view().take(values.len() as int) =~= values.deep_view());
        Json::Array(items)
    }
}

/// One member of an object: its key and the compact text of its value.
pub struct Member {
    /// The key.
    pub key: &'static str,
    /// The compact text of the value.
    pub value: String,
}

/// The text of the member `key: value`.
pub open spec fn member_text(key: Seq<char>, value: Seq<char>) -> Seq<char> {
    json_quoted(key) + seq![':'] + value
}

/// The compact text of an object with the given members, in the given order.
pub open spec fn object_text(members: Seq<Seq<char>>) -> Seq<char> {
    seq!['{'] + comma_joined(members) + seq!['}']
}

/// The object with the given members.
pub fn object(members: &Vec<Member>) -> (object: Json)
    ensures
        object.deep_view() == JsonModel::Other(
            object_text(
                members@.map_values(|member: Member| member_text(member.key@, member.value@)),
            ),
        ),
        object.deep_view().well_formed(),
{
    let ghost texts = members@.map_values(
        |member: Member| member_text(member.key@, member.value@),
    );
    let mut items: Vec<String> = Vec::new();
    for i in 0..members.len()
        invariant
            texts == members@.map_values(
                |member: Member| member_text(member.key@, member.value@),
            ),
            items.deep_view() =~= texts.take(i as int),
    {
        proof {
            reveal_strlit(":");
        }
        assert(":"@ =~= seq![':']);
        let item = quoted(members[i].key).concat(":").concat(members[i].value.as_str());
        let ghost before = items.deep_view();
        let ghost text = item@;
        items.push(item);
        assert(items.deep_view() =~= before.push(text));
        assert(texts[i as int] =~= text);
        assert(items.deep_view() =~= texts.take(i + 1));
    }
    assert(texts.take(members.len() as int) =~= texts);
    proof {
        reveal_strlit("{");
        reveal_strlit("}");
    }
    assert("{"@ =~= seq!['{']);
    assert("}"@ =~= seq!['}']);
    Json::Other(enclosed("{", &items, "}"))
}

/// The contents of the C string that carries `value`. What [`survives`] is read back
/// from it as it was, and every string does.
pub fn json_to_c_string(value: &Json) -> (c: String)
    ensures
        c@ == c_text(value.deep_view().text()),
        value is String ==> survives(value.deep_view()),
        survives(value.deep_view()) ==> c_json(Some(encode_utf8(c@))) == Some(value.deep_view()),
{
    let c = c_string(value.to_text().as_str());
    proof {
        encode_utf8_valid_utf8(c@);
        encode_utf8_decode_utf8(c@);
    }
    c
}

/// What a C string handed in as JSON stands for: nothing where the pointer is
/// null, the bytes are not UTF-8, or the text is not JSON.
pub open spec fn c_json(bytes: Option<Seq<u8>>) -> Option<JsonModel> {
    match bytes {
        Some(bytes) => if valid_utf8(bytes) {
            match json_parsed(decode_utf8(bytes)) {
                Ok(value) => Some(value),
                Err(_) => None,
            }
        } else {
            None
        },
        None => None,
    }
}

/// Reads a C string handed in as JSON; `None` for a null pointer.
pub fn c_str_to_json(bytes: &Option<Vec<u8>>) -> (value: Option<Json>)
    ensures
        value.deep_view() == c_json(bytes.deep_view()),
        value matches Some(value) ==> value.deep_view().well_formed(),
        value matches Some(value) ==> survives(value.deep_view()),
{
    match bytes {
        Some(bytes) => {
            assert(bytes.deep_view() =~= bytes@);
            match strict_text(bytes.as_slice()) {
                Ok(text) => match parse_json(text.as_str()) {
                    Ok(value) => Some(value),
                    Err(_) => None,
                },
                Err(_) => None,
            }
        },
        None => None,
    }
}

/// The model of a value loses nothing: it is of the same kind and holds the same texts.
pub proof fn law_json_model_loses_nothing(value: Json)
    ensures
        value is Null <==> value.deep_view() is Null,
        value matches Json::String(text) ==> value.deep_view() == JsonModel::String(text@),
        value matches Json::Other(text) ==> value.deep_view() == JsonModel::Other(text@),
        value matches Json::Array(items) ==> {
            &&& value.deep_view() matches JsonModel::Array(texts) && texts.len() == items@.len()
            &&& forall|i: int|
                0 <= i < items@.len() ==> #[trigger] value.deep_view()->Array_0[i] == items@[i]@
        },
{
}

/// The text of a value: a null is `null`; a boolean, a number or an object is the text
/// that is held of it; a string is its literal; and an array stands between brackets,
/// its elements in order with a comma between any two.
pub proof fn law_text_holds_the_whole_value(value: Json, text: String)
    requires
        call_ensures(Json::to_text, (&value,), text),
    ensures
        value is Null ==> text@ == "null"@,
        value matches Json::Other(held) ==> text@ == held@,
        value matches Json::String(own) ==> text@ == json_quoted(own@),
        value matches Json::Array(items) ==> text@ == seq!['['] + comma_joined(items.deep_view())
            + seq![']'],
        text@ == value.deep_view().text(),
{
}

/// A list gets longer at its end: one more text follows behind a comma, unless it is the
/// first.
pub proof fn law_joined_texts_stand_in_order(items: Seq<Seq<char>>, item: Seq<char>)
    ensures
        comma_joined(Seq::empty()) == Seq::<char>::empty(),
        comma_joined(seq![item]) == item,
        items.len() > 0 ==> comma_joined(items.push(item)) == comma_joined(items) + seq![',']
            + item,
{
    assert(items.push(item).drop_last() =~= items);
}

/// A string literal: between quotes stand the characters of the text in order, each as
/// itself or escaped by a backslash, and nothing else.
pub proof fn law_literal_holds_every_character(text: Seq<char>, c: char)
    ensures
        json_quoted(Seq::empty()) == seq!['"', '"'],
        json_quoted(text.push(c)) == json_quoted(text).drop_last() + escaped_char(c) + seq!['"'],
        c > '\u{1f}' && c != '"' && c != '\\' ==> escaped_char(c) == seq![c],
        c == '"' || c == '\\' ==> escaped_char(c) == seq!['\\', c],
        c <= '\u{1f}' && c != '\u{8}' && c != '\t' && c != '\n' && c != '\u{c}' && c != '\r' ==> {
            let code = c as int;
            let low = escaped_char(c)[5] as int;
            &&& escaped_char(c).len() == 6
            &&& escaped_char(c).take(4) == seq!['\\', 'u', '0', '0']
            &&& escaped_char(c)[4] == if code < 16 { '0' } else { '1' }
            &&& code % 16 < 10 ==> low == '0' as int + code % 16
            &&& code % 16 >= 10 ==> low == 'a' as int + code % 16 - 10
        },
        escaped_char('\u{8}') == seq!['\\', 'b'],
        escaped_char('\t') == seq!['\\', 't'],
        escaped_char('\n') == seq!['\\', 'n'],
        escaped_char('\u{c}') == seq!['\\', 'f'],
        escaped_char('\r') == seq!['\\', 'r'],
{
    assert(0 <= c as int / 16 && 0 <= c as int % 16 < 16);
    assert(c <= '\u{1f}' ==> c as int / 16 == if (c as int) < 16 { 0int } else { 1int });
    assert(text.push(c).drop_last() =~= text);
    assert(json_quoted(text).drop_last() =~= seq!['"'] + escaped(text));
    assert(json_quoted(text.push(c)) =~= json_quoted(text).drop_last() + escaped_char(c)
        + seq!['"']);
    assert(json_quoted(Seq::empty()) =~= seq!['"', '"']);
}

/// A text is read by what it names: the value it reads as, of the same kind and with the
/// same texts, or the wording of the error.
pub proof fn law_text_is_read_whole(text: &str, parsed: Result<Json, String>)
    requires
        call_ensures(Json::from_text, (text,), parsed),
    ensures
        parsed is Ok <==> json_parsed(text@) is Ok,
        parsed matches Ok(value) ==> value.deep_view() == json_parsed(text@)->Ok_0 && reads_as(
            value.deep_view().text(),
            value.deep_view(),
        ),
        parsed matches Err(message) ==> message@ == json_parsed(text@)->Err_0,
        text@ == "null"@ ==> (parsed matches Ok(value) && value is Null),
{
}

/// Only null is null.
pub proof fn law_only_null_is_null(value: Json, null: bool)
    requires
        call_ensures(Json::is_null, (&value,), null),
    ensures
        null <==> value is Null,
{
}

/// The array of some values holds the text of each of them, in order, and nothing else.
pub proof fn law_array_holds_every_value(values: Vec<Json>, array: Json)
    requires
        call_ensures(Json::array, (&values,), array),
    ensures
        array matches Json::Array(items) && items@.len() == values@.len() && forall|i: int|
            0 <= i < values@.len() ==> (#[trigger] items@[i])@ == values@[i].deep_view().text(),
{
    let texts = values.deep_view().map_values(|value: JsonModel| value.text());
    assert(array->Array_0.deep_view() == texts);
    assert forall|i: int| 0 <= i < values@.len() implies (#[trigger] array->Array_0@[i])@
        == values@[i].deep_view().text() by {
        assert(array->Array_0.deep_view()[i] == texts[i]);
    }
}

/// An object without members is `{}`; one more member stands behind those before it, as
/// its key, quoted, and its value, unchanged.
pub proof fn law_object_holds_every_member(
    members: Vec<Member>,
    object_before: Json,
    longer: Vec<Member>,
    member: Member,
    object_after: Json,
)
    requires
        call_ensures(object, (&members,), object_before),
        call_ensures(object, (&longer,), object_after),
        longer@ == members@.push(member),
    ensures
        object_before is Other && object_after is Other,
        members@.len() == 0 ==> object_before->Other_0@ == "{}"@,
        object_after->Other_0@ == object_before->Other_0@.drop_last() + (if members@.len() == 0 {
            Seq::empty()
        } else {
            seq![',']
        }) + json_quoted(member.key@) + seq![':'] + member.value@ + seq!['}'],
{
    let texts = members@.map_values(|m: Member| member_text(m.key@, m.value@));
    let after = longer@.map_values(|m: Member| member_text(m.key@, m.value@));
    let text = member_text(member.key@, member.value@);
    assert(after =~= texts.push(text));
    law_joined_texts_stand_in_order(texts, text);
    reveal_strlit("{}");
    if members@.len() == 0 {
        assert(texts =~= Seq::empty());
        assert(texts.push(text) =~= seq![text]);
        assert(object_text(texts) =~= "{}"@);
    }
    assert(object_before->Other_0@ == object_text(texts));
    assert(object_text(texts).drop_last() =~= seq!['{'] + comma_joined(texts));
    assert(object_after->Other_0@ =~= object_before->Other_0@.drop_last() + (if members@.len()
        == 0 {
        Seq::empty()
    } else {
        seq![',']
    }) + json_quoted(member.key@) + seq![':'] + member.value@ + seq!['}']);
}

/// What crosses as a C string is the whole text of the value, and it is read back as the
/// same value: a value that was read keeps its kind and its texts on the way out and in.
pub proof fn law_json_crosses_the_boundary_unchanged(
    value: Json,
    c: String,
    bytes: Vec<u8>,
    read: Option<Json>,
)
    requires
        call_ensures(json_to_c_string, (&value,), c),
        call_ensures(c_str_to_json, (&Some(bytes),), read),
        bytes@ == encode_utf8(c@),
    ensures
        !value.deep_view().text().contains('\0') ==> c@ == value.deep_view().text(),
        value.deep_view().text().contains('\0') ==> c@.len() == 0,
        survives(value.deep_view()) ==> (read matches Some(back) && back.deep_view()
            == value.deep_view()),
        value is String ==> (read matches Some(back) && back.deep_view() == value.deep_view()),
{
    encode_utf8_valid_utf8(c@);
    encode_utf8_decode_utf8(c@);
    assert(bytes.deep_view() =~= bytes@);
    assert(Some(bytes).deep_view() == Some(bytes@));
}

/// A C string is read as JSON exactly where there is one, its bytes are UTF-8 and its
/// text is JSON, and then as what the text reads as.
pub proof fn law_c_string_is_read_as_its_text(bytes: Option<Vec<u8>>, read: Option<Json>)
    requires
        call_ensures(c_str_to_json, (&bytes,), read),
    ensures
        bytes is None ==> read is None,
        bytes matches Some(held) ==> {
            &&& !valid_utf8(held@) ==> read is None
            &&& valid_utf8(held@) && json_parsed(decode_utf8(held@)) is Err ==> read is None
            &&& valid_utf8(held@) ==> (json_parsed(decode_utf8(held@)) matches Ok(value)
                ==> read matches Some(made) && made.deep_view() == value)
        },
        read.deep_view() == c_json(bytes.deep_view()),
{
    if let Some(held) = bytes {
        assert(held.deep_view() =~= held@);
    }
}

/// A value survives exactly where its text holds no NUL and is read as that value.
pub proof fn law_surviving_is_reading_back(value: JsonModel)
    ensures
        survives(value) <==> !value.text().contains('\0') && json_parsed(value.text()) == Ok::<
            JsonModel,
            Seq<char>,
        >(value),
        survives(value) ==> c_json(Some(encode_utf8(c_text(value.text())))) == Some(value),
{
    encode_utf8_valid_utf8(value.text());
    encode_utf8_decode_utf8(value.text());
}

} // verus!
