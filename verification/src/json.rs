//! The JSON form of a document: one object per entry, the fields in the order
//! in which the types declare them. An entry is written as the object of its
//! shortcut or of its folder, with nothing that tells the two apart but the
//! fields themselves. Strings, the names of the fields among them, are quoted
//! and escaped by `serde_json`.
use vstd::prelude::*;
use crate::bookmark::Bookmark;
use crate::bookmark::BookmarkView;
use crate::folder::Folder;
use crate::folder::FolderView;
use crate::item::Item;
use crate::item::ItemView;
use crate::item::item_views;
use crate::netscape::Netscape;
use crate::netscape::NetscapeView;

verus! {

/// `serde_json::Error`: what `serde_json` fails with.
#[verifier::external_type_specification]
#[verifier::external_body]
pub struct ExJsonError(serde_json::Error);

/// The digit of `n`, a number below sixteen, in lower-case hexadecimal.
pub open spec fn hex_digit(n: int) -> char {
    if n < 10 {
        ('0' as int + n) as char
    } else {
        ('a' as int + n - 10) as char
    }
}

/// What a character is written as inside a JSON string: the double quote and
/// the backslash after a backslash, the five control characters that have a
/// letter as that letter after a backslash, any other character below the
/// space as `\u00` and its two hexadecimal digits, and every other character
/// as it is.
pub open spec fn escaped_char(c: char) -> Seq<char> {
    if c == '"' {
        seq!['\\', '"']
    } else if c == '\\' {
        seq!['\\', '\\']
    } else if c == '\u{8}' {
        seq!['\\', 'b']
    } else if c == '\t' {
        seq!['\\', 't']
    } else if c == '\n' {
        seq!['\\', 'n']
    } else if c == '\u{c}' {
        seq!['\\', 'f']
    } else if c == '\r' {
        seq!['\\', 'r']
    } else if (c as int) < 0x20 {
        seq!['\\', 'u', '0', '0', hex_digit((c as int) / 16), hex_digit((c as int) % 16)]
    } else {
        seq![c]
    }
}

/// The first `count` characters of `s`, each as it is written inside a JSON string.
pub open spec fn escaped(s: Seq<char>, count: nat) -> Seq<char>
    decreases count,
{
    if count == 0 || count > s.len() {
        Seq::empty()
    } else {
        escaped(s, (count - 1) as nat) + escaped_char(s[count - 1])
    }
}

/// The JSON string of the text `s`: its characters, escaped, between double quotes.
pub open spec fn json_string(s: Seq<char>) -> Seq<char> {
    seq!['"'] + escaped(s, s.len()) + seq!['"']
}

/// Calls `serde_json::to_string` on a string slice. Its documentation names
/// two ways to fail, a `Serialize` impl that fails and a map whose keys are no
/// strings, and neither can happen with a string slice: the call succeeds. It
/// writes a double quote, the slice with the bytes escaped that its table
/// `ESCAPE` marks, and a double quote: that is `json_string`.
#[verifier::external_body]
fn quote(s: &str) -> (out: Result<String, serde_json::Error>)
    ensures
        out is Ok,
        out matches Ok(text) ==> text@ == json_string(s@),
{
    serde_json::to_string(s)
}

/// The JSON form of a truth value.
pub open spec fn json_bool(b: bool) -> Seq<char> {
    if b {
        "true"@
    } else {
        "false"@
    }
}

/// The first `count` of `parts` with a comma between each two.
pub open spec fn joined(parts: Seq<Seq<char>>, count: nat) -> Seq<char>
    decreases count,
{
    if count == 0 || count > parts.len() {
        Seq::empty()
    } else if count == 1 {
        parts[0]
    } else {
        joined(parts, (count - 1) as nat) + ","@ + parts[count - 1]
    }
}

/// The JSON array of values that are JSON already.
pub open spec fn array_of(parts: Seq<Seq<char>>) -> Seq<char> {
    "["@ + joined(parts, parts.len()) + "]"@
}

/// The JSON object of fields that are JSON already.
pub open spec fn record_of(fields: Seq<Seq<char>>) -> Seq<char> {
    "{"@ + joined(fields, fields.len()) + "}"@
}

/// One field of a JSON object: the name as a JSON string, a colon, and the
/// value, which is JSON already.
pub open spec fn field_text(name: Seq<char>, value: Seq<char>) -> Seq<char> {
    json_string(name) + ":"@ + value
}

impl BookmarkView {
    /// The fields of the JSON form of a shortcut.
    pub open spec fn json_fields(self) -> Seq<Seq<char>> {
        seq![
            field_text("href"@, json_string(self.href)),
            field_text("title"@, json_string(self.title)),
            field_text("add_date"@, json_string(self.add_date)),
            field_text("last_visit"@, json_string(self.last_visit)),
            field_text("last_modified"@, json_string(self.last_modified)),
            field_text("icon_uri"@, json_string(self.icon_uri)),
            field_text("icon"@, json_string(self.icon)),
        ]
    }

    /// The JSON form of a shortcut.
    pub open spec fn json(self) -> Seq<char> {
        record_of(self.json_fields())
    }
}

impl FolderView {
    /// The fields of the JSON form of a folder.
    pub open spec fn json_fields(self) -> Seq<Seq<char>>
        decreases self, 0nat,
    {
        seq![
            field_text("title"@, json_string(self.title)),
            field_text("folded"@, json_bool(self.folded)),
            field_text("add_date"@, json_string(self.add_date)),
            field_text("last_modified"@, json_string(self.last_modified)),
            field_text("personal_toolbar_folder"@, json_bool(self.personal_toolbar_folder)),
            field_text("unfiled_bookmarks_folder"@, json_bool(self.unfiled_bookmarks_folder)),
            field_text("children"@, array_of(items_json(self.children))),
        ]
    }

    /// The JSON form of a folder.
    pub open spec fn json(self) -> Seq<char>
        decreases self, 1nat,
    {
        record_of(self.json_fields())
    }
}

impl ItemView {
    /// The JSON form of an entry: that of its shortcut or of its folder.
    pub open spec fn json(self) -> Seq<char>
        decreases self, 2nat,
    {
        match self {
            ItemView::Subfolder(f) => f.json(),
            ItemView::Shortcut(b) => b.json(),
        }
    }
}

/// The JSON forms of a row of entries.
pub open spec fn items_json(items: Seq<ItemView>) -> Seq<Seq<char>>
    decreases items, 0nat,
{
    Seq::new(
        items.len(),
        |i: int|
            if 0 <= i < items.len() {
                items[i].json()
            } else {
                arbitrary()
            },
    )
}

impl NetscapeView {
    /// The fields of the JSON form of a document.
    pub open spec fn json_fields(self) -> Seq<Seq<char>> {
        seq![
            field_text("title"@, json_string(self.title)),
            field_text("h1"@, json_string(self.h1)),
            field_text("children"@, array_of(items_json(self.children))),
        ]
    }

    /// The JSON form of a document.
    pub open spec fn json(self) -> Seq<char> {
        record_of(self.json_fields())
    }
}

/// A JSON value as a mathematical value.
pub enum Json {
    /// A string.
    Text(Seq<char>),
    /// A truth value.
    Truth(bool),
    /// An array: its values in order.
    List(Seq<Json>),
    /// An object: its fields in order.
    Record(Seq<Field>),
}

/// One field of a JSON object as a mathematical value.
pub struct Field {
    pub name: Seq<char>,
    pub value: Json,
}

/// The text that writes a JSON value, with no space in it.
pub open spec fn written(value: Json) -> Seq<char>
    decreases value,
{
    match value {
        Json::Text(s) => json_string(s),
        Json::Truth(b) => json_bool(b),
        Json::List(values) => array_of(written_values(values)),
        Json::Record(fields) => record_of(written_fields(fields)),
    }
}

/// The texts that write a row of JSON values.
pub open spec fn written_values(values: Seq<Json>) -> Seq<Seq<char>>
    decreases values,
{
    Seq::new(
        values.len(),
        |i: int|
            if 0 <= i < values.len() {
                written(values[i])
            } else {
                arbitrary()
            },
    )
}

/// The texts that write a row of fields.
pub open spec fn written_fields(fields: Seq<Field>) -> Seq<Seq<char>>
    decreases fields,
{
    Seq::new(
        fields.len(),
        |i: int|
            if 0 <= i < fields.len() {
                field_text(fields[i].name, written(fields[i].value))
            } else {
                arbitrary()
            },
    )
}

/// Whether a JSON value is an object with a field named `name`.
pub open spec fn has_field(value: Json, name: Seq<char>) -> bool {
    value matches Json::Record(fields) && exists|i: int|
        0 <= i < fields.len() && (#[trigger] fields[i]).name == name
}

impl BookmarkView {
    /// The JSON object of a shortcut: one field for each field of the
    /// shortcut, under its name, and no other.
    pub open spec fn json_value(self) -> Json {
        Json::Record(
            seq![
                Field { name: "href"@, value: Json::Text(self.href) },
                Field { name: "title"@, value: Json::Text(self.title) },
                Field { name: "add_date"@, value: Json::Text(self.add_date) },
                Field { name: "last_visit"@, value: Json::Text(self.last_visit) },
                Field { name: "last_modified"@, value: Json::Text(self.last_modified) },
                Field { name: "icon_uri"@, value: Json::Text(self.icon_uri) },
                Field { name: "icon"@, value: Json::Text(self.icon) },
            ],
        )
    }
}

impl FolderView {
    /// The JSON object of a folder: one field for each field of the folder,
    /// under its name, and no other. The entries are the array of their own
    /// objects.
    pub open spec fn json_value(self) -> Json
        decreases self, 1nat,
    {
        Json::Record(
            seq![
                Field { name: "title"@, value: Json::Text(self.title) },
                Field { name: "folded"@, value: Json::Truth(self.folded) },
                Field { name: "add_date"@, value: Json::Text(self.add_date) },
                Field { name: "last_modified"@, value: Json::Text(self.last_modified) },
                Field {
                    name: "personal_toolbar_folder"@,
                    value: Json::Truth(self.personal_toolbar_folder),
                },
                Field {
                    name: "unfiled_bookmarks_folder"@,
                    value: Json::Truth(self.unfiled_bookmarks_folder),
                },
                Field { name: "children"@, value: Json::List(item_values(self.children)) },
            ],
        )
    }
}

impl ItemView {
    /// The JSON object of an entry: that of its shortcut or of its folder,
    /// with nothing around it.
    pub open spec fn json_value(self) -> Json
        decreases self, 2nat,
    {
        match self {
            ItemView::Subfolder(f) => f.json_value(),
            ItemView::Shortcut(b) => b.json_value(),
        }
    }
}

/// The JSON objects of a row of entries.
pub open spec fn item_values(items: Seq<ItemView>) -> Seq<Json>
    decreases items, 0nat,
{
    Seq::new(
        items.len(),
        |i: int|
            if 0 <= i < items.len() {
                items[i].json_value()
            } else {
                arbitrary()
            },
    )
}

impl NetscapeView {
    /// The JSON object of a document.
    pub open spec fn json_value(self) -> Json {
        Json::Record(
            seq![
                Field { name: "title"@, value: Json::Text(self.title) },
                Field { name: "h1"@, value: Json::Text(self.h1) },
                Field { name: "children"@, value: Json::List(item_values(self.children)) },
            ],
        )
    }
}

/// The texts of a row of strings.
pub open spec fn texts(strings: Seq<String>) -> Seq<Seq<char>> {
    Seq::new(strings.len(), |i: int| strings[i]@)
}

/// Writes a truth value as JSON.
pub fn bool_json(b: bool) -> (out: String)
    ensures
        out@ == json_bool(b),
{
    if b {
        String::from_str("true")
    } else {
        String::from_str("false")
    }
}

/// The first `count` of `parts` with a comma between each two.
fn joined_json(parts: &Vec<String>) -> (out: String)
    ensures
        out@ == joined(texts(parts@), parts@.len()),
{
    let mut out = String::new();
    let mut i: usize = 0;
    while i < parts.len()
        invariant
            i <= parts.len(),
            out@ == joined(texts(parts@), i as nat),
        decreases parts.len() - i,
    {
        if i > 0 {
            out.append(",");
        }
        out.append(parts[i].as_str());
        i = i + 1;
    }
    out
}

/// Writes the JSON array of values that are JSON already.
pub fn array_json(parts: &Vec<String>) -> (out: String)
    ensures
        out@ == array_of(texts(parts@)),
{
    let inner = joined_json(parts);
    let mut out = String::from_str("[");
    out.append(inner.as_str());
    out.append("]");
    out
}

/// Writes the JSON object of fields that are JSON already.
pub fn record_json(fields: &Vec<String>) -> (out: String)
    ensures
        out@ == record_of(texts(fields@)),
{
    let inner = joined_json(fields);
    let mut out = String::from_str("{");
    out.append(inner.as_str());
    out.append("}");
    out
}

/// Writes one field of a JSON object whose value is JSON already.
pub fn field_json(name: &str, value: &str) -> (out: Result<String, serde_json::Error>)
    ensures
        out matches Ok(text) && text@ == field_text(name@, value@),
{
    let mut out = quote(name)?;
    out.append(":");
    out.append(value);
    Ok(out)
}

/// Writes one field of a JSON object whose value is a text.
pub fn text_field_json(name: &str, value: &str) -> (out: Result<String, serde_json::Error>)
    ensures
        out matches Ok(text) && text@ == field_text(name@, json_string(value@)),
{
    let quoted = quote(value)?;
    field_json(name, quoted.as_str())
}

/// Writes one field of a JSON object whose value is a truth value.
pub fn bool_field_json(name: &str, value: bool) -> (out: Result<String, serde_json::Error>)
    ensures
        out matches Ok(text) && text@ == field_text(name@, json_bool(value)),
{
    let written = bool_json(value);
    field_json(name, written.as_str())
}

impl Bookmark {
    /// The JSON form of this shortcut.
    pub fn to_json(&self) -> (out: Result<String, serde_json::Error>)
        ensures
            out matches Ok(text) && text@ == self@.json(),
    {
        let mut fields: Vec<String> = Vec::new();
        fields.push(text_field_json("href", self.href.as_str())?);
        fields.push(text_field_json("title", self.title.as_str())?);
        fields.push(text_field_json("add_date", self.add_date.as_str())?);
        fields.push(text_field_json("last_visit", self.last_visit.as_str())?);
        fields.push(text_field_json("last_modified", self.last_modified.as_str())?);
        fields.push(text_field_json("icon_uri", self.icon_uri.as_str())?);
        fields.push(text_field_json("icon", self.icon.as_str())?);
        assert(texts(fields@) =~= self@.json_fields());
        Ok(record_json(&fields))
    }
}

/// The JSON array of a row of entries.
pub fn items_to_json(items: &Vec<Item>) -> (out: Result<String, serde_json::Error>)
    ensures
        out matches Ok(text) && text@ == array_of(items_json(item_views(items@))),
    decreases items, 1nat,
{
    let mut parts: Vec<String> = Vec::new();
    let mut i: usize = 0;
    while i < items.len()
        invariant
            i <= items.len(),
            parts@.len() == i,
            forall|j: int| 0 <= j < i ==> (#[trigger] parts@[j])@ == items@[j]@.json(),
        decreases items.len() - i,
    {
        let part = items[i].to_json()?;
        parts.push(part);
        i = i + 1;
    }
    assert(texts(parts@) =~= items_json(item_views(items@)));
    Ok(array_json(&parts))
}

impl Folder {
    /// The JSON form of this folder.
    pub fn to_json(&self) -> (out: Result<String, serde_json::Error>)
        ensures
            out matches Ok(text) && text@ == self@.json(),
        decreases self, 2nat,
    {
        let children = items_to_json(&self.children)?;
        let mut fields: Vec<String> = Vec::new();
        fields.push(text_field_json("title", self.title.as_str())?);
        fields.push(bool_field_json("folded", self.folded)?);
        fields.push(text_field_json("add_date", self.add_date.as_str())?);
        fields.push(text_field_json("last_modified", self.last_modified.as_str())?);
        fields.push(bool_field_json("personal_toolbar_folder", self.personal_toolbar_folder)?);
        fields.push(bool_field_json("unfiled_bookmarks_folder", self.unfiled_bookmarks_folder)?);
        fields.push(field_json("children", children.as_str())?);
        assert(texts(fields@) =~= self@.json_fields());
        Ok(record_json(&fields))
    }
}

impl Item {
    /// The JSON form of this entry.
    pub fn to_json(&self) -> (out: Result<String, serde_json::Error>)
        ensures
            out matches Ok(text) && text@ == self@.json(),
        decreases self, 0nat,
    {
        match self {
            Item::Subfolder(folder) => folder.to_json(),
            Item::Shortcut(bookmark) => bookmark.to_json(),
        }
    }
}

impl Netscape {
    /// The JSON form of this document.
    pub fn to_json(&self) -> (out: Result<String, serde_json::Error>)
        ensures
            out matches Ok(text) && text@ == self@.json(),
    {
        let children = items_to_json(&self.children)?;
        let mut fields: Vec<String> = Vec::new();
        fields.push(text_field_json("title", self.title.as_str())?);
        fields.push(text_field_json("h1", self.h1.as_str())?);
        fields.push(field_json("children", children.as_str())?);
        assert(texts(fields@) =~= self@.json_fields());
        Ok(record_json(&fields))
    }
}

} // verus!
