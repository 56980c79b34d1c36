//! Decoding the rows that a store read returns into messages, with the JSON
//! columns parsed into objects.

use vstd::prelude::*;

verus! {

#[verifier::external_type_specification]
#[verifier::external_body]
#[verifier::reject_recursive_types(K)]
#[verifier::reject_recursive_types(V)]
pub struct ExJsonMap<K, V>(serde_json::Map<K, V>);

#[verifier::external_type_specification]
#[verifier::external_body]
pub struct ExJsonValue(serde_json::Value);

#[verifier::external_type_specification]
#[verifier::external_body]
pub struct ExJsonError(serde_json::Error);

/// A JSON object: its members by name.
pub type Object = serde_json::Map<String, serde_json::Value>;

/// Whether `text` is one JSON object, as serde_json reads it.
pub uninterp spec fn is_json_object(text: Seq<char>) -> bool;

/// Relies on `serde_json::from_str` into a map: it succeeds exactly when the
/// text is one JSON object, and the outcome depends on the text alone.
#[verifier::external_body]
fn parse_object(text: &str) -> (parsed: Result<Object, serde_json::Error>)
    ensures
        parsed is Ok == is_json_object(text@),
{
    serde_json::from_str(text)
}

/// A row as the store returns it, with the JSON columns still as text.
#[derive(Debug, Clone, PartialEq, Eq)]
pub struct MessageRow {
    pub id: String,
    pub stream_name: String,
    pub message_type: String,
    pub position: i64,
    pub global_position: i64,
    pub metadata: Option<String>,
    pub data: String,
    pub time: String,
}

/// A decoded message.
#[derive(Debug)]
pub struct MessageData {
    pub id: String,
    pub stream_name: String,
    pub message_type: String,
    pub position: i64,
    pub global_position: i64,
    pub metadata: Option<Object>,
    pub data: Object,
    pub time: String,
}

/// The JSON column of a row that failed to parse.
#[derive(Debug, Clone, Copy, PartialEq, Eq)]
pub enum JsonColumn {
    Data,
    Metadata,
}

/// A row that could not be decoded: its index among the rows read, and the
/// column at fault.
#[derive(Debug, Clone, Copy, PartialEq, Eq)]
pub struct DecodeError {
    pub row: usize,
    pub column: JsonColumn,
}

/// Whether a row decodes: its data is a JSON object, and so is its metadata
/// where there is any.
pub open spec fn row_decodes(row: MessageRow) -> bool {
    &&& is_json_object(row.data@)
    &&& match row.metadata {
        Some(m) => is_json_object(m@),
        None => true,
    }
}

/// The column reported for a row that does not decode: the data is parsed first.
pub open spec fn failing_column(row: MessageRow) -> JsonColumn {
    if !is_json_object(row.data@) {
        JsonColumn::Data
    } else {
        JsonColumn::Metadata
    }
}

/// `message` carries the plain columns of `row` unchanged, and has metadata
/// exactly where the row has some.
pub open spec fn decoded_from(message: MessageData, row: MessageRow) -> bool {
    &&& message.id@ == row.id@
    &&& message.stream_name@ == row.stream_name@
    &&& message.message_type@ == row.message_type@
    &&& message.position == row.position
    &&& message.global_position == row.global_position
    &&& message.time@ == row.time@
    &&& (message.metadata is None <==> row.metadata is None)
}

/// Decodes one row: the data column is parsed into an object, the metadata
/// column likewise where it is present, and the other columns are copied.
pub fn decode_row(row: &MessageRow) -> (decoded: Result<MessageData, JsonColumn>)
    ensures
        decoded is Ok == row_decodes(*row),
        decoded matches Ok(message) ==> decoded_from(message, *row),
        decoded matches Err(column) ==> column == failing_column(*row),
{
    let data = match parse_object(row.data.as_str()) {
        Ok(object) => object,
        Err(_) => {
            return Err(JsonColumn::Data);
        },
    };
    let metadata = match &row.metadata {
        Some(text) => match parse_object(text.as_str()) {
            Ok(object) => Some(object),
            Err(_) => {
                return Err(JsonColumn::Metadata);
            },
        },
        None => None,
    };
    Ok(
        MessageData {
            id: row.id.clone(),
            stream_name: row.stream_name.clone(),
            message_type: row.message_type.clone(),
            position: row.position,
            global_position: row.global_position,
            metadata,
            data,
            time: row.time.clone(),
        },
    )
}

/// Decodes the rows of a read in their order. Fails, on the first row that
/// does not decode, with that row's index and column; no message is
/// returned then.
pub fn decode_rows(rows: &Vec<MessageRow>) -> (decoded: Result<Vec<MessageData>, DecodeError>)
    ensures
        decoded is Ok == (forall|i: int| 0 <= i < rows.len() ==> row_decodes(#[trigger] rows[i])),
        decoded matches Ok(messages) ==> messages.len() == rows.len() && forall|i: int|
            0 <= i < rows.len() ==> decoded_from(#[trigger] messages[i], rows[i]),
        decoded matches Err(e) ==> e.row < rows.len() && !row_decodes(rows[e.row as int])
            && e.column == failing_column(rows[e.row as int]) && forall|j: int|
            0 <= j < e.row ==> row_decodes(#[trigger] rows[j]),
{
    let mut messages: Vec<MessageData> = Vec::new();
    let mut i: usize = 0;
    while i < rows.len()
        invariant
            i <= rows.len(),
            messages.len() == i,
            forall|j: int| 0 <= j < i ==> row_decodes(#[trigger] rows[j]),
            forall|j: int| 0 <= j < i ==> decoded_from(#[trigger] messages[j], rows[j]),
        decreases rows.len() - i,
    {
        match decode_row(&rows[i]) {
            Ok(message) => {
                messages.push(message);
            },
            Err(column) => {
                return Err(DecodeError { row: i, column });
            },
        }
        i = i + 1;
    }
    Ok(messages)
}

} // verus!
