//! The two documents that the pipeline reads: the token document and the
//! envelope of result sets.

use crate::error::DecodeError;
use crate::json::{lemma_member_found, Json, JsonValue};
use crate::record::{
    json_of, lemma_record_round_trip, record_of, AlarmBatch, AlarmRecord, AlarmRecordView,
};
use vstd::prelude::*;

verus! {

/// A bearer token: one opaque text, obtained anew for every run.
#[derive(Clone, Debug, PartialEq, Eq)]
pub struct AuthToken {
    pub token: String,
}

impl View for AuthToken {
    type V = Seq<char>;

    open spec fn view(&self) -> Seq<char> {
        self.token@
    }
}

/// The token that a document holds: the string member `token` of an object.
/// Other members are passed over.
pub open spec fn token_in(doc: JsonValue) -> Option<Seq<char>> {
    match doc.get("token"@) {
        Some(JsonValue::Text(token)) => Some(token),
        _ => None,
    }
}

/// The records of a result set: the items of the list member `data` of an
/// object, each of them a record. Other members are passed over.
pub open spec fn result_set_of(doc: JsonValue) -> Option<Seq<AlarmRecordView>> {
    match doc.get("data"@) {
        Some(JsonValue::Array(items)) => {
            if forall|i: int| 0 <= i < items.len() ==> (#[trigger] record_of(items[i])) is Some {
                Some(Seq::new(items.len(), |i: int| record_of(items[i]).unwrap()))
            } else {
                None
            }
        },
        _ => None,
    }
}

/// The batch that an envelope holds: the records of the first of its result
/// sets, in their order. The envelope is an object whose member `results` is
/// a list of result sets, and that list may not be empty. The result sets
/// after the first are read and then dropped.
pub open spec fn batch_in(doc: JsonValue) -> Result<Seq<AlarmRecordView>, DecodeError> {
    match doc.get("results"@) {
        Some(JsonValue::Array(sets)) => {
            if sets.len() == 0 {
                Err(DecodeError::EmptyResults)
            } else if forall|i: int|
                0 <= i < sets.len() ==> (#[trigger] result_set_of(sets[i])) is Some {
                Ok(result_set_of(sets[0]).unwrap())
            } else {
                Err(DecodeError::Malformed)
            }
        },
        _ => Err(DecodeError::MissingResults),
    }
}

/// The object in which a result set is sent: its one member `data` lists the
/// records as they are sent.
pub open spec fn result_set_json(records: Seq<AlarmRecordView>) -> JsonValue {
    JsonValue::Object(
        seq![("data"@, JsonValue::Array(records.map_values(|record: AlarmRecordView| json_of(record))))],
    )
}

/// The envelope in which result sets are sent: its one member `results` lists
/// them.
pub open spec fn envelope_json(sets: Seq<Seq<AlarmRecordView>>) -> JsonValue {
    JsonValue::Object(
        seq![
            (
                "results"@,
                JsonValue::Array(
                    sets.map_values(|records: Seq<AlarmRecordView>| result_set_json(records)),
                ),
            ),
        ],
    )
}

/// The batch read from a well-formed envelope is the `data` list of the first
/// result set: as many records as the list has items, in the same order, each
/// the record that its item stands for.
pub proof fn lemma_batch_is_first_data_list(
    doc: JsonValue,
    sets: Seq<JsonValue>,
    items: Seq<JsonValue>,
)
    requires
        doc.get("results"@) == Some(JsonValue::Array(sets)),
        sets.len() > 0,
        forall|i: int| 0 <= i < sets.len() ==> (#[trigger] result_set_of(sets[i])) is Some,
        sets[0].get("data"@) == Some(JsonValue::Array(items)),
    ensures
        batch_in(doc) is Ok,
        batch_in(doc)->Ok_0.len() == items.len(),
        forall|i: int|
            0 <= i < items.len() ==> record_of(items[i]) == Some(#[trigger] batch_in(doc)->Ok_0[i]),
{
}

/// A result set that is sent and read again is the result set that was sent.
pub proof fn lemma_result_set_round_trip(records: Seq<AlarmRecordView>)
    ensures
        result_set_of(result_set_json(records)) == Some(records),
{
    let doc = result_set_json(records);
    let items = records.map_values(|record: AlarmRecordView| json_of(record));
    lemma_member_found(doc->Object_0, "data"@, 0, 0);
    assert forall|i: int| 0 <= i < items.len() implies (#[trigger] record_of(items[i])) == Some(
        records[i],
    ) by {
        lemma_record_round_trip(records[i]);
    }
    assert(result_set_of(doc).unwrap() =~= records);
}

/// Of the result sets that are sent in one envelope, the batch that is read
/// is the first, record by record; the others do not show in it.
pub proof fn lemma_envelope_round_trip(sets: Seq<Seq<AlarmRecordView>>)
    requires
        sets.len() > 0,
    ensures
        batch_in(envelope_json(sets)) == Ok::<Seq<AlarmRecordView>, DecodeError>(sets[0]),
{
    let doc = envelope_json(sets);
    let sent = sets.map_values(|records: Seq<AlarmRecordView>| result_set_json(records));
    lemma_member_found(doc->Object_0, "results"@, 0, 0);
    assert forall|i: int| 0 <= i < sent.len() implies (#[trigger] result_set_of(sent[i])) == Some(
        sets[i],
    ) by {
        lemma_result_set_round_trip(sets[i]);
    }
}

/// Reads the token that a document holds; `None` where it holds none.
pub fn token_from_json(doc: &Json) -> (read: Option<AuthToken>)
    ensures
        match read {
            Some(token) => token_in(doc@) == Some(token@),
            None => token_in(doc@) is None,
        },
{
    match doc.get("token") {
        Some(Json::Text(token)) => Some(AuthToken { token: token.clone() }),
        _ => None,
    }
}

/// Reads the records of a result set; `None` where the value is no result
/// set.
pub fn result_set_from_json(doc: &Json) -> (read: Option<AlarmBatch>)
    ensures
        match read {
            Some(batch) => result_set_of(doc@) == Some(batch@),
            None => result_set_of(doc@) is None,
        },
{
    let items = match doc.get("data") {
        Some(data) => match data.items() {
            Some(items) => items,
            None => {
                return None;
            },
        },
        None => {
            return None;
        },
    };
    let ghost values = items@.map_values(|item: Json| item@);
    let mut records: Vec<AlarmRecord> = Vec::new();
    let mut i: usize = 0;
    while i < items.len()
        invariant
            i <= items.len(),
            doc@.get("data"@) == Some(JsonValue::Array(values)),
            values == items@.map_values(|item: Json| item@),
            records@.len() == i,
            forall|k: int| 0 <= k < i ==> record_of(values[k]) == Some((#[trigger] records@[k])@),
        decreases items.len() - i,
    {
        match AlarmRecord::from_json(&items[i]) {
            Some(record) => {
                records.push(record);
            },
            None => {
                assert(record_of(values[i as int]) is None);
                return None;
            },
        }
        i += 1;
    }
    let batch = AlarmBatch { records };
    assert forall|k: int| 0 <= k < values.len() implies (#[trigger] record_of(values[k]))
        == Some(batch.records@[k]@) by {}
    assert(batch@ =~= result_set_of(doc@).unwrap());
    Some(batch)
}

/// Reads the batch that an envelope holds.
pub fn batch_from_json(doc: &Json) -> (read: Result<AlarmBatch, DecodeError>)
    ensures
        match read {
            Ok(batch) => batch_in(doc@) == Ok::<Seq<AlarmRecordView>, DecodeError>(batch@),
            Err(error) => batch_in(doc@) == Err::<Seq<AlarmRecordView>, DecodeError>(error),
        },
{
    let sets = match doc.get("results") {
        Some(results) => match results.items() {
            Some(sets) => sets,
            None => {
                return Err(DecodeError::MissingResults);
            },
        },
        None => {
            return Err(DecodeError::MissingResults);
        },
    };
    if sets.len() == 0 {
        return Err(DecodeError::EmptyResults);
    }
    let ghost values = sets@.map_values(|set: Json| set@);
    let first = match result_set_from_json(&sets[0]) {
        Some(batch) => batch,
        None => {
            assert(result_set_of(values[0]) is None);
            return Err(DecodeError::Malformed);
        },
    };
    let mut i: usize = 1;
    while i < sets.len()
        invariant
            1 <= i <= sets.len(),
            doc@.get("results"@) == Some(JsonValue::Array(values)),
            values == sets@.map_values(|set: Json| set@),
            result_set_of(values[0]) == Some(first@),
            forall|k: int| 0 <= k < i ==> (#[trigger] result_set_of(values[k])) is Some,
        decreases sets.len() - i,
    {
        if result_set_from_json(&sets[i]).is_none() {
            assert(result_set_of(values[i as int]) is None);
            return Err(DecodeError::Malformed);
        }
        i += 1;
    }
    Ok(first)
}

} // verus!
