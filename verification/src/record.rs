//! Alarm records: their columns, how one is read from a JSON object and
//! written as one, and the row of cells it becomes.

use crate::json::{lemma_member_found, Json, JsonValue, Member};
use vstd::prelude::*;

verus! {

/// The attributes of an alarm record, in the order of the page's columns.
#[derive(Clone, Copy, Debug, PartialEq, Eq, Structural)]
pub enum Column {
    AlarmName,
    Severity,
    AlarmCategory,
    EdgepointSiteId,
    OldSiteId,
    Hardware,
    SiteNames,
    Area,
    Province,
    SiteCategory,
    OccurenceTime,
}

/// The number of columns.
pub const COLUMNS: usize = 11;

impl Column {
    /// The columns from left to right.
    pub open spec fn order() -> Seq<Column> {
        seq![
            Column::AlarmName,
            Column::Severity,
            Column::AlarmCategory,
            Column::EdgepointSiteId,
            Column::OldSiteId,
            Column::Hardware,
            Column::SiteNames,
            Column::Area,
            Column::Province,
            Column::SiteCategory,
            Column::OccurenceTime,
        ]
    }

    /// The position of the column, counted from 0.
    pub open spec fn position(self) -> int {
        match self {
            Column::AlarmName => 0,
            Column::Severity => 1,
            Column::AlarmCategory => 2,
            Column::EdgepointSiteId => 3,
            Column::OldSiteId => 4,
            Column::Hardware => 5,
            Column::SiteNames => 6,
            Column::Area => 7,
            Column::Province => 8,
            Column::SiteCategory => 9,
            Column::OccurenceTime => 10,
        }
    }

    /// The name under which the monitoring service sends the attribute.
    pub open spec fn key_text(self) -> Seq<char> {
        match self {
            Column::AlarmName => "Alarmmappings.alias"@,
            Column::Severity => "Messagesalert.name"@,
            Column::AlarmCategory => "Alarmmappings.alarmtype"@,
            Column::EdgepointSiteId => "Messagesalert.siteId"@,
            Column::OldSiteId => "Site.oldsiteid"@,
            Column::Hardware => "HardwareMappings.hardwarealias"@,
            Column::SiteNames => "Site.sitename"@,
            Column::Area => "Region.regionname"@,
            Column::Province => "District.districtName"@,
            Column::SiteCategory => "TelenorInventoryNwd.criticality"@,
            Column::OccurenceTime => "Messagesalert.ariseTime"@,
        }
    }

    /// The heading of the column on the page.
    pub open spec fn label_text(self) -> Seq<char> {
        match self {
            Column::AlarmName => "alarm_name"@,
            Column::Severity => "severity"@,
            Column::AlarmCategory => "alarm_category"@,
            Column::EdgepointSiteId => "edgepoint_site_id"@,
            Column::OldSiteId => "old_site_id"@,
            Column::Hardware => "hardware"@,
            Column::SiteNames => "site_names"@,
            Column::Area => "area"@,
            Column::Province => "province"@,
            Column::SiteCategory => "site_category"@,
            Column::OccurenceTime => "occurence_time"@,
        }
    }

    /// The name under which the monitoring service sends the attribute.
    pub fn key(self) -> (name: &'static str)
        ensures
            name@ == self.key_text(),
    {
        match self {
            Column::AlarmName => "Alarmmappings.alias",
            Column::Severity => "Messagesalert.name",
            Column::AlarmCategory => "Alarmmappings.alarmtype",
            Column::EdgepointSiteId => "Messagesalert.siteId",
            Column::OldSiteId => "Site.oldsiteid",
            Column::Hardware => "HardwareMappings.hardwarealias",
            Column::SiteNames => "Site.sitename",
            Column::Area => "Region.regionname",
            Column::Province => "District.districtName",
            Column::SiteCategory => "TelenorInventoryNwd.criticality",
            Column::OccurenceTime => "Messagesalert.ariseTime",
        }
    }

    /// The heading of the column on the page.
    pub fn label(self) -> (heading: &'static str)
        ensures
            heading@ == self.label_text(),
    {
        match self {
            Column::AlarmName => "alarm_name",
            Column::Severity => "severity",
            Column::AlarmCategory => "alarm_category",
            Column::EdgepointSiteId => "edgepoint_site_id",
            Column::OldSiteId => "old_site_id",
            Column::Hardware => "hardware",
            Column::SiteNames => "site_names",
            Column::Area => "area",
            Column::Province => "province",
            Column::SiteCategory => "site_category",
            Column::OccurenceTime => "occurence_time",
        }
    }

    /// The columns from left to right.
    pub fn all() -> (columns: [Column; 11])
        ensures
            columns@ == Column::order(),
    {
        let columns = [
            Column::AlarmName,
            Column::Severity,
            Column::AlarmCategory,
            Column::EdgepointSiteId,
            Column::OldSiteId,
            Column::Hardware,
            Column::SiteNames,
            Column::Area,
            Column::Province,
            Column::SiteCategory,
            Column::OccurenceTime,
        ];
        assert(columns@ =~= Column::order());
        columns
    }
}

/// Every column stands in `order` at its `position`.
pub proof fn lemma_order_holds_every_column(column: Column)
    ensures
        0 <= column.position() < COLUMNS,
        Column::order().len() == COLUMNS,
        Column::order()[column.position()] == column,
{
}

/// No two columns share the name under which the service sends them.
pub proof fn lemma_keys_differ(a: Column, b: Column)
    ensures
        a.key_text() == b.key_text() ==> a == b,
{
    reveal_strlit("Alarmmappings.alias");
    reveal_strlit("Messagesalert.name");
    reveal_strlit("Alarmmappings.alarmtype");
    reveal_strlit("Messagesalert.siteId");
    reveal_strlit("Site.oldsiteid");
    reveal_strlit("HardwareMappings.hardwarealias");
    reveal_strlit("Site.sitename");
    reveal_strlit("Region.regionname");
    reveal_strlit("District.districtName");
    reveal_strlit("TelenorInventoryNwd.criticality");
    reveal_strlit("Messagesalert.ariseTime");
    if a.key_text() == b.key_text() {
        assert(a.key_text().len() == b.key_text().len());
        assert(a.key_text()[0] == b.key_text()[0]);
    }
}

/// One alarm as the monitoring service reports it. Every attribute may be
/// missing; the time of occurrence is kept as the text that was sent.
#[derive(Clone, Debug, PartialEq, Eq)]
pub struct AlarmRecord {
    pub alarm_name: Option<String>,
    pub severity: Option<String>,
    pub alarm_category: Option<String>,
    pub edgepoint_site_id: Option<String>,
    pub old_site_id: Option<String>,
    pub hardware: Option<String>,
    pub site_names: Option<String>,
    pub area: Option<String>,
    pub province: Option<String>,
    pub site_category: Option<String>,
    pub occurence_time: Option<String>,
}

/// An alarm record as a mathematical value.
pub struct AlarmRecordView {
    pub alarm_name: Option<Seq<char>>,
    pub severity: Option<Seq<char>>,
    pub alarm_category: Option<Seq<char>>,
    pub edgepoint_site_id: Option<Seq<char>>,
    pub old_site_id: Option<Seq<char>>,
    pub hardware: Option<Seq<char>>,
    pub site_names: Option<Seq<char>>,
    pub area: Option<Seq<char>>,
    pub province: Option<Seq<char>>,
    pub site_category: Option<Seq<char>>,
    pub occurence_time: Option<Seq<char>>,
}

impl AlarmRecordView {
    /// The attribute that stands in `column`.
    pub open spec fn field(self, column: Column) -> Option<Seq<char>> {
        match column {
            Column::AlarmName => self.alarm_name,
            Column::Severity => self.severity,
            Column::AlarmCategory => self.alarm_category,
            Column::EdgepointSiteId => self.edgepoint_site_id,
            Column::OldSiteId => self.old_site_id,
            Column::Hardware => self.hardware,
            Column::SiteNames => self.site_names,
            Column::Area => self.area,
            Column::Province => self.province,
            Column::SiteCategory => self.site_category,
            Column::OccurenceTime => self.occurence_time,
        }
    }

    /// The record whose attribute in each column is what `fields` gives for it.
    pub open spec fn from_fields(fields: spec_fn(Column) -> Option<Seq<char>>) -> AlarmRecordView {
        AlarmRecordView {
            alarm_name: fields(Column::AlarmName),
            severity: fields(Column::Severity),
            alarm_category: fields(Column::AlarmCategory),
            edgepoint_site_id: fields(Column::EdgepointSiteId),
            old_site_id: fields(Column::OldSiteId),
            hardware: fields(Column::Hardware),
            site_names: fields(Column::SiteNames),
            area: fields(Column::Area),
            province: fields(Column::Province),
            site_category: fields(Column::SiteCategory),
            occurence_time: fields(Column::OccurenceTime),
        }
    }
}

impl View for AlarmRecord {
    type V = AlarmRecordView;

    open spec fn view(&self) -> AlarmRecordView {
        AlarmRecordView {
            alarm_name: self.alarm_name.deep_view(),
            severity: self.severity.deep_view(),
            alarm_category: self.alarm_category.deep_view(),
            edgepoint_site_id: self.edgepoint_site_id.deep_view(),
            old_site_id: self.old_site_id.deep_view(),
            hardware: self.hardware.deep_view(),
            site_names: self.site_names.deep_view(),
            area: self.area.deep_view(),
            province: self.province.deep_view(),
            site_category: self.site_category.deep_view(),
            occurence_time: self.occurence_time.deep_view(),
        }
    }
}

/// The alarm records of one result set, in the order in which they were sent.
#[derive(Clone, Debug, PartialEq, Eq)]
pub struct AlarmBatch {
    pub records: Vec<AlarmRecord>,
}

impl View for AlarmBatch {
    type V = Seq<AlarmRecordView>;

    open spec fn view(&self) -> Seq<AlarmRecordView> {
        self.records@.map_values(|record: AlarmRecord| record@)
    }
}

/// What a member of a record object says of an attribute: `Some(None)` where
/// the member is missing or null, `Some(Some(text))` where it is a string, and
/// `None` where it is anything else.
pub open spec fn optional_text(found: Option<JsonValue>) -> Option<Option<Seq<char>>> {
    match found {
        None => Some(None),
        Some(JsonValue::Null) => Some(None),
        Some(JsonValue::Text(text)) => Some(Some(text)),
        Some(_) => None,
    }
}

/// The record that a JSON value stands for: an object in which each
/// attribute's member is missing, null or a string. Members under other
/// names are passed over.
pub open spec fn record_of(doc: JsonValue) -> Option<AlarmRecordView> {
    if doc is Object && forall|column: Column| optional_text(doc.get(column.key_text())) is Some {
        Some(
            AlarmRecordView::from_fields(
                |column: Column| optional_text(doc.get(column.key_text())).unwrap(),
            ),
        )
    } else {
        None
    }
}

/// The JSON value in which an attribute is sent.
pub open spec fn attribute_json(field: Option<Seq<char>>) -> JsonValue {
    match field {
        Some(text) => JsonValue::Text(text),
        None => JsonValue::Null,
    }
}

/// The object in which a record is sent: one member for each column, in the
/// order of the columns, null where the attribute is missing.
pub open spec fn json_of(record: AlarmRecordView) -> JsonValue {
    JsonValue::Object(
        Seq::new(
            COLUMNS as nat,
            |i: int| (Column::order()[i].key_text(), attribute_json(record.field(Column::order()[i]))),
        ),
    )
}

/// The cell that shows an attribute: its text, empty where it is missing.
pub open spec fn cell_of(field: Option<Seq<char>>) -> Seq<char> {
    match field {
        Some(text) => text,
        None => Seq::empty(),
    }
}

/// The row of cells that shows a record, one cell for each column.
pub open spec fn row_of(record: AlarmRecordView) -> Seq<Seq<char>> {
    Seq::new(COLUMNS as nat, |i: int| cell_of(record.field(Column::order()[i])))
}

/// The object in which a record is sent holds, under each column's name, the
/// attribute of that column.
pub proof fn lemma_sent_attribute(record: AlarmRecordView, column: Column)
    ensures
        json_of(record).get(column.key_text()) == Some(attribute_json(record.field(column))),
{
    let members = json_of(record)->Object_0;
    let at = column.position();
    lemma_order_holds_every_column(column);
    assert forall|k: int| 0 <= k < at implies members[k].0 != column.key_text() by {
        lemma_keys_differ(Column::order()[k], column);
    }
    lemma_member_found(members, column.key_text(), 0, at);
}

/// Two records with the same attribute in every column are one record.
pub proof fn lemma_record_by_fields(one: AlarmRecordView, other: AlarmRecordView)
    requires
        forall|column: Column| one.field(column) == other.field(column),
    ensures
        one == other,
{
    assert(one.field(Column::AlarmName) == other.field(Column::AlarmName));
    assert(one.field(Column::Severity) == other.field(Column::Severity));
    assert(one.field(Column::AlarmCategory) == other.field(Column::AlarmCategory));
    assert(one.field(Column::EdgepointSiteId) == other.field(Column::EdgepointSiteId));
    assert(one.field(Column::OldSiteId) == other.field(Column::OldSiteId));
    assert(one.field(Column::Hardware) == other.field(Column::Hardware));
    assert(one.field(Column::SiteNames) == other.field(Column::SiteNames));
    assert(one.field(Column::Area) == other.field(Column::Area));
    assert(one.field(Column::Province) == other.field(Column::Province));
    assert(one.field(Column::SiteCategory) == other.field(Column::SiteCategory));
    assert(one.field(Column::OccurenceTime) == other.field(Column::OccurenceTime));
}

/// A record that is sent and read again is the record that was sent: every
/// attribute compares equal, a missing one is missing again.
pub proof fn lemma_record_round_trip(record: AlarmRecordView)
    ensures
        record_of(json_of(record)) == Some(record),
{
    let doc = json_of(record);
    assert forall|column: Column|
        optional_text(#[trigger] doc.get(column.key_text())) == Some(record.field(column)) by {
        lemma_sent_attribute(record, column);
    }
    let read = AlarmRecordView::from_fields(
        |column: Column| optional_text(doc.get(column.key_text())).unwrap(),
    );
    assert forall|column: Column| read.field(column) == record.field(column) by {
        lemma_sent_attribute(record, column);
    }
    lemma_record_by_fields(read, record);
}

/// Reads the attribute of `column` from a record object: `Some(None)` where
/// its member is missing or null, `Some(Some(text))` where it is a string,
/// `None` where it is anything else.
pub fn read_attribute(doc: &Json, column: Column) -> (field: Option<Option<String>>)
    ensures
        field.deep_view() == optional_text(doc@.get(column.key_text())),
{
    match doc.get(column.key()) {
        None => Some(None),
        Some(Json::Null) => Some(None),
        Some(Json::Text(text)) => Some(Some(text.clone())),
        Some(_) => None,
    }
}

impl AlarmRecord {
    /// Reads a record from the JSON value that stands for it; `None` where the
    /// value stands for none.
    pub fn from_json(doc: &Json) -> (read: Option<AlarmRecord>)
        ensures
            match read {
                Some(record) => record_of(doc@) == Some(record@),
                None => record_of(doc@) is None,
            },
    {
        match doc {
            Json::Object(_) => {},
            _ => {
                return None;
            },
        }
        let alarm_name = match read_attribute(doc, Column::AlarmName) {
            Some(field) => field,
            None => return None,
        };
        let severity = match read_attribute(doc, Column::Severity) {
            Some(field) => field,
            None => return None,
        };
        let alarm_category = match read_attribute(doc, Column::AlarmCategory) {
            Some(field) => field,
            None => return None,
        };
        let edgepoint_site_id = match read_attribute(doc, Column::EdgepointSiteId) {
            Some(field) => field,
            None => return None,
        };
        let old_site_id = match read_attribute(doc, Column::OldSiteId) {
            Some(field) => field,
            None => return None,
        };
        let hardware = match read_attribute(doc, Column::Hardware) {
            Some(field) => field,
            None => return None,
        };
        let site_names = match read_attribute(doc, Column::SiteNames) {
            Some(field) => field,
            None => return None,
        };
        let area = match read_attribute(doc, Column::Area) {
            Some(field) => field,
            None => return None,
        };
        let province = match read_attribute(doc, Column::Province) {
            Some(field) => field,
            None => return None,
        };
        let site_category = match read_attribute(doc, Column::SiteCategory) {
            Some(field) => field,
            None => return None,
        };
        let occurence_time = match read_attribute(doc, Column::OccurenceTime) {
            Some(field) => field,
            None => return None,
        };
        let record = AlarmRecord {
            alarm_name,
            severity,
            alarm_category,
            edgepoint_site_id,
            old_site_id,
            hardware,
            site_names,
            area,
            province,
            site_category,
            occurence_time,
        };
        proof {
            assert forall|column: Column|
                optional_text(doc@.get(column.key_text())) == Some(record@.field(column)) by {
                match column {
                    Column::AlarmName => {},
                    Column::Severity => {},
                    Column::AlarmCategory => {},
                    Column::EdgepointSiteId => {},
                    Column::OldSiteId => {},
                    Column::Hardware => {},
                    Column::SiteNames => {},
                    Column::Area => {},
                    Column::Province => {},
                    Column::SiteCategory => {},
                    Column::OccurenceTime => {},
                }
            }
        }
        Some(record)
    }

    /// The attribute that stands in `column`.
    pub fn field(&self, column: Column) -> (field: &Option<String>)
        ensures
            field.deep_view() == self@.field(column),
    {
        match column {
            Column::AlarmName => &self.alarm_name,
            Column::Severity => &self.severity,
            Column::AlarmCategory => &self.alarm_category,
            Column::EdgepointSiteId => &self.edgepoint_site_id,
            Column::OldSiteId => &self.old_site_id,
            Column::Hardware => &self.hardware,
            Column::SiteNames => &self.site_names,
            Column::Area => &self.area,
            Column::Province => &self.province,
            Column::SiteCategory => &self.site_category,
            Column::OccurenceTime => &self.occurence_time,
        }
    }

    /// The object in which the record is sent.
    pub fn to_json(&self) -> (doc: Json)
        ensures
            doc@ == json_of(self@),
    {
        let columns = Column::all();
        let mut members: Vec<Member> = Vec::new();
        let mut i: usize = 0;
        while i < COLUMNS
            invariant
                i <= COLUMNS,
                columns@ == Column::order(),
                members@.len() == i,
                forall|k: int|
                    0 <= k < i ==> (#[trigger] members@[k]).name@ == Column::order()[k].key_text()
                        && members@[k].value@ == attribute_json(self@.field(Column::order()[k])),
            decreases COLUMNS - i,
        {
            let column = columns[i];
            let value = match self.field(column) {
                Some(text) => Json::Text(text.clone()),
                None => Json::Null,
            };
            members.push(Member { name: String::from_str(column.key()), value });
            i += 1;
        }
        let doc = Json::Object(members);
        assert(doc@->Object_0 =~= json_of(self@)->Object_0);
        doc
    }

    /// The row of cells that shows the record.
    pub fn row(&self) -> (cells: Vec<String>)
        ensures
            cells.deep_view() == row_of(self@),
    {
        let columns = Column::all();
        let mut cells: Vec<String> = Vec::new();
        let mut i: usize = 0;
        while i < COLUMNS
            invariant
                i <= COLUMNS,
                columns@ == Column::order(),
                cells@.len() == i,
                forall|k: int|
                    0 <= k < i ==> (#[trigger] cells@[k])@ == cell_of(
                        self@.field(Column::order()[k]),
                    ),
            decreases COLUMNS - i,
        {
            let cell = match self.field(columns[i]) {
                Some(text) => text.clone(),
                None => String::new(),
            };
            cells.push(cell);
            i += 1;
        }
        assert(cells.deep_view() =~= row_of(self@));
        cells
    }
}

} // verus!
