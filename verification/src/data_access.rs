//! The record of an issued code, the conditional write that stores it, and
//! what the gateway reports once the store has answered.

use crate::CreateUniqueCodeRequest;
use vstd::prelude::*;
use vstd::string::StringExecFns;

verus! {

/// One string attribute of a stored item, under its name.
#[derive(Debug, PartialEq, Eq)]
pub struct Attribute {
    pub name: String,
    pub value: String,
}

impl View for Attribute {
    type V = (Seq<char>, Seq<char>);

    open spec fn view(&self) -> (Seq<char>, Seq<char>) {
        (self.name@, self.value@)
    }
}

impl DeepView for Attribute {
    type V = (Seq<char>, Seq<char>);

    open spec fn deep_view(&self) -> (Seq<char>, Seq<char>) {
        self@
    }
}

/// Whether no name occurs twice among `attributes`.
pub open spec fn distinct_names(attributes: Seq<(Seq<char>, Seq<char>)>) -> bool {
    forall|i: int, j: int|
        0 <= i < j < attributes.len() ==> (#[trigger] attributes[i]).0 != (
        #[trigger] attributes[j]).0
}

/// The attribute that an optional field of a record is stored as: one
/// attribute where the field is present, none where it is absent.
pub open spec fn optional_attribute(name: Seq<char>, value: Option<Seq<char>>) -> Seq<
    (Seq<char>, Seq<char>),
> {
    match value {
        Some(text) => seq![(name, text)],
        None => seq![],
    }
}

/// A code record as the contracts see it.
pub struct CodeRecord {
    pub code: Seq<char>,
    pub created_on: Seq<char>,
    pub used_by: Option<Seq<char>>,
    pub reference: Option<Seq<char>>,
    pub description: Option<Seq<char>>,
}

impl CodeRecord {
    /// The attributes that the record is stored as: `Code` and `CreatedOn`
    /// always, `UsedBy`, `Reference` and `Description` where present.
    pub open spec fn attributes(self) -> Seq<(Seq<char>, Seq<char>)> {
        seq![("Code"@, self.code), ("CreatedOn"@, self.created_on)] + optional_attribute(
            "UsedBy"@,
            self.used_by,
        ) + optional_attribute("Reference"@, self.reference) + optional_attribute(
            "Description"@,
            self.description,
        )
    }
}

/// One issued code with its creation time and the requester's remarks.
#[derive(Debug, PartialEq, Eq)]
pub struct CreateUniqueCode {
    code: String,
    created_on: String,
    used_by: Option<String>,
    reference: Option<String>,
    description: Option<String>,
}

impl View for CreateUniqueCode {
    type V = CodeRecord;

    closed spec fn view(&self) -> CodeRecord {
        CodeRecord {
            code: self.code@,
            created_on: self.created_on@,
            used_by: self.used_by.deep_view(),
            reference: self.reference.deep_view(),
            description: self.description.deep_view(),
        }
    }
}

/// Appends the attribute `name` to `item` where `value` is present.
fn insert_optional(item: &mut Vec<Attribute>, name: &str, value: &Option<String>)
    ensures
        final(item).deep_view() == old(item).deep_view() + optional_attribute(
            name@,
            value.deep_view(),
        ),
{
    match value {
        Some(text) => {
            item.push(Attribute { name: String::from_str(name), value: text.clone() });
            assert(item.deep_view() =~= old(item).deep_view() + optional_attribute(
                name@,
                value.deep_view(),
            ));
        },
        None => {
            assert(item.deep_view() =~= old(item).deep_view() + optional_attribute(
                name@,
                value.deep_view(),
            ));
        },
    }
}

impl CreateUniqueCode {
    /// The record of `code`, created at `created_on`, with the remarks of
    /// `request`.
    pub fn new(code: String, created_on: String, request: CreateUniqueCodeRequest) -> (create:
        CreateUniqueCode)
        ensures
            create@ == (CodeRecord {
                code: code@,
                created_on: created_on@,
                used_by: request.used_by.deep_view(),
                reference: request.reference.deep_view(),
                description: request.description.deep_view(),
            }),
    {
        CreateUniqueCode {
            code,
            created_on,
            used_by: request.used_by,
            reference: request.reference,
            description: request.description,
        }
    }

    /// The code, the key under which the record is stored.
    pub fn code(&self) -> (code: &String)
        ensures
            code@ == self@.code,
    {
        &self.code
    }

    /// When the code was issued.
    pub fn created_on(&self) -> (created_on: &String)
        ensures
            created_on@ == self@.created_on,
    {
        &self.created_on
    }

    /// Who asked for the code, where the request said so.
    pub fn used_by(&self) -> (used_by: &Option<String>)
        ensures
            used_by.deep_view() == self@.used_by,
    {
        &self.used_by
    }

    /// What the code refers to, where the request said so.
    pub fn reference(&self) -> (reference: &Option<String>)
        ensures
            reference.deep_view() == self@.reference,
    {
        &self.reference
    }

    /// What the code is for, where the request said so.
    pub fn description(&self) -> (description: &Option<String>)
        ensures
            description.deep_view() == self@.description,
    {
        &self.description
    }

    /// The attributes that the record is stored as, each under its name
    /// and none twice.
    pub fn to_attributes_by_name(&self) -> (item: Vec<Attribute>)
        ensures
            item.deep_view() == self@.attributes(),
            distinct_names(item.deep_view()),
    {
        let mut item: Vec<Attribute> = Vec::new();
        item.push(Attribute { name: String::from_str("Code"), value: self.code.clone() });
        item.push(
            Attribute { name: String::from_str("CreatedOn"), value: self.created_on.clone() },
        );
        assert(item.deep_view() =~= seq![("Code"@, self@.code), ("CreatedOn"@, self@.created_on)]);
        insert_optional(&mut item, "UsedBy", &self.used_by);
        insert_optional(&mut item, "Reference", &self.reference);
        insert_optional(&mut item, "Description", &self.description);
        proof {
            lemma_attribute_names(self@);
        }
        item
    }
}

/// No two attributes of a record have the same name. A record has between
/// two and five of them: its code first, its creation time second.
pub proof fn lemma_attribute_names(record: CodeRecord)
    ensures
        distinct_names(record.attributes()),
        2 <= record.attributes().len() <= 5,
        record.attributes()[0] == ("Code"@, record.code),
        record.attributes()[1] == ("CreatedOn"@, record.created_on),
{
    reveal_strlit("Code");
    reveal_strlit("CreatedOn");
    reveal_strlit("UsedBy");
    reveal_strlit("Reference");
    reveal_strlit("Description");
    let attributes = record.attributes();
    let used_by = optional_attribute("UsedBy"@, record.used_by);
    let reference = optional_attribute("Reference"@, record.reference);
    let name_at = |i: int|
        if i == 0 {
            "Code"@
        } else if i == 1 {
            "CreatedOn"@
        } else if i < 2 + used_by.len() {
            "UsedBy"@
        } else if i < 2 + used_by.len() + reference.len() {
            "Reference"@
        } else {
            "Description"@
        };
    assert forall|i: int| 0 <= i < attributes.len() implies (#[trigger] attributes[i]).0
        == name_at(i) by {}
    assert forall|i: int, j: int| 0 <= i < j < attributes.len() implies (#[trigger] attributes[i]).0
        != (#[trigger] attributes[j]).0 by {
        let first = attributes[i].0;
        let second = attributes[j].0;
        assert(first.len() != second.len() || first[0] != second[0]);
    }
}

/// The conditional write that stores one record, as the store is to be
/// asked for it: the item is written unless the condition fails.
#[derive(Debug, PartialEq, Eq)]
pub struct PutItem {
    pub table_name: String,
    pub item: Vec<Attribute>,
    pub condition_expression: String,
}

/// A conditional write as the contracts see it.
pub struct PutItemView {
    pub table_name: Seq<char>,
    pub item: Seq<(Seq<char>, Seq<char>)>,
    pub condition_expression: Seq<char>,
}

impl View for PutItem {
    type V = PutItemView;

    open spec fn view(&self) -> PutItemView {
        PutItemView {
            table_name: self.table_name@,
            item: self.item.deep_view(),
            condition_expression: self.condition_expression@,
        }
    }
}

/// How the store answered a conditional write.
#[derive(Debug, Clone, Copy, PartialEq, Eq)]
pub enum StoreReply {
    /// The item was written.
    Written,
    /// The condition failed: a record with this code exists already.
    CodeExists,
    /// The write failed for any other reason.
    Unavailable,
}

/// The one failure that the gateway reports, whatever its cause.
#[derive(Debug, Clone, Copy, PartialEq, Eq)]
pub struct SaveError;

/// What the gateway reports for a reply of the store: success where the
/// item was written, the failure otherwise.
pub open spec fn save_result(reply: StoreReply) -> Result<bool, SaveError> {
    match reply {
        StoreReply::Written => Ok(true),
        StoreReply::CodeExists => Err(SaveError),
        StoreReply::Unavailable => Err(SaveError),
    }
}

/// Where the gateway writes, as the contracts see it.
pub struct Configuration {
    pub table_name: Seq<char>,
    pub region: Seq<char>,
}

/// Stores code records in one table of a key-value store, each under its
/// code and only where no record holds that code yet.
#[derive(Debug, PartialEq, Eq)]
pub struct DataAccessGateway {
    table_name: String,
    region: String,
}

impl View for DataAccessGateway {
    type V = Configuration;

    closed spec fn view(&self) -> Configuration {
        Configuration { table_name: self.table_name@, region: self.region@ }
    }
}

impl DataAccessGateway {
    /// The gateway to the table `UniqueCodes` in the region `eu-central-1`.
    pub fn new() -> (gateway: DataAccessGateway)
        ensures
            gateway@ == (Configuration { table_name: "UniqueCodes"@, region: "eu-central-1"@ }),
    {
        DataAccessGateway {
            table_name: String::from_str("UniqueCodes"),
            region: String::from_str("eu-central-1"),
        }
    }

    /// The gateway to the table `table_name` in the region `region`.
    pub fn with_configuration(table_name: String, region: String) -> (gateway: DataAccessGateway)
        ensures
            gateway@ == (Configuration { table_name: table_name@, region: region@ }),
    {
        DataAccessGateway { table_name, region }
    }

    /// The table that the gateway writes to.
    pub fn table_name(&self) -> (table_name: &String)
        ensures
            table_name@ == self@.table_name,
    {
        &self.table_name
    }

    /// The region in which the table lies.
    pub fn region(&self) -> (region: &String)
        ensures
            region@ == self@.region,
    {
        &self.region
    }

    /// The write that stores `record` through this gateway: its attributes
    /// go to the gateway's table, on the condition that the table holds no
    /// item with the attribute `Code` under the record's key.
    pub open spec fn put_item_of(&self, record: CodeRecord) -> PutItemView {
        PutItemView {
            table_name: self@.table_name,
            item: record.attributes(),
            condition_expression: "attribute_not_exists(Code)"@,
        }
    }

    /// The write to perform in order to store `create`.
    pub fn put_item(&self, create: &CreateUniqueCode) -> (put: PutItem)
        ensures
            put@ == self.put_item_of(create@),
            distinct_names(put@.item),
    {
        PutItem {
            table_name: self.table_name.clone(),
            item: create.to_attributes_by_name(),
            condition_expression: String::from_str("attribute_not_exists(Code)"),
        }
    }

    /// What the gateway reports once the store has answered the write with
    /// `reply`: `Ok(true)` where the item was written, the failure where a
    /// record with the code exists already or the store could not be
    /// reached.
    pub fn save(&self, reply: StoreReply) -> (saved: Result<bool, SaveError>)
        ensures
            saved == save_result(reply),
    {
        match reply {
            StoreReply::Written => Ok(true),
            StoreReply::CodeExists => Err(SaveError),
            StoreReply::Unavailable => Err(SaveError),
        }
    }
}

} // verus!
