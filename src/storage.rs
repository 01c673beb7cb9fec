use crate::record::{
    composite_key, is_timestamp_text, lemma_timestamp_injective, lemma_timestamp_shape,
    stored_record, timestamp_text, utc_now, Item, StoredRecord, UtcInstant,
};
use vstd::prelude::*;

verus! {

/// One unconditional put: the table and the string attributes of the item.
#[derive(Clone, Debug, PartialEq, Eq)]
pub struct PutItem {
    pub table: String,
    pub attributes: Vec<(String, String)>,
}

impl PutItem {
    pub open spec fn attributes_view(self) -> Seq<(Seq<char>, Seq<char>)> {
        self.attributes@.map_values(|p: (String, String)| (p.0@, p.1@))
    }
}

/// The attributes of a stored record, partition key first.
pub open spec fn record_attributes(
    key: Seq<char>,
    name: Seq<char>,
    email: Seq<char>,
    message: Seq<char>,
) -> Seq<(Seq<char>, Seq<char>)> {
    seq![
        ("email_timestamp"@, key),
        ("Name"@, name),
        ("Email"@, email),
        ("Content"@, message),
    ]
}

/// The attributes written for `item` at instant `t`.
pub open spec fn submission_attributes(item: Item, t: UtcInstant) -> Seq<(Seq<char>, Seq<char>)> {
    record_attributes(composite_key(item.email@, t), item.name@, item.email@, item.message@)
}

/// The table's items by partition key. A put stores its attributes under the
/// value of its first attribute, the partition key, replacing any item there.
pub open spec fn apply_put(
    table: Map<Seq<char>, Seq<(Seq<char>, Seq<char>)>>,
    attributes: Seq<(Seq<char>, Seq<char>)>,
) -> Map<Seq<char>, Seq<(Seq<char>, Seq<char>)>> {
    table.insert(attributes[0].1, attributes)
}

/// The put that persists `record` into `table`.
pub fn put_item_request(table: &str, record: StoredRecord) -> (r: PutItem)
    ensures
        r.table@ == table@,
        r.attributes_view() == record_attributes(
            record.composite_key@,
            record.name@,
            record.email@,
            record.message@,
        ),
{
    let key_name = String::from_str("email_timestamp");
    let name_name = String::from_str("Name");
    let email_name = String::from_str("Email");
    let message_name = String::from_str("Content");
    let mut attributes: Vec<(String, String)> = Vec::new();
    attributes.push((key_name, record.composite_key));
    attributes.push((name_name, record.name));
    attributes.push((email_name, record.email));
    attributes.push((message_name, record.message));
    let r = PutItem { table: String::from_str(table), attributes };
    assert(r.attributes_view() =~= record_attributes(
        record.composite_key@,
        record.name@,
        record.email@,
        record.message@,
    ));
    r
}

/// The put that writes `item` into `table` at instant `at`, or `None` where
/// the instant's year does not fit the four digits of the key.
pub fn add_item_at(item: &Item, table: &str, at: &UtcInstant) -> (r: Option<PutItem>)
    ensures
        r is Some <==> at.four_digit_year(),
        r matches Some(p) ==> p.table@ == table@ && p.attributes_view()
            == submission_attributes(*item, *at),
{
    if at.year < 0 || at.year > 9999 {
        None
    } else {
        let record = stored_record(item, at);
        Some(put_item_request(table, record))
    }
}

/// The put that writes `item` into `table` now. Each call reads the clock
/// afresh; `None` where the clock reads before the Unix epoch or past year
/// 9999.
pub fn add_item(item: &Item, table: &str) -> (r: Option<PutItem>)
    ensures
        r matches Some(p) ==> p.table@ == table@ && exists|t: UtcInstant|
            t.wf() && t.four_digit_year() && p.attributes_view()
                == #[trigger] submission_attributes(*item, t),
{
    match utc_now() {
        Some(now) => add_item_at(item, table, &now),
        None => None,
    }
}

/// After writing `item` at instant `t`, reading the table at the produced key
/// gives the item's name, email and message, and a key that is the email,
/// `#` and a well-formed timestamp.
pub proof fn lemma_write_reads_back(
    table: Map<Seq<char>, Seq<(Seq<char>, Seq<char>)>>,
    item: Item,
    t: UtcInstant,
)
    requires
        t.wf(),
        t.four_digit_year(),
    ensures
        ({
            let key = composite_key(item.email@, t);
            let after = apply_put(table, submission_attributes(item, t));
            &&& key == item.email@ + seq!['#'] + timestamp_text(t)
            &&& is_timestamp_text(timestamp_text(t))
            &&& after.contains_key(key)
            &&& after[key] == record_attributes(key, item.name@, item.email@, item.message@)
        }),
{
    lemma_timestamp_shape(t);
}

/// Two writes of one submission at instants that differ at microsecond
/// precision produce different keys, and both items stay in the table.
pub proof fn lemma_distinct_instants_keep_both(
    table: Map<Seq<char>, Seq<(Seq<char>, Seq<char>)>>,
    item: Item,
    t1: UtcInstant,
    t2: UtcInstant,
)
    requires
        t1.wf(),
        t2.wf(),
        t1.four_digit_year(),
        t2.four_digit_year(),
        t1.shown() != t2.shown(),
    ensures
        ({
            let a1 = submission_attributes(item, t1);
            let a2 = submission_attributes(item, t2);
            let after = apply_put(apply_put(table, a1), a2);
            &&& composite_key(item.email@, t1) != composite_key(item.email@, t2)
            &&& after.contains_key(composite_key(item.email@, t1))
            &&& after.contains_key(composite_key(item.email@, t2))
            &&& after[composite_key(item.email@, t1)] == a1
            &&& after[composite_key(item.email@, t2)] == a2
        }),
{
    lemma_timestamp_injective(t1, t2);
    let prefix = item.email@ + seq!['#'];
    let k1 = composite_key(item.email@, t1);
    let k2 = composite_key(item.email@, t2);
    if k1 == k2 {
        assert(k1.subrange(prefix.len() as int, k1.len() as int) =~= timestamp_text(t1));
        assert(k2.subrange(prefix.len() as int, k2.len() as int) =~= timestamp_text(t2));
    }
}

} // verus!
