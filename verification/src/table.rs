//! The sample file: the recorded columns laid out as CSV records, one per
//! sample, after a header naming the columns.

use vstd::prelude::*;

verus! {

/// The number of recorded columns.
pub const COLUMN_COUNT: usize = 12;

/// The names of the columns, in file order.
pub open spec fn csv_header() -> Seq<Seq<char>> {
    seq![
        "time"@, "t1"@, "t2"@, "t3"@, "t4"@, "t5"@, "pump_state"@, "pump"@,
        "heater_1_state"@, "heater_1"@, "heater_2_state"@, "heater_2"@,
    ]
}

/// Twelve columns, none shorter than the first (the time column), which
/// gives the number of samples.
pub open spec fn columns_fit(columns: Seq<Seq<Seq<char>>>) -> bool {
    &&& columns.len() == COLUMN_COUNT
    &&& forall|j: int| 0 <= j < COLUMN_COUNT ==> #[trigger] columns[j].len() >= columns[0].len()
}

/// The record of sample `i`: the `i`-th entry of every column.
pub open spec fn sample_row(columns: Seq<Seq<Seq<char>>>, i: int) -> Seq<Seq<char>> {
    Seq::new(COLUMN_COUNT as nat, |j: int| columns[j][i])
}

/// The records of the file: the header, then one record per sample.
pub open spec fn csv_records(columns: Seq<Seq<Seq<char>>>) -> Seq<Seq<Seq<char>>> {
    seq![csv_header()] + Seq::new(columns[0].len(), |i: int| sample_row(columns, i))
}

/// Lays out the columns as the records of the sample file.
pub fn sample_records(columns: &Vec<Vec<String>>) -> (records: Vec<Vec<String>>)
    requires
        columns_fit(columns.deep_view()),
    ensures
        records.deep_view() == csv_records(columns.deep_view()),
{
    let ghost cols = columns.deep_view();
    let mut header: Vec<String> = Vec::new();
    header.push(String::from_str("time"));
    header.push(String::from_str("t1"));
    header.push(String::from_str("t2"));
    header.push(String::from_str("t3"));
    header.push(String::from_str("t4"));
    header.push(String::from_str("t5"));
    header.push(String::from_str("pump_state"));
    header.push(String::from_str("pump"));
    header.push(String::from_str("heater_1_state"));
    header.push(String::from_str("heater_1"));
    header.push(String::from_str("heater_2_state"));
    header.push(String::from_str("heater_2"));
    assert(header.deep_view() =~= csv_header());
    let mut records: Vec<Vec<String>> = Vec::new();
    records.push(header);
    let n = columns[0].len();
    assert(cols[0].len() == n);
    let mut i: usize = 0;
    while i < n
        invariant
            cols == columns.deep_view(),
            columns_fit(cols),
            n == cols[0].len(),
            i <= n,
            records.deep_view() =~= csv_records(cols).subrange(0, i + 1),
        decreases n - i,
    {
        let mut row: Vec<String> = Vec::new();
        let mut j: usize = 0;
        while j < COLUMN_COUNT
            invariant
                cols == columns.deep_view(),
                columns_fit(cols),
                n == cols[0].len(),
                i < n,
                j <= COLUMN_COUNT,
                row.deep_view() =~= sample_row(cols, i as int).subrange(0, j as int),
            decreases COLUMN_COUNT - j,
        {
            assert(cols[j as int].len() >= n);
            assert(columns@[j as int].deep_view() == cols[j as int]);
            let cell = columns[j][i].clone();
            assert(cell@ == cols[j as int][i as int]);
            let ghost before = row.deep_view();
            row.push(cell);
            assert(row.deep_view() =~= before.push(cell@));
            j = j + 1;
        }
        assert(row.deep_view() =~= sample_row(cols, i as int));
        let ghost before = records.deep_view();
        let ghost row_view = row.deep_view();
        records.push(row);
        assert(records.deep_view() =~= before.push(row_view));
        assert(csv_records(cols)[i + 1] == sample_row(cols, i as int));
        i = i + 1;
    }
    records
}

/// A field that the `csv` writer leaves unquoted: no comma, double quote,
/// carriage return or line feed in it.
pub open spec fn is_plain_field(field: Seq<char>) -> bool {
    forall|k: int| 0 <= k < field.len() ==> {
        let c = #[trigger] field[k];
        c != ',' && c != '"' && c != '\r' && c != '\n'
    }
}

pub open spec fn is_plain_record(fields: Seq<Seq<char>>) -> bool {
    forall|k: int| 0 <= k < fields.len() ==> is_plain_field(#[trigger] fields[k])
}

/// The fields one after the other, separated by commas.
pub open spec fn joined(fields: Seq<Seq<char>>) -> Seq<char>
    decreases fields.len(),
{
    if fields.len() == 0 {
        Seq::empty()
    } else if fields.len() == 1 {
        fields[0]
    } else {
        joined(fields.drop_last()) + seq![','] + fields.last()
    }
}

/// The text of a record of plain fields: the joined fields (or `""` when
/// they make no text at all), then a line feed.
pub open spec fn plain_record_text(fields: Seq<Seq<char>>) -> Seq<char> {
    if joined(fields).len() == 0 {
        seq!['"', '"', '\n']
    } else {
        joined(fields) + seq!['\n']
    }
}

/// The field with every double quote doubled.
pub open spec fn quotes_doubled(field: Seq<char>) -> Seq<char>
    decreases field.len(),
{
    if field.len() == 0 {
        Seq::empty()
    } else {
        quotes_doubled(field.drop_last()) + if field.last() == '"' {
            seq!['"', '"']
        } else {
            seq![field.last()]
        }
    }
}

/// How the `csv` writer writes one field: as it is when plain, otherwise
/// between double quotes with its own double quotes doubled.
pub open spec fn encoded_field(field: Seq<char>) -> Seq<char> {
    if is_plain_field(field) {
        field
    } else {
        seq!['"'] + quotes_doubled(field) + seq!['"']
    }
}

/// What the `csv` writer makes of one record: its fields encoded and joined
/// by commas (`""` when that gives no text at all), then a line feed.
pub open spec fn csv_record_text(fields: Seq<Seq<char>>) -> Seq<char> {
    plain_record_text(fields.map_values(|f: Seq<char>| encoded_field(f)))
}

/// Encodes one record with `csv::Writer::write_record` (writer built by
/// `csv::WriterBuilder` with its default settings, writing into memory) and
/// returns the written text: `csv_record_text`, as the writer's default rules
/// give it (a field is quoted exactly when it holds a comma, double quote,
/// carriage return or line feed, and its double quotes are then doubled;
/// fields are separated by commas; a record that writes no bytes is written
/// as `""`; a line feed ends the record). Writing one record into memory
/// cannot fail.
#[verifier::external_body]
fn encode_record(fields: &Vec<String>) -> (line: String)
    ensures
        line@ == csv_record_text(fields.deep_view()),
{
    let mut writer = csv::WriterBuilder::new().has_headers(false).from_writer(Vec::new());
    writer.write_record(fields).expect("one record always fits an in-memory writer");
    let bytes = writer.into_inner().expect("flushing into memory cannot fail");
    String::from_utf8(bytes).expect("UTF-8 fields give UTF-8 text")
}

/// A record of plain fields is written with no quoting at all.
pub proof fn lemma_plain_record(fields: Seq<Seq<char>>)
    requires
        is_plain_record(fields),
    ensures
        csv_record_text(fields) == plain_record_text(fields),
{
    let encoded = fields.map_values(|f: Seq<char>| encoded_field(f));
    assert forall|k: int| 0 <= k < fields.len() implies #[trigger] encoded[k] == fields[k] by {
        assert(is_plain_field(fields[k]));
    }
    assert(encoded =~= fields);
}

/// The text of a file holding `records`, one encoded record after another.
pub open spec fn csv_text(records: Seq<Seq<Seq<char>>>) -> Seq<char>
    decreases records.len(),
{
    if records.len() == 0 {
        Seq::empty()
    } else {
        csv_text(records.drop_last()) + csv_record_text(records.last())
    }
}

/// The file text of two runs of records one after the other is the text of
/// the first run followed by the text of the second, and a single record
/// gives exactly its own encoding.
pub proof fn lemma_csv_text_concat(first: Seq<Seq<Seq<char>>>, second: Seq<Seq<Seq<char>>>)
    ensures
        csv_text(first + second) == csv_text(first) + csv_text(second),
    decreases second.len(),
{
    if second.len() == 0 {
        assert(first + second =~= first);
        assert(csv_text(second) =~= Seq::<char>::empty());
        assert(csv_text(first) + csv_text(second) =~= csv_text(first));
    } else {
        lemma_csv_text_concat(first, second.drop_last());
        assert((first + second).drop_last() =~= first + second.drop_last());
        assert((first + second).last() == second.last());
        assert(csv_text(first + second) =~= csv_text(first) + csv_text(second));
    }
}

/// Every record is written, in place: the file text is the text of the
/// records before it, then the record's own encoding, then the text of the
/// records after it. In particular no record is left out and the text grows
/// by each record's encoding.
pub proof fn lemma_every_record_written(records: Seq<Seq<Seq<char>>>, i: int)
    requires
        0 <= i < records.len(),
    ensures
        csv_text(seq![records[i]]) == csv_record_text(records[i]),
        csv_text(records) == csv_text(records.take(i)) + csv_record_text(records[i])
            + csv_text(records.skip(i + 1)),
        csv_text(records).len() == csv_text(records.take(i)).len() + csv_record_text(records[i]).len()
            + csv_text(records.skip(i + 1)).len(),
{
    let single = seq![records[i]];
    assert(single.drop_last() =~= Seq::<Seq<Seq<char>>>::empty());
    assert(csv_text(single.drop_last()) =~= Seq::<char>::empty());
    assert(single.last() == records[i]);
    assert(csv_text(single) =~= csv_record_text(records[i]));
    assert(records =~= records.take(i) + single + records.skip(i + 1));
    lemma_csv_text_concat(records.take(i) + single, records.skip(i + 1));
    lemma_csv_text_concat(records.take(i), single);
}

/// The same for records written without quoting.
pub proof fn lemma_plain_csv_text_concat(first: Seq<Seq<Seq<char>>>, second: Seq<Seq<Seq<char>>>, record: Seq<Seq<char>>)
    ensures
        plain_csv_text(first + second) == plain_csv_text(first) + plain_csv_text(second),
        plain_csv_text(seq![record]) == plain_record_text(record),
    decreases second.len(),
{
    let single = seq![record];
    assert(single.drop_last() =~= Seq::<Seq<Seq<char>>>::empty());
    assert(plain_csv_text(single.drop_last()) =~= Seq::<char>::empty());
    assert(single.last() == record);
    assert(plain_csv_text(single) =~= plain_record_text(record));
    if second.len() == 0 {
        assert(first + second =~= first);
        assert(plain_csv_text(first) + plain_csv_text(second) =~= plain_csv_text(first));
    } else {
        lemma_plain_csv_text_concat(first, second.drop_last(), record);
        assert((first + second).drop_last() =~= first + second.drop_last());
        assert((first + second).last() == second.last());
        assert(plain_csv_text(first + second) =~= plain_csv_text(first) + plain_csv_text(second));
    }
}

/// The text of a file holding plain `records`.
pub open spec fn plain_csv_text(records: Seq<Seq<Seq<char>>>) -> Seq<char>
    decreases records.len(),
{
    if records.len() == 0 {
        Seq::empty()
    } else {
        plain_csv_text(records.drop_last()) + plain_record_text(records.last())
    }
}

pub open spec fn all_plain(records: Seq<Seq<Seq<char>>>) -> bool {
    forall|r: int| 0 <= r < records.len() ==> is_plain_record(#[trigger] records[r])
}

/// Encodes records one after the other.
fn encode_records(records: &Vec<Vec<String>>) -> (text: String)
    ensures
        text@ == csv_text(records.deep_view()),
        all_plain(records.deep_view()) ==> text@ == plain_csv_text(records.deep_view()),
{
    let ghost recs = records.deep_view();
    let mut text = String::new();
    let mut r: usize = 0;
    while r < records.len()
        invariant
            recs == records.deep_view(),
            r <= recs.len(),
            text@ == csv_text(recs.subrange(0, r as int)),
            all_plain(recs.subrange(0, r as int)) ==> text@ == plain_csv_text(recs.subrange(0, r as int)),
        decreases recs.len() - r,
    {
        let line = encode_record(&records[r]);
        assert(records@[r as int].deep_view() == recs[r as int]);
        proof {
            if is_plain_record(recs[r as int]) {
                lemma_plain_record(recs[r as int]);
            }
        }
        let ghost prefix = recs.subrange(0, r as int);
        let ghost next = recs.subrange(0, r + 1);
        assert(next.drop_last() =~= prefix);
        assert(next.last() == recs[r as int]);
        proof {
            if all_plain(next) {
                assert(is_plain_record(next[r as int]));
                assert forall|q: int| 0 <= q < prefix.len() implies is_plain_record(#[trigger] prefix[q]) by {
                    assert(prefix[q] == next[q]);
                }
            }
        }
        text.append(line.as_str());
        r = r + 1;
    }
    assert(recs.subrange(0, recs.len() as int) =~= recs);
    text
}

/// The text of the sample file for `columns`: the header record, then one
/// record per sample.
pub fn csv_document(columns: &Vec<Vec<String>>) -> (text: String)
    requires
        columns_fit(columns.deep_view()),
    ensures
        text@ == csv_text(csv_records(columns.deep_view())),
        all_plain(csv_records(columns.deep_view()))
            ==> text@ == plain_csv_text(csv_records(columns.deep_view())),
{
    let records = sample_records(columns);
    encode_records(&records)
}

/// The file holds one record more than there are samples: the header first,
/// then the record of each sample in order, each with one field per column.
pub proof fn lemma_one_record_per_sample(columns: Seq<Seq<Seq<char>>>)
    requires
        columns_fit(columns),
    ensures
        csv_records(columns).len() == columns[0].len() + 1,
        csv_records(columns)[0] == csv_header(),
        forall|i: int| 0 <= i < columns[0].len() ==> #[trigger] csv_records(columns)[i + 1] == sample_row(columns, i),
        forall|i: int| 0 <= i < columns[0].len() ==> (#[trigger] sample_row(columns, i)).len() == COLUMN_COUNT,
        forall|i: int, j: int| 0 <= i < columns[0].len() && 0 <= j < COLUMN_COUNT
            ==> #[trigger] sample_row(columns, i)[j] == columns[j][i],
{
}

/// The header is a plain record: the file starts with the column names
/// separated by commas, on a line of their own.
pub proof fn lemma_header_line()
    ensures
        is_plain_record(csv_header()),
        plain_record_text(csv_header())
            == "time,t1,t2,t3,t4,t5,pump_state,pump,heater_1_state,heater_1,heater_2_state,heater_2\n"@,
{
    reveal_strlit("time");
    reveal_strlit("t1");
    reveal_strlit("t2");
    reveal_strlit("t3");
    reveal_strlit("t4");
    reveal_strlit("t5");
    reveal_strlit("pump_state");
    reveal_strlit("pump");
    reveal_strlit("heater_1_state");
    reveal_strlit("heater_1");
    reveal_strlit("heater_2_state");
    reveal_strlit("heater_2");
    reveal_strlit("time,t1,t2,t3,t4,t5,pump_state,pump,heater_1_state,heater_1,heater_2_state,heater_2\n");
    let h = csv_header();
    assert forall|k: int| 0 <= k < h.len() implies is_plain_field(#[trigger] h[k]) by {
        assert(h[k] == csv_header()[k]);
    }
    reveal_with_fuel(joined, 13);
    assert(plain_record_text(h)
        =~= "time,t1,t2,t3,t4,t5,pump_state,pump,heater_1_state,heater_1,heater_2_state,heater_2\n"@);
}

} // verus!
