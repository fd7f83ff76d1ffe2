use bijou::table::{csv_document, sample_records, COLUMN_COUNT};

const HEADER: &str = "time,t1,t2,t3,t4,t5,pump_state,pump,heater_1_state,heater_1,heater_2_state,heater_2\n";

fn columns(samples: &[&str]) -> Vec<Vec<String>> {
    (0..COLUMN_COUNT)
        .map(|j| samples.iter().map(|s| format!("{}{}", s, j)).collect())
        .collect()
}

#[test]
fn empty_recording_gives_header_only() {
    let cols: Vec<Vec<String>> = vec![Vec::new(); COLUMN_COUNT];
    assert_eq!(csv_document(&cols), HEADER);
    assert_eq!(sample_records(&cols).len(), 1);
}

#[test]
fn one_record_per_sample() {
    let cols = columns(&["a", "b"]);
    let records = sample_records(&cols);
    assert_eq!(records.len(), 3);
    assert_eq!(records[0][0], "time");
    assert_eq!(records[0][11], "heater_2");
    assert_eq!(records[1][0], "a0");
    assert_eq!(records[2][11], "b11");
    let text = csv_document(&cols);
    assert_eq!(
        text,
        format!("{}a0,a1,a2,a3,a4,a5,a6,a7,a8,a9,a10,a11\nb0,b1,b2,b3,b4,b5,b6,b7,b8,b9,b10,b11\n", HEADER)
    );
}

#[test]
fn float_texts_are_written_as_they_are() {
    let mut cols: Vec<Vec<String>> = vec![Vec::new(); COLUMN_COUNT];
    for (j, col) in cols.iter_mut().enumerate() {
        col.push(format!("{}", j as f32 * 0.5));
    }
    let text = csv_document(&cols);
    assert_eq!(text, format!("{}0,0.5,1,1.5,2,2.5,3,3.5,4,4.5,5,5.5\n", HEADER));
}

#[test]
fn longer_columns_are_cut_to_the_time_column() {
    let mut cols = columns(&["x"]);
    cols[3].push("extra".to_string());
    let text = csv_document(&cols);
    assert_eq!(text, format!("{}x0,x1,x2,x3,x4,x5,x6,x7,x8,x9,x10,x11\n", HEADER));
}

#[test]
fn special_fields_are_quoted() {
    let mut cols = columns(&["v"]);
    cols[1][0] = "a,b".to_string();
    cols[2][0] = "say \"hi\"".to_string();
    let text = csv_document(&cols);
    assert_eq!(
        text,
        format!("{}v0,\"a,b\",\"say \"\"hi\"\"\",v3,v4,v5,v6,v7,v8,v9,v10,v11\n", HEADER)
    );
}

#[test]
fn line_breaks_and_empty_fields() {
    let mut cols = columns(&["w"]);
    cols[0][0] = "".to_string();
    cols[1][0] = "x\ny".to_string();
    cols[2][0] = "\r".to_string();
    let text = csv_document(&cols);
    assert_eq!(
        text,
        format!("{},\"x\ny\",\"\r\",w3,w4,w5,w6,w7,w8,w9,w10,w11\n", HEADER)
    );
}
