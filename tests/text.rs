use lantern_pipeline::{
    array_literal, code_line, export_staging_name, get_default_batch_size,
    get_full_table_name, merge_statement, push_decimal, quote_ident, row_count_query,
    row_source_query, show_available_runtimes, staged_line, vector_literal, worker_staging_name,
};

#[test]
fn decimal_digits() {
    let mut s = String::from("n=");
    push_decimal(&mut s, 0);
    push_decimal(&mut s, 255);
    push_decimal(&mut s, 18446744073709551615);
    assert_eq!(s, "n=025518446744073709551615");
}

#[test]
fn bulk_load_records() {
    assert_eq!(code_line("7", &vec![3, 0, 255]), "7\t{3,0,255}\n");
    assert_eq!(code_line("k", &vec![]), "k\tNULL\n");
    let fields = vec!["0.5".to_string(), "-1".to_string()];
    assert_eq!(staged_line("(0,1)", &fields), "(0,1)\t{0.5,-1}\n");
    assert_eq!(array_literal(&vec![]), "NULL");
    assert_eq!(array_literal(&vec!["1".to_string()]), "{1}");
    assert_eq!(vector_literal(&vec![]), "{}");
    assert_eq!(vector_literal(&fields), "{0.5,-1}");
}

#[test]
fn identifiers_are_quoted() {
    assert_eq!(quote_ident("col"), "\"col\"");
    assert_eq!(quote_ident("a\"b"), "\"a\"\"b\"");
    assert_eq!(quote_ident("é"), "\"é\"");
    assert_eq!(get_full_table_name("public", "Items"), "\"public\".\"Items\"");
}

#[test]
fn row_source_queries() {
    let full = get_full_table_name("public", "t");
    assert_eq!(
        row_source_query(&full, "body", &None, None),
        "SELECT ctid::text, \"body\"::text FROM \"public\".\"t\" WHERE \"body\" IS NOT NULL ;"
    );
    assert_eq!(
        row_source_query(&full, "body", &Some("id > 3".to_string()), Some(10)),
        "SELECT ctid::text, \"body\"::text FROM \"public\".\"t\" WHERE id > 3 LIMIT 10;"
    );
    assert_eq!(
        row_count_query(&full, "body", &Some("x = 1".to_string()), None),
        "SELECT COUNT(*) FROM (SELECT 1 FROM \"public\".\"t\" WHERE x = 1 ) AS src;"
    );
    assert_eq!(
        row_count_query(&full, "body", &None, Some(5)),
        "SELECT COUNT(*) FROM (SELECT 1 FROM \"public\".\"t\" WHERE \"body\" IS NOT NULL LIMIT 5) AS src;"
    );
}

#[test]
fn merge_statement_shape() {
    let full = get_full_table_name("s", "t");
    assert_eq!(
        merge_statement(&full, "v", "tmp", "id::tid", "ctid"),
        "UPDATE \"s\".\"t\" dest SET \"v\" = src.\"v\" FROM \"tmp\" src WHERE src.id::tid = dest.ctid"
    );
}

#[test]
fn staging_names_differ_per_worker() {
    assert_eq!(worker_staging_name(2, 7), "_lantern_pq_tmp_2_7");
    assert_ne!(worker_staging_name(0, 7), worker_staging_name(1, 7));
    assert_eq!(export_staging_name(42), "_lantern_tmp_42");
}

#[test]
fn default_batch_sizes() {
    assert_eq!(get_default_batch_size("clip/ViT-B-32-textual"), 2000);
    assert_eq!(get_default_batch_size("BAAI/bge-large-en"), 60);
    assert_eq!(get_default_batch_size("cohere/embed-multilingual-v2.0"), 5000);
    assert_eq!(get_default_batch_size("openai/text-embedding-3-large"), 500);
    assert_eq!(get_default_batch_size("unknown/model"), 100);
}

#[test]
fn runtime_listing() {
    let names = vec!["ort".to_string(), "openai".to_string()];
    assert_eq!(show_available_runtimes(&names), "ort\nopenai\n");
    assert_eq!(show_available_runtimes(&vec![]), "\n");
    assert_eq!(show_available_runtimes(&vec!["ort".to_string()]), "ort\n");
}

#[test]
fn work_range_query() {
    let full = get_full_table_name("public", "v");
    let r = lantern_pipeline::WorkRange { start: 33, end: 66 };
    assert_eq!(
        lantern_pipeline::range_query(&full, "id", "vec", r),
        "SELECT \"id\"::text, \"vec\" FROM \"public\".\"v\" WHERE \"id\" >= 33 AND \"id\" < 66 ORDER BY \"id\";"
    );
}

#[test]
fn trimmed_text_check() {
    assert!(lantern_pipeline::is_text("a"));
    assert!(!lantern_pipeline::is_text(""));
}
