use ror_import::batch::{batch_plan, ImportSession};
use ror_import::decode::{decode_document, parse_i64_text, DecodeFailure, PathSeg};
use ror_import::ident::extract_id_from;
use ror_import::records::{IdScheme, LinkKind, NameRole, RelKind, RorRecord};
use ror_import::rows::Stamp;

fn stamp() -> Stamp {
    Stamp { date: "2024-12-11".to_string(), schema: "v2".to_string() }
}

fn decode_one(text: &str) -> RorRecord {
    let mut records = decode_document(text).expect("record should decode");
    assert_eq!(records.len(), 1);
    records.pop().unwrap()
}

#[test]
fn extractor_takes_trailing_segment() {
    let id = extract_id_from("https://registry.example/0abc123xy");
    assert_eq!(id, "0abc123xy");
}

#[test]
fn extractor_is_deterministic_and_idempotent() {
    let once = extract_id_from("https://registry.example/0abc123xy");
    let twice = extract_id_from("https://registry.example/0abc123xy");
    assert_eq!(once, twice);
    let again = extract_id_from(&once);
    assert_eq!(again, once);
}

#[test]
fn extractor_never_yields_an_empty_key() {
    // No separator at all: the whole input is the best-effort token.
    assert_eq!(extract_id_from("bare-token"), "bare-token");
    // Trailing separator: the input itself rather than an empty segment.
    assert_eq!(extract_id_from("https://registry.example/"), "https://registry.example/");
    assert_eq!(extract_id_from("a/b/c"), "c");
}

#[test]
fn minimal_record_yields_one_core_one_admin_no_details() {
    let rec = decode_one(r#"[{"id": "https://registry.example/0minimal"}]"#);
    let mut session = ImportSession::new(1, stamp());
    let payload = session.add_record(&rec).expect("batch size one flushes at once");
    assert_eq!(payload.core.core_data.len(), 1);
    assert_eq!(payload.core.admin_data.len(), 1);
    assert_eq!(payload.required.names.len(), 0);
    assert_eq!(payload.required.types.len(), 0);
    assert_eq!(payload.non_required.locations.len(), 0);
    assert_eq!(payload.non_required.external_ids.len(), 0);
    assert_eq!(payload.non_required.links.len(), 0);
    assert_eq!(payload.non_required.relationships.len(), 0);
    assert_eq!(payload.non_required.domains.len(), 0);
    let admin = &payload.core.admin_data[0];
    assert_eq!(admin.id, "0minimal");
    assert_eq!(admin.n_locs, 0);
    assert_eq!(admin.n_labels, 0);
    assert_eq!(admin.n_aliases, 0);
    assert_eq!(admin.n_acronyms, 0);
    assert_eq!(admin.n_names, 0);
    assert_eq!(admin.n_langcodes, 0);
    assert_eq!(admin.n_isni, 0);
    assert_eq!(admin.n_grid, 0);
    assert_eq!(admin.n_fundref, 0);
    assert_eq!(admin.n_wikidata, 0);
    assert_eq!(admin.n_wikipaedia, 0);
    assert_eq!(admin.n_website, 0);
    assert_eq!(admin.n_types, 0);
    assert_eq!(admin.n_relrels, 0);
    assert_eq!(admin.n_parrels, 0);
    assert_eq!(admin.n_chrels, 0);
    assert_eq!(admin.n_sucrels, 0);
    assert_eq!(admin.n_predrels, 0);
    assert_eq!(admin.n_doms, 0);
    assert_eq!(admin.created, "2024-12-11");
    assert_eq!(admin.cr_schema, "v2");
    let core = &payload.core.core_data[0];
    assert_eq!(core.id, "0minimal");
    assert_eq!(core.full_id, "https://registry.example/0minimal");
    assert_eq!(core.ror_name, "");
    assert_eq!(core.status, "");
    assert_eq!(core.established, None);
    assert_eq!(core.location, None);
    assert_eq!(core.country_code, None);
}

#[test]
fn two_names_primary_and_alias() {
    let rec = decode_one(
        r#"[{
            "id": "https://registry.example/0names",
            "names": [
                {"value": "University A", "types": ["primary"]},
                {"value": "UA", "types": ["alias"]}
            ]
        }]"#,
    );
    let mut session = ImportSession::new(1, stamp());
    let payload = session.add_record(&rec).unwrap();
    assert_eq!(payload.required.names.len(), 2);
    let admin = &payload.core.admin_data[0];
    assert_eq!(admin.n_names, 2);
    assert_eq!(admin.n_aliases, 1);
    assert_eq!(admin.n_langcodes, 0);
    assert_eq!(admin.n_labels, 0);
    let first = &payload.required.names[0];
    assert_eq!(first.value, "University A");
    assert!(matches!(first.role, NameRole::Primary));
    assert!(first.is_ror_name);
    assert_eq!(first.lang, None);
    let second = &payload.required.names[1];
    assert_eq!(second.value, "UA");
    assert!(matches!(second.role, NameRole::Alias));
    assert!(!second.is_ror_name);
    assert_eq!(payload.core.core_data[0].ror_name, "University A");
}

#[test]
fn full_record_fans_out_into_every_table() {
    let rec = decode_one(
        r#"[{
            "id": "https://registry.example/0full",
            "names": [{"value": "Main", "types": ["primary", "label"], "lang": "en"}],
            "admin": {"status": "active", "established": 1953},
            "locations": [{"geonames_id": 2988507, "name": "Paris", "lat": 48.85, "lng": 2.35,
                           "country_code": "FR", "country_name": "France"}],
            "external_ids": [{"type": "isni", "value": "0000 0001", "preferred": true},
                             {"type": "wikidata", "value": "Q1"}],
            "links": [{"type": "website", "value": "https://example.org"},
                      {"type": "wikipedia", "value": "https://en.wikipedia.org/wiki/A"}],
            "types": ["education"],
            "relationships": [{"type": "parent", "id": "https://registry.example/0up", "label": "Up"},
                              {"type": "related", "id": "https://registry.example/0side", "label": "Side"}],
            "domains": ["example.org"]
        }]"#,
    );
    let mut session = ImportSession::new(1, stamp());
    let payload = session.add_record(&rec).unwrap();
    let core = &payload.core.core_data[0];
    assert_eq!(core.id, "0full");
    assert_eq!(core.ror_name, "Main");
    assert_eq!(core.status, "active");
    assert_eq!(core.established, Some(1953));
    assert_eq!(core.location, Some("Paris".to_string()));
    assert_eq!(core.country_code, Some("FR".to_string()));
    let admin = &payload.core.admin_data[0];
    assert_eq!(admin.n_names, 2);
    assert_eq!(admin.n_labels, 1);
    assert_eq!(admin.n_langcodes, 2);
    assert_eq!(admin.n_locs, 1);
    assert_eq!(admin.n_isni, 1);
    assert_eq!(admin.n_wikidata, 1);
    assert_eq!(admin.n_grid, 0);
    assert_eq!(admin.n_website, 1);
    assert_eq!(admin.n_wikipaedia, 1);
    assert_eq!(admin.n_types, 1);
    assert_eq!(admin.n_parrels, 1);
    assert_eq!(admin.n_relrels, 1);
    assert_eq!(admin.n_chrels, 0);
    assert_eq!(admin.n_doms, 1);
    let loc = &payload.non_required.locations[0];
    assert_eq!(loc.geonames_id, Some(2988507));
    assert_eq!(loc.geonames_name, Some("Paris".to_string()));
    assert_eq!(loc.lat, Some("48.85".to_string()));
    assert_eq!(loc.lng, Some("2.35".to_string()));
    assert_eq!(loc.ror_name, "Main");
    let ext = &payload.non_required.external_ids[0];
    assert!(matches!(ext.scheme, IdScheme::Isni));
    assert!(ext.is_preferred);
    assert!(!payload.non_required.external_ids[1].is_preferred);
    assert!(matches!(payload.non_required.links[0].kind, LinkKind::Website));
    assert!(matches!(payload.non_required.relationships[0].rel_type, RelKind::Parent));
    assert_eq!(payload.non_required.relationships[0].related_name, "Up");
    assert_eq!(payload.required.types[0].org_type, "education");
    assert_eq!(payload.non_required.domains[0].domain, "example.org");
}

#[test]
fn three_records_batch_of_two_flush_after_second() {
    let records = decode_document(
        r#"[{"id": "https://registry.example/r1"},
            {"id": "https://registry.example/r2"},
            {"id": "https://registry.example/r3"}]"#,
    )
    .unwrap();
    let mut session = ImportSession::new(2, stamp());
    assert!(session.add_record(&records[0]).is_none());
    let mid = session.add_record(&records[1]).expect("flush after the second record");
    assert_eq!(mid.core.core_data.len(), 2);
    assert_eq!(mid.core.core_data[0].id, "r1");
    assert_eq!(mid.core.core_data[1].id, "r2");
    assert!(session.add_record(&records[2]).is_none());
    let last = session.finish();
    assert_eq!(last.core.core_data.len(), 1);
    assert_eq!(last.core.core_data[0].id, "r3");
}

#[test]
fn batch_plan_never_drops_or_duplicates_a_record() {
    let records = decode_document(
        r#"[{"id": "https://registry.example/a"},
            {"id": "https://registry.example/b"},
            {"id": "https://registry.example/c"},
            {"id": "https://registry.example/d"},
            {"id": "https://registry.example/e"}]"#,
    )
    .unwrap();
    let plan = batch_plan(&records, 2, stamp());
    assert_eq!(plan.len(), 3);
    assert_eq!(plan[0].core.core_data.len(), 2);
    assert_eq!(plan[1].core.core_data.len(), 2);
    assert_eq!(plan[2].core.core_data.len(), 1);
    let ids: Vec<String> =
        plan.iter().flat_map(|p| p.core.core_data.iter().map(|r| r.id.clone())).collect();
    assert_eq!(ids, vec!["a", "b", "c", "d", "e"]);

    // A batch size larger than the run: everything sits in the final flush.
    let plan = batch_plan(&records, 200, stamp());
    assert_eq!(plan.len(), 1);
    assert_eq!(plan[0].core.core_data.len(), 5);

    // A batch size that divides the run: the final flush is empty.
    let plan = batch_plan(&records, 5, stamp());
    assert_eq!(plan.len(), 2);
    assert_eq!(plan[0].core.core_data.len(), 5);
    assert_eq!(plan[1].core.core_data.len(), 0);
}

#[test]
fn truncated_json_is_a_syntax_failure() {
    let r = decode_document(r#"[{"id": "https://registry.example/r1""#);
    assert!(matches!(r, Err(DecodeFailure::Syntax { .. })));
}

#[test]
fn non_array_document_is_rejected() {
    let r = decode_document(r#"{"id": "https://registry.example/r1"}"#);
    assert!(matches!(r, Err(DecodeFailure::NotArray)));
}

#[test]
fn numeric_identifier_is_a_shape_failure_with_its_path() {
    let r = decode_document(r#"[{"id": "https://registry.example/ok"}, {"id": 42}]"#);
    match r {
        Err(DecodeFailure::Record { index, path }) => {
            assert_eq!(index, 1);
            assert_eq!(path.len(), 1);
            match &path[0] {
                PathSeg::Field(f) => assert_eq!(f, "id"),
                PathSeg::Index(_) => panic!("expected a field segment"),
            }
        },
        _ => panic!("expected a record shape failure"),
    }
}

#[test]
fn bad_entry_reports_field_and_index() {
    let r = decode_document(
        r#"[{"id": "https://registry.example/x",
            "external_ids": [{"type": "orcid", "value": "0"}]}]"#,
    );
    match r {
        Err(DecodeFailure::Record { index, path }) => {
            assert_eq!(index, 0);
            assert_eq!(path.len(), 3);
            assert!(matches!(&path[0], PathSeg::Field(f) if f == "external_ids"));
            assert!(matches!(&path[1], PathSeg::Index(0)));
            assert!(matches!(&path[2], PathSeg::Field(f) if f == "type"));
        },
        _ => panic!("expected a record shape failure"),
    }
}

#[test]
fn empty_identifier_is_rejected() {
    let r = decode_document(r#"[{"id": ""}]"#);
    assert!(matches!(r, Err(DecodeFailure::Record { index: 0, .. })));
}

#[test]
fn unknown_fields_are_tolerated() {
    let rec = decode_one(
        r#"[{"id": "https://registry.example/0extra",
            "completely_new_field": {"a": [1, 2, 3]},
            "names": [{"value": "N", "types": ["primary"], "extra": null}]}]"#,
    );
    assert_eq!(rec.names.len(), 1);
}

#[test]
fn number_text_parses_as_integer_within_bounds() {
    assert_eq!(parse_i64_text(&"1953".to_string()), Some(1953));
    assert_eq!(parse_i64_text(&"0".to_string()), Some(0));
    assert_eq!(parse_i64_text(&"-5".to_string()), Some(-5));
    assert_eq!(parse_i64_text(&"9223372036854775807".to_string()), Some(i64::MAX));
    assert_eq!(parse_i64_text(&"-9223372036854775808".to_string()), Some(i64::MIN));
    assert_eq!(parse_i64_text(&"9223372036854775808".to_string()), None);
    assert_eq!(parse_i64_text(&"99999999999999999999999".to_string()), None);
    assert_eq!(parse_i64_text(&"1.5".to_string()), None);
    assert_eq!(parse_i64_text(&"1e3".to_string()), None);
    assert_eq!(parse_i64_text(&"".to_string()), None);
    assert_eq!(parse_i64_text(&"-".to_string()), None);
}

#[test]
fn fractional_establishment_year_is_an_error() {
    let r = decode_document(
        r#"[{"id": "https://registry.example/y", "admin": {"status": "active", "established": 19.53}}]"#,
    );
    match r {
        Err(DecodeFailure::Record { index: 0, path }) => {
            assert!(matches!(&path[0], PathSeg::Field(f) if f == "admin"));
            assert!(matches!(&path[1], PathSeg::Field(f) if f == "established"));
        },
        _ => panic!("expected a record shape failure"),
    }
}
