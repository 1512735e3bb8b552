use walrus_store::blob::decode_blob_store_result;
use walrus_store::http::{reply_body, store_query, FormPart, HttpReply};
use walrus_store::json::{quote, Json};
use walrus_store::models::{
    count_name, AlreadyCertified, BlobObject, BlobStoreResult, Event, NewlyCreated, QuiltMetadata,
    QuiltStoreResponse, RegisterFromScratch, ResourceOperation, StorageInfo, StoredQuiltBlob,
};
use walrus_store::multipart::multipart_form;
use walrus_store::quilt::{
    build_quilt_parts, decode_quilt_store_response, quote_metadata, write_metadata,
    write_quoted_metadata, QuiltClient, QuotedMetadata,
};
use walrus_store::web::{endpoint, item_endpoint, resolve, with_query, with_segments};
use walrus_store::{WalrusClient, WalrusError};

fn parse(text: &str) -> Json {
    Json::parse(text.as_bytes()).unwrap()
}

#[test]
fn parse_reads_each_kind_of_value() {
    assert_eq!(parse("null"), Json::Null);
    assert_eq!(parse("true"), Json::Bool(true));
    assert_eq!(parse("17"), Json::Number(Some(17)));
    assert_eq!(parse("18446744073709551615"), Json::Number(Some(u64::MAX)));
    assert_eq!(parse("-1"), Json::Number(None));
    assert_eq!(parse("1.5"), Json::Number(None));
    assert_eq!(parse("18446744073709551616"), Json::Number(None));
    assert_eq!(parse("\"a\\nb\""), Json::Text("a\nb".to_string()));
    assert_eq!(
        parse("[1, \"x\", []]"),
        Json::Array(vec![Json::Number(Some(1)), Json::Text("x".to_string()), Json::Array(vec![])])
    );
    assert_eq!(
        parse("{\"a\": {\"b\": false}}"),
        Json::Object(vec![(
            "a".to_string(),
            Json::Object(vec![("b".to_string(), Json::Bool(false))])
        )])
    );
}

#[test]
fn parse_reports_what_is_wrong() {
    assert_eq!(Json::parse(b"").unwrap_err(), "EOF while parsing a value at line 1 column 0");
    assert_eq!(Json::parse(b"{\"a\":}").unwrap_err(), "expected value at line 1 column 6");
    assert_eq!(Json::parse(b"1 2").unwrap_err(), "trailing characters at line 1 column 3");
    assert!(Json::parse(&[0xff, 0xfe]).is_err());
}

#[test]
fn lookups_find_members_by_name() {
    let tree = parse("{\"n\": 3, \"t\": \"x\", \"f\": true, \"z\": null, \"l\": [1]}");
    assert_eq!(tree.get("n"), Some(&Json::Number(Some(3))));
    assert_eq!(tree.get("missing"), None);
    assert_eq!(tree.get("z"), Some(&Json::Null));
    assert_eq!(tree.get_optional("z"), None);
    assert_eq!(tree.get_optional("n"), Some(&Json::Number(Some(3))));
    assert_eq!(tree.number_at("n"), Some(3));
    assert_eq!(tree.number_at("t"), None);
    assert_eq!(tree.text_at("t"), Some("x".to_string()));
    assert_eq!(tree.text_at("n"), None);
    assert_eq!(tree.flag_at("f"), Some(true));
    assert_eq!(tree.flag_at("n"), None);
    assert_eq!(tree.optional_number_at("n"), Some(Some(3)));
    assert_eq!(tree.optional_number_at("z"), Some(None));
    assert_eq!(tree.optional_number_at("missing"), Some(None));
    assert_eq!(tree.optional_number_at("t"), None);
    assert_eq!(tree.get("l").unwrap().as_items(), Some(&vec![Json::Number(Some(1))]));
    assert_eq!(tree.as_items(), None);
    assert_eq!(Json::Text("s".to_string()).as_text(), Some(&"s".to_string()));
    assert_eq!(Json::Null.as_text(), None);
    assert_eq!(Json::Number(Some(1)).as_number(), Some(1));
    assert_eq!(Json::Bool(true).as_flag(), Some(true));
    assert_eq!(Json::Number(Some(1)).get("n"), None);
}

fn sample_storage() -> StorageInfo {
    StorageInfo { id: "0xs".to_string(), start_epoch: 1, end_epoch: 3, storage_size: 4096 }
}

fn sample_blob_object() -> BlobObject {
    BlobObject {
        id: "0xo".to_string(),
        registered_epoch: 1,
        blob_id: "bid".to_string(),
        size: 5,
        encoding_type: "RS2".to_string(),
        certified_epoch: Some(2),
        storage: sample_storage(),
        deletable: true,
    }
}

const BLOB_OBJECT: &str = "{\"id\":\"0xo\",\"registeredEpoch\":1,\"blobId\":\"bid\",\"size\":5,\
    \"encodingType\":\"RS2\",\"certifiedEpoch\":2,\"storage\":{\"id\":\"0xs\",\"startEpoch\":1,\
    \"endEpoch\":3,\"storageSize\":4096},\"deletable\":true,\"extra\":[1,2]}";

#[test]
fn decoders_read_the_wire_names() {
    assert_eq!(
        StorageInfo::from_json(&parse(
            "{\"id\":\"0xs\",\"startEpoch\":1,\"endEpoch\":3,\"storageSize\":4096}"
        )),
        Some(sample_storage())
    );
    assert_eq!(
        StorageInfo::from_json(&parse(
            "{\"id\":\"0xs\",\"start_epoch\":1,\"endEpoch\":3,\"storageSize\":4096}"
        )),
        None
    );
    assert_eq!(
        RegisterFromScratch::from_json(&parse("{\"encodedLength\":10,\"epochsAhead\":2}")),
        Some(RegisterFromScratch { encoded_length: 10, epochs_ahead: 2 })
    );
    assert_eq!(
        Event::from_json(&parse("{\"txDigest\":\"d\",\"eventSeq\":\"7\"}")),
        Some(Event { tx_digest: "d".to_string(), event_seq: "7".to_string() })
    );
    assert_eq!(Event::from_json(&parse("{\"txDigest\":\"d\",\"eventSeq\":7}")), None);
    assert_eq!(
        StoredQuiltBlob::from_json(&parse("{\"identifier\":\"a\",\"quiltPatchId\":\"p\"}")),
        Some(StoredQuiltBlob { identifier: "a".to_string(), quilt_patch_id: "p".to_string() })
    );
    assert_eq!(BlobObject::from_json(&parse(BLOB_OBJECT)), Some(sample_blob_object()));
}

#[test]
fn optional_members_may_be_null_or_left_out() {
    let without = BLOB_OBJECT.replace("\"certifiedEpoch\":2,", "");
    let mut expected = sample_blob_object();
    expected.certified_epoch = None;
    assert_eq!(BlobObject::from_json(&parse(&without)), Some(expected.clone()));
    let null = BLOB_OBJECT.replace("\"certifiedEpoch\":2,", "\"certifiedEpoch\":null,");
    assert_eq!(BlobObject::from_json(&parse(&null)), Some(expected));
    let wrong = BLOB_OBJECT.replace("\"certifiedEpoch\":2,", "\"certifiedEpoch\":\"2\",");
    assert_eq!(BlobObject::from_json(&parse(&wrong)), None);

    assert_eq!(
        ResourceOperation::from_json(&parse("{}")),
        Some(ResourceOperation { register_from_scratch: None })
    );
    assert_eq!(
        ResourceOperation::from_json(&parse("{\"registerFromScratch\":null}")),
        Some(ResourceOperation { register_from_scratch: None })
    );
    assert_eq!(
        ResourceOperation::from_json(&parse(
            "{\"registerFromScratch\":{\"encodedLength\":1,\"epochsAhead\":2}}"
        )),
        Some(ResourceOperation {
            register_from_scratch: Some(RegisterFromScratch { encoded_length: 1, epochs_ahead: 2 })
        })
    );
    assert_eq!(ResourceOperation::from_json(&parse("{\"registerFromScratch\":{}}")), None);
    assert_eq!(ResourceOperation::from_json(&parse("5")), None);
}

#[test]
fn required_members_must_be_there() {
    let missing = BLOB_OBJECT.replace("\"deletable\":true,", "");
    assert_eq!(BlobObject::from_json(&parse(&missing)), None);
    let null = BLOB_OBJECT.replace("\"size\":5,", "\"size\":null,");
    assert_eq!(BlobObject::from_json(&parse(&null)), None);
    let negative = BLOB_OBJECT.replace("\"size\":5,", "\"size\":-5,");
    assert_eq!(BlobObject::from_json(&parse(&negative)), None);
    assert_eq!(BlobObject::from_json(&parse("[]")), None);
}

#[test]
fn store_results_name_one_outcome() {
    let created = format!(
        "{{\"newlyCreated\":{{\"blobObject\":{},\"resourceOperation\":{{}},\"cost\":9}}}}",
        BLOB_OBJECT
    );
    let expected = BlobStoreResult::NewlyCreated(NewlyCreated {
        blob_object: sample_blob_object(),
        resource_operation: ResourceOperation { register_from_scratch: None },
        cost: 9,
    });
    assert_eq!(BlobStoreResult::from_json(&parse(&created)), Some(expected.clone()));
    assert_eq!(decode_blob_store_result(created.as_bytes()).unwrap(), expected);
    assert_eq!(expected.blob_id(), "bid");

    let certified = "{\"alreadyCertified\":{\"blobId\":\"other\",\"event\":{\"txDigest\":\"d\",\
        \"eventSeq\":\"1\"},\"endEpoch\":8},\"newlyCreated\":null}";
    let expected = BlobStoreResult::AlreadyCertified(AlreadyCertified {
        blob_id: "other".to_string(),
        event: Event { tx_digest: "d".to_string(), event_seq: "1".to_string() },
        end_epoch: 8,
    });
    assert_eq!(BlobStoreResult::from_json(&parse(certified)), Some(expected.clone()));
    assert_eq!(expected.blob_id(), "other");

    assert_eq!(BlobStoreResult::from_json(&parse("{}")), None);
    assert_eq!(BlobStoreResult::from_json(&parse("{\"newlyCreated\":{}}")), None);
    assert_eq!(BlobStoreResult::from_json(&parse("[]")), None);
    assert!(matches!(decode_blob_store_result(b"{}"), Err(WalrusError::ParseError(_))));
    assert!(matches!(decode_blob_store_result(b"not json"), Err(WalrusError::ParseError(_))));
}

#[test]
fn quilt_responses_list_their_members() {
    let body = "{\"blobStoreResult\":{\"alreadyCertified\":{\"blobId\":\"q\",\"event\":\
        {\"txDigest\":\"d\",\"eventSeq\":\"1\"},\"endEpoch\":8}},\"storedQuiltBlobs\":[\
        {\"identifier\":\"b.txt\",\"quiltPatchId\":\"patch-b\"},\
        {\"identifier\":\"a.txt\",\"quiltPatchId\":\"patch-a\"},\
        {\"identifier\":\"a.txt\",\"quiltPatchId\":\"patch-c\"}]}";
    let response = decode_quilt_store_response(body.as_bytes()).unwrap();
    assert_eq!(response.blob_store_result.blob_id(), "q");
    assert_eq!(response.stored_quilt_blobs.len(), 3);
    assert_eq!(response.stored_quilt_blobs[0].identifier, "b.txt");
    assert_eq!(response.patch_id_of("a.txt"), Some(&"patch-a".to_string()));
    assert_eq!(response.patch_id_of("b.txt"), Some(&"patch-b".to_string()));
    assert_eq!(response.patch_id_of(""), None);
    assert_eq!(response.count_of("a.txt"), 2);
    assert_eq!(response.count_of("b.txt"), 1);
    assert_eq!(response.count_of("c.txt"), 0);
    assert!(response.answers(&["a.txt", "b.txt", "a.txt"]));
    assert!(response.answers(&["a.txt", "a.txt", "b.txt"]));
    assert!(!response.answers(&["a.txt", "b.txt", "b.txt"]));
    assert!(!response.answers(&["a.txt", "b.txt"]));

    let empty = "{\"blobStoreResult\":{\"alreadyCertified\":{\"blobId\":\"q\",\"event\":\
        {\"txDigest\":\"d\",\"eventSeq\":\"1\"},\"endEpoch\":8}},\"storedQuiltBlobs\":[]}";
    let response = QuiltStoreResponse::from_json(&parse(empty)).unwrap();
    assert!(response.answers(&[]));
    assert!(!response.answers(&["a.txt"]));

    let broken = body.replace("\"quiltPatchId\":\"patch-a\"", "\"quiltPatchId\":1");
    assert!(matches!(
        decode_quilt_store_response(broken.as_bytes()),
        Err(WalrusError::ParseError(_))
    ));
    let no_list = body.replace("storedQuiltBlobs", "stored");
    assert!(matches!(
        decode_quilt_store_response(no_list.as_bytes()),
        Err(WalrusError::ParseError(_))
    ));
}

#[test]
fn quote_writes_json_string_literals() {
    assert_eq!(quote("plain").unwrap(), "\"plain\"");
    assert_eq!(quote("").unwrap(), "\"\"");
    assert_eq!(quote("a\"b\\c\n\u{1}é").unwrap(), "\"a\\\"b\\\\c\\n\\u0001é\"");
}

#[test]
fn metadata_keeps_one_value_for_each_tag() {
    let mut metadata = QuiltMetadata::new("a.txt".to_string());
    assert_eq!(metadata.identifier(), "a.txt");
    assert!(metadata.tags().is_empty());
    assert_eq!(metadata.insert("kind".to_string(), "text".to_string()), None);
    assert_eq!(metadata.insert("lang".to_string(), "en".to_string()), None);
    assert_eq!(
        metadata.insert("kind".to_string(), "note".to_string()),
        Some("text".to_string())
    );
    assert_eq!(
        metadata.tags(),
        &vec![("kind".to_string(), "note".to_string()), ("lang".to_string(), "en".to_string())]
    );
}

#[test]
fn metadata_is_written_as_a_json_array() {
    assert_eq!(write_metadata(&Vec::new()).unwrap(), "[]");
    let mut first = QuiltMetadata::new("a.txt".to_string());
    first.insert("kind".to_string(), "te\"xt".to_string());
    first.insert("lang".to_string(), "en".to_string());
    let second = QuiltMetadata::new("b.txt".to_string());
    let text = write_metadata(&vec![first, second]).unwrap();
    assert_eq!(
        text,
        "[{\"identifier\":\"a.txt\",\"tags\":{\"kind\":\"te\\\"xt\",\"lang\":\"en\"}},\
         {\"identifier\":\"b.txt\",\"tags\":{}}]"
    );
    let read_back: serde_json::Value = serde_json::from_str(&text).unwrap();
    assert_eq!(read_back[0]["tags"]["kind"], serde_json::Value::String("te\"xt".to_string()));
    assert_eq!(read_back[1]["identifier"], serde_json::Value::String("b.txt".to_string()));
}

#[test]
fn quilt_parts_follow_the_files_then_the_metadata() {
    let files = vec![("a.txt", b"A".to_vec()), ("b.txt", Vec::new())];
    let parts = build_quilt_parts(files.clone(), None);
    assert_eq!(
        parts,
        vec![
            FormPart { name: "a.txt".to_string(), content: b"A".to_vec() },
            FormPart { name: "b.txt".to_string(), content: Vec::new() },
        ]
    );
    let parts = build_quilt_parts(files, Some("[é]".to_string()));
    assert_eq!(parts.len(), 3);
    assert_eq!(parts[2].name, "_metadata");
    assert_eq!(parts[2].content, "[é]".as_bytes().to_vec());
    assert_eq!(build_quilt_parts(Vec::new(), None), Vec::new());
}

#[test]
fn store_quilt_request_carries_files_and_metadata() {
    let client = WalrusClient::new("http://localhost:8080", "http://localhost:8081").unwrap();
    let quilt = QuiltClient::new(&client);
    let mut metadata = QuiltMetadata::new("a.txt".to_string());
    metadata.insert("k".to_string(), "v".to_string());
    let request = quilt
        .store_quilt_request(
            vec![("a.txt", b"A".to_vec())],
            Some(vec![metadata]),
            None,
            Some(true),
            None,
            None,
        )
        .unwrap();
    assert_eq!(request.url.as_str(), "http://localhost:8081/v1/quilts?deletable=true");
    match request.body {
        walrus_store::http::RequestBody::Multipart(parts) => {
            assert_eq!(parts.len(), 2);
            assert_eq!(parts[0], FormPart { name: "a.txt".to_string(), content: b"A".to_vec() });
            assert_eq!(parts[1].name, "_metadata");
            assert_eq!(
                String::from_utf8(parts[1].content.clone()).unwrap(),
                "[{\"identifier\":\"a.txt\",\"tags\":{\"k\":\"v\"}}]"
            );
        }
        _ => panic!("a quilt is stored as a multipart form"),
    }
}

#[test]
fn multipart_form_has_one_field_for_each_part() {
    let form = multipart_form(vec![
        FormPart { name: "first-part".to_string(), content: b"A".to_vec() },
        FormPart { name: "second-part".to_string(), content: b"BB".to_vec() },
    ]);
    let shown = format!("{:?}", form);
    let first = shown.find("first-part").unwrap();
    let second = shown.find("second-part").unwrap();
    assert!(first < second);
    let empty = format!("{:?}", multipart_form(Vec::new()));
    assert!(!empty.contains("first-part"));
}

#[test]
fn store_query_lists_what_is_given() {
    assert_eq!(store_query(None, None, None, None), Vec::new());
    assert_eq!(
        store_query(Some(12), Some(false), Some(true), Some("0x1")),
        vec![
            ("epochs".to_string(), "12".to_string()),
            ("deletable".to_string(), "false".to_string()),
            ("permanent".to_string(), "true".to_string()),
            ("send_object_to".to_string(), "0x1".to_string()),
        ]
    );
    assert_eq!(
        store_query(None, None, Some(false), None),
        vec![("permanent".to_string(), "false".to_string())]
    );
}

#[test]
fn reply_body_reads_the_status() {
    assert_eq!(reply_body(Ok(HttpReply { status: 200, body: vec![1] })).unwrap(), vec![1]);
    match reply_body(Ok(HttpReply { status: 500, body: b"boom".to_vec() })) {
        Err(WalrusError::ApiError(500, message)) => assert_eq!(message, "boom"),
        _ => panic!("expected ApiError"),
    }
    match reply_body(Ok(HttpReply { status: 400, body: Vec::new() })) {
        Err(WalrusError::ApiError(400, message)) => assert_eq!(message, "HTTP status 400"),
        _ => panic!("expected ApiError"),
    }
}

#[test]
fn quote_escapes_the_control_characters() {
    assert_eq!(quote("\u{8}\t\n\u{c}\r").unwrap(), "\"\\b\\t\\n\\f\\r\"");
    assert_eq!(quote("\u{0}\u{b}\u{1f}").unwrap(), "\"\\u0000\\u000b\\u001f\"");
    assert_eq!(quote("\u{7f} / é 文").unwrap(), "\"\u{7f} / é 文\"");
}

#[test]
fn quoted_metadata_is_put_together_as_it_is() {
    assert_eq!(write_quoted_metadata(&Vec::new()), "[]");
    let entries = vec![
        QuotedMetadata {
            identifier: "\"a\"".to_string(),
            tags: vec![
                ("\"k\"".to_string(), "\"v\"".to_string()),
                ("\"l\"".to_string(), "\"w\"".to_string()),
            ],
        },
        QuotedMetadata { identifier: "\"b\"".to_string(), tags: Vec::new() },
    ];
    assert_eq!(
        write_quoted_metadata(&entries),
        "[{\"identifier\":\"a\",\"tags\":{\"k\":\"v\",\"l\":\"w\"}},{\"identifier\":\"b\",\"tags\":{}}]"
    );
    let mut described = QuiltMetadata::new("a\nb".to_string());
    described.insert("k\"".to_string(), "\\".to_string());
    assert_eq!(
        quote_metadata(&vec![described]).unwrap(),
        vec![QuotedMetadata {
            identifier: "\"a\\nb\"".to_string(),
            tags: vec![("\"k\\\"\"".to_string(), "\"\\\\\"".to_string())],
        }]
    );
}

#[test]
fn a_quilt_result_is_read_against_the_identifiers() {
    let body = "{\"blobStoreResult\":{\"alreadyCertified\":{\"blobId\":\"q\",\"event\":\
        {\"txDigest\":\"d\",\"eventSeq\":\"1\"},\"endEpoch\":8}},\"storedQuiltBlobs\":[\
        {\"identifier\":\"b.txt\",\"quiltPatchId\":\"patch-b\"},\
        {\"identifier\":\"a.txt\",\"quiltPatchId\":\"patch-a\"}]}";
    let reply = || Ok(HttpReply { status: 200, body: body.as_bytes().to_vec() });
    let response = QuiltClient::store_quilt_result(reply(), &["a.txt", "b.txt"]).unwrap();
    assert_eq!(response.patch_id_of("a.txt"), Some(&"patch-a".to_string()));
    assert!(matches!(
        QuiltClient::store_quilt_result(reply(), &["a.txt"]),
        Err(WalrusError::ParseError(_))
    ));
    assert!(matches!(
        QuiltClient::store_quilt_result(reply(), &["a.txt", "c.txt"]),
        Err(WalrusError::ParseError(_))
    ));
    assert!(matches!(
        QuiltClient::store_quilt_result(
            Ok(HttpReply { status: 500, body: body.as_bytes().to_vec() }),
            &["a.txt", "b.txt"]
        ),
        Err(WalrusError::ApiError(500, _))
    ));
    let files = vec![("x", vec![1u8]), ("y", Vec::new())];
    assert_eq!(QuiltClient::identifiers(&files), vec!["x", "y"]);
    assert_eq!(count_name(&["a", "b", "a"], "a"), 2);
    assert_eq!(count_name(&["a", "b", "a"], "c"), 0);
    assert_eq!(count_name(&[], "a"), 0);
}

#[test]
fn urls_are_built_step_by_step() {
    let base = reqwest::Url::parse("http://host/base/").unwrap();
    let url = resolve(&base, "v1/blobs").unwrap();
    assert_eq!(url.as_str(), "http://host/base/v1/blobs");
    let url = with_query(url, &vec![("a b".to_string(), "c&d".to_string())]).unwrap();
    assert_eq!(url.as_str(), "http://host/base/v1/blobs?a+b=c%26d");
    let url = with_query(url, &vec![("e".to_string(), "".to_string())]).unwrap();
    assert_eq!(url.as_str(), "http://host/base/v1/blobs?a+b=c%26d&e=");
    let url = with_query(url, &Vec::new()).unwrap();
    assert_eq!(url.as_str(), "http://host/base/v1/blobs?a+b=c%26d&e=");

    let url = resolve(&base, "v1/blobs").unwrap();
    let url = with_segments(url, &vec!["x?y", "z#w"]).unwrap();
    assert_eq!(url.as_str(), "http://host/base/v1/blobs/x%3Fy/z%23w");
    let url = with_segments(url, &Vec::new()).unwrap();
    assert_eq!(url.as_str(), "http://host/base/v1/blobs/x%3Fy/z%23w");
    assert!(matches!(with_segments(url, &vec!["ok", ".."]), Err(WalrusError::InvalidUrl(_))));
    let opaque = reqwest::Url::parse("mailto:someone@example.org").unwrap();
    match with_segments(opaque, &vec!["x"]) {
        Err(WalrusError::InvalidUrl(message)) => assert_eq!(
            message,
            "Failed to build URL: relative URL with a cannot-be-a-base base"
        ),
        _ => panic!("expected InvalidUrl"),
    }
    assert_eq!(
        item_endpoint(&base, "v1/blobs", &vec!["a/b"]).unwrap().as_str(),
        "http://host/base/v1/blobs/a%2Fb"
    );
    assert_eq!(
        endpoint(&base, "v1/quilts", &Vec::new()).unwrap().as_str(),
        "http://host/base/v1/quilts"
    );
}
