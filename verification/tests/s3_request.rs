use bytes::Bytes;
use vector_delivery::s3::checksum::{digest_text, md5_of};
use vector_delivery::s3::event::{
    CountByteSize, EventFinalizers, EventGroup, EventStatus, GroupedCountByteSize, RequestMetadata,
};
use vector_delivery::s3::request::{respond, S3Metadata, S3Options, S3PartitionKey, S3Request};
use vector_delivery::s3::tags::S3Tags;

fn options() -> S3Options {
    S3Options {
        acl: None,
        grant_full_control: None,
        grant_read: None,
        grant_read_acp: None,
        grant_write_acp: None,
        server_side_encryption: None,
        ssekms_key_id: None,
        storage_class: "STANDARD".to_string(),
        tags: None,
        content_encoding: None,
        content_type: None,
    }
}

fn size(count: usize) -> GroupedCountByteSize {
    GroupedCountByteSize::Untagged {
        size: CountByteSize {
            count,
            byte_size: 17,
        },
    }
}

fn count(size: &GroupedCountByteSize) -> usize {
    match size {
        GroupedCountByteSize::Untagged { size } => size.count,
        GroupedCountByteSize::Tagged { sizes } => sizes.len(),
    }
}

fn request(options: S3Options, content_encoding: Option<&'static str>) -> S3Request {
    S3Request {
        body: Bytes::from_static(b"hello world"),
        bucket: "logs".to_string(),
        metadata: S3Metadata {
            partition_key: S3PartitionKey {
                key_prefix: "date=".to_string(),
                ssekms_key_id: None,
            },
            s3_key: "date=2024/1.log".to_string(),
            finalizers: EventFinalizers { batches: vec![7, 9] },
        },
        request_metadata: RequestMetadata {
            event_count: 3,
            events_byte_size: 100,
            events_estimated_json_encoded_byte_size: size(3),
            request_encoded_size: 11,
            request_wire_size: 11,
        },
        content_encoding,
        options,
    }
}

fn tags(pairs: &[(&str, &str)]) -> S3Tags {
    S3Tags::from_pairs(
        pairs
            .iter()
            .map(|(name, value)| (name.to_string(), value.to_string()))
            .collect(),
    )
}

#[test]
fn plain_request() {
    let (put, events) = request(options(), None).into_put_object();
    assert_eq!(put.body, Bytes::from_static(b"hello world"));
    assert_eq!(put.bucket, "logs");
    assert_eq!(put.key, "date=2024/1.log");
    assert_eq!(put.content_encoding, None);
    assert_eq!(put.content_type, "text/x-log");
    assert_eq!(put.storage_class, "STANDARD");
    assert_eq!(put.tagging, None);
    assert_eq!(put.content_md5, "XrY7u+Ae7tCTyyK7j1rNww==");
    assert_eq!(count(&events), 3);
}

#[test]
fn digests_of_known_bodies() {
    let (mut put, _) = request(options(), None).into_put_object_with(&[0; 16]);
    assert_eq!(put.content_md5, "AAAAAAAAAAAAAAAAAAAAAA==");
    put = request(options(), None).into_put_object_with(&[0xff; 16]).0;
    assert_eq!(put.content_md5, "/////////////////////w==");
    assert_eq!(
        md5_of(&Bytes::new()),
        [
            0xd4, 0x1d, 0x8c, 0xd9, 0x8f, 0x00, 0xb2, 0x04, 0xe9, 0x80, 0x09, 0x98, 0xec, 0xf8,
            0x42, 0x7e
        ]
    );
    assert_eq!(digest_text(&md5_of(&Bytes::new())), "1B2M2Y8AsgTpgAmY7PhCfg==");
}

#[test]
fn configured_encoding_and_type_come_first() {
    let configured = S3Options {
        content_encoding: Some("zstd".to_string()),
        content_type: Some("application/json".to_string()),
        ..options()
    };
    let (put, _) = request(configured, Some("gzip")).into_put_object();
    assert_eq!(put.content_encoding, Some("zstd".to_string()));
    assert_eq!(put.content_type, "application/json");
    let (put, _) = request(options(), Some("gzip")).into_put_object();
    assert_eq!(put.content_encoding, Some("gzip".to_string()));
}

#[test]
fn options_are_passed_on() {
    let configured = S3Options {
        acl: Some("private".to_string()),
        grant_full_control: Some("a".to_string()),
        grant_read: Some("b".to_string()),
        grant_read_acp: Some("c".to_string()),
        grant_write_acp: Some("d".to_string()),
        server_side_encryption: Some("aws:kms".to_string()),
        ssekms_key_id: Some("e".to_string()),
        storage_class: "GLACIER".to_string(),
        ..options()
    };
    let (put, _) = request(configured, None).into_put_object();
    assert_eq!(put.acl, Some("private".to_string()));
    assert_eq!(put.grant_full_control, Some("a".to_string()));
    assert_eq!(put.grant_read, Some("b".to_string()));
    assert_eq!(put.grant_read_acp, Some("c".to_string()));
    assert_eq!(put.grant_write_acp, Some("d".to_string()));
    assert_eq!(put.server_side_encryption, Some("aws:kms".to_string()));
    assert_eq!(put.ssekms_key_id, Some("e".to_string()));
    assert_eq!(put.storage_class, "GLACIER");
}

#[test]
fn tags_are_sent_as_a_form() {
    let configured = S3Options {
        tags: Some(tags(&[("saison", "\u{c9}t\u{e9}+hiver"), ("foo", "bar & baz")])),
        ..options()
    };
    let (put, _) = request(configured, None).into_put_object();
    assert_eq!(
        put.tagging,
        Some("foo=bar+%26+baz&saison=%C3%89t%C3%A9%2Bhiver".to_string())
    );
}

#[test]
fn sent_tags_read_back() {
    let sent = |pairs: &[(&str, &str)]| {
        let configured = S3Options {
            tags: Some(tags(pairs)),
            ..options()
        };
        request(configured, None).into_put_object().0.tagging
    };
    assert_eq!(sent(&[]), Some(String::new()));
    assert_eq!(
        sent(&[("k", "v"), ("a b", "c&d")]),
        Some("a+b=c%26d&k=v".to_string())
    );
    let text = sent(&[("%41", "=+&"), ("", ""), ("\u{e9} ", "100%")]).unwrap();
    let pairs: Vec<(String, String)> = url::form_urlencoded::parse(text.as_bytes())
        .into_owned()
        .collect();
    assert_eq!(
        pairs,
        vec![
            (String::new(), String::new()),
            ("%41".to_string(), "=+&".to_string()),
            ("\u{e9} ".to_string(), "100%".to_string()),
        ]
    );
}

#[test]
fn tags_are_ordered_and_unique() {
    assert_eq!(tags(&[]).tagging(), "");
    assert_eq!(tags(&[("b", "1"), ("a", "2"), ("ab", "3")]).tagging(), "a=2&ab=3&b=1");
    assert_eq!(tags(&[("a", "1"), ("b", "2"), ("a", "3")]).tagging(), "a=3&b=2");
    assert_eq!(tags(&[("Z", "1"), ("a", "2"), ("", "3")]).tagging(), "=3&Z=1&a=2");
    let mut grown = S3Tags::new();
    grown.insert("y".to_string(), "~".to_string());
    grown.insert("x".to_string(), "*-._".to_string());
    assert_eq!(grown.tagging(), "x=*-._&y=%7E");
    assert_eq!(grown.clone().tagging(), grown.tagging());
}

#[test]
fn order_follows_the_bytes() {
    let names = ["\u{10000}", "\u{ffff}", "\u{e9}", "z", "a"];
    let pairs: Vec<(&str, &str)> = names.iter().map(|name| (*name, "1")).collect();
    let mut sorted = names.to_vec();
    sorted.sort();
    let expected: Vec<(&str, &str)> = sorted.iter().map(|name| (*name, "1")).collect();
    assert_eq!(tags(&pairs).tagging(), tags(&expected).tagging());
    assert!(tags(&pairs).tagging().starts_with("a=1&z=1&%C3%A9=1&%EF%BF%BF=1&%F0"));
}

#[test]
fn clone_for_a_retry_stores_the_same() {
    let sent = request(
        S3Options {
            tags: Some(tags(&[("a", "1")])),
            ..options()
        },
        Some("gzip"),
    );
    let copy = sent.clone();
    assert_eq!(copy.metadata.partition_key.key_prefix, "date=");
    assert_eq!(copy.metadata.finalizers.batches, vec![7, 9]);
    assert_eq!(copy.get_metadata().event_count, 3);
    assert_eq!(copy.get_metadata().events_byte_size, 100);
    assert_eq!(copy.get_metadata().request_encoded_size, 11);
    assert_eq!(copy.get_metadata().request_wire_size, 11);
    let (a, events) = copy.into_put_object();
    assert_eq!(count(&events), 3);
    let (b, _) = sent.into_put_object();
    assert_eq!(a.body, b.body);
    assert_eq!(a.key, b.key);
    assert_eq!(a.tagging, b.tagging);
    assert_eq!(a.content_encoding, b.content_encoding);
    assert_eq!(a.content_md5, b.content_md5);
}

#[test]
fn finalizers_are_taken_once() {
    let mut request = request(options(), None);
    assert_eq!(request.take_finalizers().batches, vec![7, 9]);
    assert_eq!(request.take_finalizers().batches, Vec::<u64>::new());
    assert_eq!(request.bucket, "logs");
}

#[test]
fn metadata_can_be_read_and_changed() {
    let mut request = request(options(), None);
    assert_eq!(request.get_metadata().event_count, 3);
    request.metadata_mut().request_wire_size = 5;
    assert_eq!(request.get_metadata().request_wire_size, 5);
    assert_eq!(request.get_metadata().request_encoded_size, 11);
}

#[test]
fn grouped_events_are_cloned() {
    let grouped = GroupedCountByteSize::Tagged {
        sizes: vec![EventGroup {
            source: Some("file".to_string()),
            service: None,
            size: CountByteSize {
                count: 2,
                byte_size: 30,
            },
        }],
    };
    match grouped.clone() {
        GroupedCountByteSize::Tagged { sizes } => {
            assert_eq!(sizes.len(), 1);
            assert_eq!(sizes[0].source, Some("file".to_string()));
            assert_eq!(sizes[0].service, None);
            assert_eq!(sizes[0].size.byte_size, 30);
        }
        other => panic!("{:?}", other),
    }
}

#[test]
fn stored_object_is_answered() {
    let response = respond::<String>(Ok(()), size(4)).unwrap();
    assert_eq!(response.event_status(), EventStatus::Delivered);
    assert_eq!(count(response.events_sent()), 4);
    let error = respond(Err("refused".to_string()), size(4)).unwrap_err();
    assert_eq!(error, "refused");
}
