use graphql_orm_ai::error::AiError;
use graphql_orm_ai::message_preview::{
    canonical_message_preview, decode_message_preview, StoredMessagePreview,
};

fn legacy(members: &[(&str, Option<&str>)]) -> StoredMessagePreview {
    StoredMessagePreview::Object(
        members
            .iter()
            .map(|(name, value)| (name.to_string(), value.map(|v| v.to_string())))
            .collect(),
    )
}

#[test]
fn canonical_and_exact_legacy_previews_decode_with_utf8_byte_bounds() {
    assert_eq!(
        decode_message_preview(canonical_message_preview("éé"), 4)
            .expect("canonical preview should decode"),
        "éé"
    );
    assert_eq!(
        decode_message_preview(legacy(&[("text", Some("legacy"))]), 6)
            .expect("exact legacy preview should decode"),
        "legacy"
    );
    assert!(matches!(
        decode_message_preview(StoredMessagePreview::Text("ééa".to_owned()), 4),
        Err(AiError::PersistenceFailed)
    ));
    assert!(matches!(
        decode_message_preview(legacy(&[("text", Some("legacy!"))]), 6),
        Err(AiError::PersistenceFailed)
    ));
}

#[test]
fn malformed_or_ambiguous_legacy_previews_fail_closed() {
    for value in [
        StoredMessagePreview::Other,
        StoredMessagePreview::Other,
        StoredMessagePreview::Other,
        legacy(&[]),
        legacy(&[("text", None)]),
        legacy(&[("text", Some("preview")), ("extra", None)]),
        legacy(&[("preview", Some("wrong field"))]),
    ] {
        assert!(matches!(
            decode_message_preview(value, 4_096),
            Err(AiError::PersistenceFailed)
        ));
    }
}

#[test]
fn empty_canonical_preview_decodes_under_a_zero_bound() {
    assert_eq!(decode_message_preview(canonical_message_preview(""), 0).unwrap(), "");
    assert!(decode_message_preview(canonical_message_preview("a"), 0).is_err());
}
