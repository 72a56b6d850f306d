use desmos_bindings::reactions::models::{
    RawReactionValue, ReactionValue, ReactionValueKind, UnwrapReactionValueError,
    FREE_TEXT_VALUE_TYPE_URI, REGISTERED_REACTION_VALUE_TYPE_URI,
};

#[test]
fn reaction_value_try_from_raw_with_invalid_type_uri_error() {
    let raw = RawReactionValue {
        type_uri: "/desmos.reactions.v1.InvalidValue".to_string(),
        registered_reaction_id: None,
        text: None,
    };
    assert_eq!(
        UnwrapReactionValueError::UnknownReactionValue(
            "/desmos.reactions.v1.InvalidValue".to_string()
        ),
        ReactionValue::try_from(raw).unwrap_err()
    )
}

#[test]
fn registered_reaction_value_try_from_wrong_raw_error() {
    let raw = RawReactionValue {
        type_uri: "/desmos.reactions.v1.RegisteredReactionValue".to_string(),
        registered_reaction_id: None,
        text: None,
    };
    assert_eq!(
        UnwrapReactionValueError::InvalidRegisteredReactionValue(
            "registered_reaction_id".to_string()
        ),
        ReactionValue::try_from(raw).unwrap_err()
    )
}

#[test]
fn registered_reaction_value_try_from_raw_properly() {
    let raw = RawReactionValue {
        type_uri: "/desmos.reactions.v1.RegisteredReactionValue".to_string(),
        registered_reaction_id: Some(1),
        text: None,
    };
    assert_eq!(
        ReactionValue::Registered {
            registered_reaction_id: 1
        },
        ReactionValue::try_from(raw).unwrap()
    )
}

#[test]
fn free_text_value_try_from_wrong_raw_error() {
    let raw = RawReactionValue {
        type_uri: "/desmos.reactions.v1.FreeTextValue".to_string(),
        registered_reaction_id: None,
        text: None,
    };
    assert_eq!(
        UnwrapReactionValueError::InvalidFreeTextValue("text".to_string()),
        ReactionValue::try_from(raw).unwrap_err()
    )
}

#[test]
fn free_text_reaction_value_try_from_raw_properly() {
    let raw = RawReactionValue {
        type_uri: "/desmos.reactions.v1.FreeTextValue".to_string(),
        registered_reaction_id: None,
        text: Some("test".to_string()),
    };
    assert_eq!(
        ReactionValue::FreeText {
            text: "test".to_string()
        },
        ReactionValue::try_from(raw).unwrap()
    )
}

#[test]
fn reaction_type_uris_are_the_registered_ones() {
    assert_eq!(
        REGISTERED_REACTION_VALUE_TYPE_URI,
        "/desmos.reactions.v1.RegisteredReactionValue"
    );
    assert_eq!(FREE_TEXT_VALUE_TYPE_URI, "/desmos.reactions.v1.FreeTextValue");
}

#[test]
fn free_text_reaction_encodes_to_its_record_and_back() {
    let value = ReactionValue::FreeText {
        text: "gg".to_string(),
    };
    let raw = RawReactionValue::from(value.clone());
    assert_eq!(
        raw,
        RawReactionValue {
            type_uri: "/desmos.reactions.v1.FreeTextValue".to_string(),
            registered_reaction_id: None,
            text: Some("gg".to_string()),
        }
    );
    assert_eq!(ReactionValue::try_from(raw.clone()), Ok(value));

    let without_text = RawReactionValue { text: None, ..raw };
    assert_eq!(
        ReactionValue::try_from(without_text),
        Err(UnwrapReactionValueError::InvalidFreeTextValue(
            "text".to_string()
        ))
    );
}

#[test]
fn registered_reaction_encodes_to_its_record_and_back() {
    let value = ReactionValue::Registered {
        registered_reaction_id: 42,
    };
    let raw = RawReactionValue::from(value.clone());
    assert_eq!(
        raw,
        RawReactionValue {
            type_uri: "/desmos.reactions.v1.RegisteredReactionValue".to_string(),
            registered_reaction_id: Some(42),
            text: None,
        }
    );
    assert_eq!(ReactionValue::try_from(raw), Ok(value));
}

#[test]
fn reaction_round_trip_keeps_every_value() {
    let values = vec![
        ReactionValue::Registered {
            registered_reaction_id: 0,
        },
        ReactionValue::Registered {
            registered_reaction_id: u32::MAX,
        },
        ReactionValue::FreeText {
            text: String::new(),
        },
        ReactionValue::FreeText {
            text: "/desmos.reactions.v1.RegisteredReactionValue".to_string(),
        },
    ];
    for value in values {
        let raw = RawReactionValue::from(value.clone());
        assert_eq!(ReactionValue::try_from(raw), Ok(value));
    }
}

#[test]
fn well_formed_reaction_record_survives_decoding_and_encoding() {
    let raw = RawReactionValue {
        type_uri: "/desmos.reactions.v1.RegisteredReactionValue".to_string(),
        registered_reaction_id: Some(7),
        text: None,
    };
    let value = ReactionValue::try_from(raw.clone()).unwrap();
    assert_eq!(RawReactionValue::from(value), raw);
}

#[test]
fn reaction_decoding_ignores_the_field_of_the_other_variant() {
    let raw = RawReactionValue {
        type_uri: "/desmos.reactions.v1.RegisteredReactionValue".to_string(),
        registered_reaction_id: Some(3),
        text: Some("stray".to_string()),
    };
    assert_eq!(
        ReactionValue::try_from(raw),
        Ok(ReactionValue::Registered {
            registered_reaction_id: 3
        })
    );

    let raw = RawReactionValue {
        type_uri: "/desmos.reactions.v1.FreeTextValue".to_string(),
        registered_reaction_id: Some(3),
        text: None,
    };
    assert_eq!(
        ReactionValue::try_from(raw),
        Err(UnwrapReactionValueError::InvalidFreeTextValue(
            "text".to_string()
        ))
    );
}

#[test]
fn reaction_type_uri_is_compared_exactly() {
    for type_uri in [
        "",
        "/desmos.reactions.v1.FreeTextValue ",
        "/desmos.reactions.v1.freetextvalue",
        "desmos.reactions.v1.FreeTextValue",
        "/desmos.reactions.v1.RegisteredReactionValu",
    ] {
        let raw = RawReactionValue {
            type_uri: type_uri.to_string(),
            registered_reaction_id: Some(1),
            text: Some("text".to_string()),
        };
        assert_eq!(
            ReactionValue::try_from(raw),
            Err(UnwrapReactionValueError::UnknownReactionValue(
                type_uri.to_string()
            ))
        );
    }
}

#[test]
fn reaction_kinds_have_their_identifier_and_field() {
    assert_eq!(
        ReactionValueKind::Registered.type_uri(),
        "/desmos.reactions.v1.RegisteredReactionValue"
    );
    assert_eq!(
        ReactionValueKind::Registered.required_field(),
        "registered_reaction_id"
    );
    assert_eq!(
        ReactionValueKind::FreeText.type_uri(),
        "/desmos.reactions.v1.FreeTextValue"
    );
    assert_eq!(ReactionValueKind::FreeText.required_field(), "text");
}

#[test]
fn reaction_kind_lookup_finds_registered_identifiers_only() {
    for kind in [ReactionValueKind::Registered, ReactionValueKind::FreeText] {
        assert_eq!(ReactionValueKind::from_type_uri(kind.type_uri()), Some(kind));
    }
    assert_eq!(ReactionValueKind::from_type_uri(""), None);
    assert_eq!(
        ReactionValueKind::from_type_uri("/desmos.reactions.v1.InvalidValue"),
        None
    );
    assert_eq!(
        ReactionValueKind::from_type_uri("/desmos.reports.v1.UserTarget"),
        None
    );
}

#[test]
fn reaction_kind_names_its_missing_field() {
    assert_eq!(
        ReactionValueKind::Registered.missing_field(),
        UnwrapReactionValueError::InvalidRegisteredReactionValue(
            "registered_reaction_id".to_string()
        )
    );
    assert_eq!(
        ReactionValueKind::FreeText.missing_field(),
        UnwrapReactionValueError::InvalidFreeTextValue("text".to_string())
    );
}

#[test]
fn reaction_value_knows_its_kind() {
    let registered = ReactionValue::Registered {
        registered_reaction_id: 9,
    };
    let free_text = ReactionValue::FreeText {
        text: "nice".to_string(),
    };
    assert_eq!(registered.kind(), ReactionValueKind::Registered);
    assert_eq!(free_text.kind(), ReactionValueKind::FreeText);
    assert_eq!(
        RawReactionValue::from(registered).type_uri,
        ReactionValueKind::Registered.type_uri()
    );
    assert_eq!(
        RawReactionValue::from(free_text).type_uri,
        ReactionValueKind::FreeText.type_uri()
    );
}
