use alexa_ai::alexa::request::intent::{
    IntentConfirmationStatus, IntentRequest, IntentRequestIntent, IntentRequestSlot,
    IntentRequestSlotValue, SlotEntry,
};
use alexa_ai::alexa::request::launch::LaunchRequest;
use alexa_ai::alexa::request::{GenericRequest, GenericRequestImpl, RequestType};

fn slot(resolved: Option<&str>, own: Option<&str>) -> IntentRequestSlot {
    IntentRequestSlot {
        confirmation_status: Some("NONE".to_string()),
        name: Some("s".to_string()),
        slot_value: IntentRequestSlotValue {
            slot_type: "Simple".to_string(),
            value: resolved.map(|s| s.to_string()),
        },
        source: Some("USER".to_string()),
        value: own.map(|s| s.to_string()),
    }
}

fn intent_with(slots: Option<Vec<SlotEntry>>) -> IntentRequest {
    IntentRequest {
        intent_type: "IntentRequest".to_string(),
        request_id: "req-1".to_string(),
        timestamp: "2024-01-01T00:00:00Z".to_string(),
        dialog_state: "COMPLETED".to_string(),
        locale: "pt-BR".to_string(),
        intent: IntentRequestIntent {
            name: "GetAICompletion".to_string(),
            confirmation_status: "NONE".to_string(),
            slots,
        },
    }
}

#[test]
fn request_type_from_known_names() {
    assert_eq!(RequestType::from_str("LaunchRequest"), Ok(RequestType::LaunchRequest));
    assert_eq!(RequestType::from_str("IntentRequest"), Ok(RequestType::IntentRequest));
    assert_eq!(
        RequestType::from_str("SessionEndedRequest"),
        Ok(RequestType::SessionEndedRequest)
    );
}

#[test]
fn request_type_unknown_names_fall_back_to_generic() {
    assert_eq!(RequestType::from_str(""), Ok(RequestType::Generic));
    assert_eq!(RequestType::from_str("launchrequest"), Ok(RequestType::Generic));
    assert_eq!(RequestType::from_str("CanCagarIntentRequest"), Ok(RequestType::Generic));
}

#[test]
fn request_type_name_round_trip() {
    for t in [
        RequestType::LaunchRequest,
        RequestType::IntentRequest,
        RequestType::SessionEndedRequest,
        RequestType::Generic,
    ] {
        assert_eq!(RequestType::from_str(&t.to_string()), Ok(t));
    }
    assert_eq!(RequestType::CanCagarIntentRequest.to_string(), "CanCagarIntentRequest");
}

#[test]
fn confirmation_status_names() {
    assert_eq!(
        IntentConfirmationStatus::from_str("CONFIRMED"),
        Ok(IntentConfirmationStatus::Confirmed)
    );
    assert_eq!(IntentConfirmationStatus::from_str("DENIED"), Ok(IntentConfirmationStatus::Denied));
    assert_eq!(IntentConfirmationStatus::from_str("NONE"), Ok(IntentConfirmationStatus::NoStatus));
}

#[test]
fn confirmation_status_unknown_is_error() {
    assert_eq!(
        IntentConfirmationStatus::from_str("confirmed"),
        Err("unknown confirmation status: confirmed".to_string())
    );
}

#[test]
fn generic_request_default() {
    let g = GenericRequest::default();
    assert_eq!(g.request_type, RequestType::Generic);
    assert_eq!(g.id, "");
    assert_eq!(g.timestamp, "");
    assert_eq!(g.locale, "pt-BR");
}

#[test]
fn intent_request_uses_trait_defaults() {
    let i = intent_with(None);
    assert_eq!(<IntentRequest as GenericRequestImpl>::request_type(), RequestType::Generic);
    assert_eq!(i.id(), "");
    assert_eq!(i.timestamp(), "");
    assert_eq!(GenericRequestImpl::locale(&i), "pt-BR");
}

#[test]
fn launch_request_reads_its_base() {
    let l = LaunchRequest {
        base: GenericRequest {
            request_type: RequestType::LaunchRequest,
            id: "abc".to_string(),
            timestamp: "t0".to_string(),
            locale: "en-US".to_string(),
        },
    };
    assert_eq!(<LaunchRequest as GenericRequestImpl>::request_type(), RequestType::LaunchRequest);
    assert_eq!(l.id(), "abc");
    assert_eq!(l.timestamp(), "t0");
    assert_eq!(l.locale(), "en-US");
}

#[test]
fn slot_value_prefers_resolved_value() {
    assert_eq!(slot(Some("a"), Some("b")).value(), Some("a".to_string()));
    assert_eq!(slot(None, Some("b")).value(), Some("b".to_string()));
    assert_eq!(slot(None, None).value(), None);
}

#[test]
fn get_slot_finds_slot_by_name() {
    let i = intent_with(Some(vec![
        SlotEntry { name: "outro".to_string(), slot: Some(slot(Some("x"), None)) },
        SlotEntry { name: "user_query".to_string(), slot: Some(slot(Some("qual"), None)) },
    ]));
    let s = i.get_slot("user_query").expect("slot");
    assert_eq!(s.value(), Some("qual".to_string()));
    assert!(i.get_slot("nada").is_none());
}

#[test]
fn get_slot_without_slots_or_malformed() {
    assert!(intent_with(None).get_slot("user_query").is_none());
    let i = intent_with(Some(vec![SlotEntry { name: "user_query".to_string(), slot: None }]));
    assert!(i.get_slot("user_query").is_none());
}

#[test]
fn get_slot_takes_first_entry_of_a_name() {
    let i = intent_with(Some(vec![
        SlotEntry { name: "k".to_string(), slot: Some(slot(Some("first"), None)) },
        SlotEntry { name: "k".to_string(), slot: Some(slot(Some("second"), None)) },
    ]));
    assert_eq!(i.get_slot("k").unwrap().value(), Some("first".to_string()));
}
