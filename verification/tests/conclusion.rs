use twlu::model::{CallerName, LineTypeIntelligence, Lookup};
use twlu::report::{conclude, Conclusion};

fn absent() -> Lookup {
    Lookup {
        call_forwarding: None,
        caller_name: None,
        calling_country_code: None,
        country_code: None,
        identity_match: None,
        line_type_intelligence: None,
    }
}

fn populated() -> Lookup {
    Lookup {
        call_forwarding: Some("off".to_string()),
        caller_name: Some(CallerName {
            caller_name: Some("Ada Lovelace".to_string()),
            caller_type: Some("CONSUMER".to_string()),
            error_code: Some(0),
        }),
        calling_country_code: Some("1".to_string()),
        country_code: Some("US".to_string()),
        identity_match: Some("none".to_string()),
        line_type_intelligence: Some(LineTypeIntelligence {
            carrier_name: Some("Example Mobile".to_string()),
            error_code: Some(60600),
            mobile_country_code: Some("310".to_string()),
            mobile_network_code: Some("456".to_string()),
            line_type: Some("mobile".to_string()),
        }),
    }
}

#[test]
fn failed_exchange_is_reported_in_one_line() {
    let end = conclude(
        "+15108675310",
        Err("https://lookups.twilio.com/v2/PhoneNumbers/+15108675310: status code 401".to_string()),
    );
    assert_eq!(
        end,
        Conclusion::Fail(
            "Error retrieving information on +15108675310: https://lookups.twilio.com/v2/PhoneNumbers/+15108675310: status code 401"
                .to_string()
        )
    );
}

#[test]
fn failed_exchange_ends_with_status_one_and_shows_no_result() {
    let end = conclude("+15108675310", Err("status code 401".to_string()));
    assert_eq!(end.exit_status(), 1);
    assert!(!matches!(end, Conclusion::Show(_)));
}

#[test]
fn failure_line_with_empty_parts() {
    assert_eq!(
        conclude("", Err(String::new())),
        Conclusion::Fail("Error retrieving information on : ".to_string())
    );
}

#[test]
fn failure_line_keeps_number_and_detail_as_they_are() {
    assert_eq!(
        conclude("décrire: 1", Err("Dns Failed: résolution".to_string())),
        Conclusion::Fail(
            "Error retrieving information on décrire: 1: Dns Failed: résolution".to_string()
        )
    );
}

#[test]
fn result_is_shown_as_it_came() {
    assert_eq!(conclude("+15108675310", Ok(populated())), Conclusion::Show(populated()));
    assert_eq!(conclude("+15108675310", Ok(absent())), Conclusion::Show(absent()));
}

#[test]
fn shown_result_ends_with_status_zero() {
    assert_eq!(conclude("+15108675310", Ok(absent())).exit_status(), 0);
    assert_eq!(Conclusion::Show(populated()).exit_status(), 0);
    assert_eq!(Conclusion::Fail(String::new()).exit_status(), 1);
}

#[test]
fn absent_and_empty_attributes_differ() {
    let mut empty = absent();
    empty.country_code = Some(String::new());
    assert_ne!(empty, absent());
    let mut zero = absent();
    zero.caller_name =
        Some(CallerName { caller_name: None, caller_type: None, error_code: Some(0) });
    let mut none = absent();
    none.caller_name = Some(CallerName { caller_name: None, caller_type: None, error_code: None });
    assert_ne!(zero, none);
    assert_ne!(none, absent());
}

#[test]
fn unauthorized_response_is_reported_as_a_failure() {
    let response = ureq::Response::new(401, "Unauthorized", "").unwrap();
    let detail = ureq::Error::Status(401, response).to_string();
    assert!(detail.ends_with("status code 401"));
    let end = conclude("+15108675310", Err(detail.clone()));
    assert_ne!(end.exit_status(), 0);
    assert_eq!(
        end,
        Conclusion::Fail(format!("Error retrieving information on +15108675310: {}", detail))
    );
}
