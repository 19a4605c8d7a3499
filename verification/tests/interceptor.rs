use vasystem_api::api_url;
use vasystem_api::auth::authorization_header_name;
use vasystem_api::auth::bearer_header_value;
use vasystem_api::auth::plan_call;
use vasystem_api::auth::CallPlan;
use vasystem_api::errors::CallError;
use vasystem_api::errors::TokenAcquisitionError;

#[test]
fn api_url_for_domain() {
    assert_eq!(api_url("example.com"), "https://api.example.com");
}

#[test]
fn header_name_is_authorization() {
    assert_eq!(authorization_header_name(), "authorization");
}

#[test]
fn bearer_header_wraps_token() {
    assert_eq!(bearer_header_value("abc123"), "Bearer abc123");
    assert_eq!(bearer_header_value(""), "Bearer ");
}

#[test]
fn granted_token_is_forwarded_as_bearer_credential() {
    let plan = plan_call(Ok("abc123".to_string()));
    match plan {
        CallPlan::Forward(header) => assert_eq!(header, "Bearer abc123"),
        CallPlan::Reject(_) => panic!("a granted token must be forwarded"),
    }
}

#[test]
fn failed_acquisition_rejects_without_touching_transport() {
    let failure = TokenAcquisitionError {
        message: "grant refused".to_string(),
    };
    let plan = plan_call(Err(failure));
    match plan {
        CallPlan::Reject(err) => {
            assert!(err.is_authentication_failure());
            match err {
                CallError::TokenAcquisition(e) => assert_eq!(e.message, "grant refused"),
                CallError::Transport(_) => panic!("the failure must be an authentication one"),
            }
        }
        CallPlan::Forward(_) => panic!("a failed acquisition must never forward the call"),
    }
}

#[test]
fn transport_failures_are_not_authentication_failures() {
    let err = CallError::Transport("connection reset".to_string());
    assert!(!err.is_authentication_failure());
}

#[test]
fn concurrent_plans_are_independent() {
    // Two calls sharing one token source each get their own plan; neither
    // plan depends on the other's in-flight state.
    let a = plan_call(Ok("tok".to_string()));
    let b = plan_call(Ok("tok".to_string()));
    for plan in [a, b] {
        match plan {
            CallPlan::Forward(header) => assert_eq!(header, "Bearer tok"),
            CallPlan::Reject(_) => panic!("both calls must be forwarded"),
        }
    }
}
