use hello_lambda::{
    greet, GreetingHandler, InvocationContext, Policy, Request, Response, ValidationError,
};

fn request(name: &str) -> Request {
    Request { name: name.to_string() }
}

fn context(request_id: &str) -> InvocationContext {
    InvocationContext { request_id: request_id.to_string() }
}

#[test]
fn greeting_is_exact() {
    assert_eq!(greet("Sam"), "Hello, Sam!");
    assert_eq!(greet("World"), "Hello, World!");
    assert_eq!(greet(""), "Hello, !");
    assert_eq!(greet("  "), "Hello,   !");
    assert_eq!(greet("Zoë 🌍"), "Hello, Zoë 🌍!");
    assert_eq!(greet("a\"b\n"), "Hello, a\"b\n!");
}

#[test]
fn greeting_is_name_between_fixed_bytes() {
    let name = "Ana María";
    let message = greet(name);
    assert_eq!(message.len(), name.len() + 8);
    assert_eq!(&message.as_bytes()[..7], b"Hello, ");
    assert_eq!(&message.as_bytes()[7..message.len() - 1], name.as_bytes());
    assert_eq!(message.as_bytes()[message.len() - 1], b'!');
}

#[test]
fn non_empty_name_is_greeted_under_either_policy() {
    for name in ["Sam", "x", " ", "World", "Grüße", "a very long name indeed"] {
        for handler in [
            GreetingHandler::new(Policy::Strict),
            GreetingHandler::new(Policy::Permissive),
        ] {
            let outcome = handler.handle(&request(name), &context("id-1"));
            assert_eq!(
                outcome,
                Ok(Response { message: format!("Hello, {}!", name), request_id: None })
            );
        }
    }
}

#[test]
fn strict_policy_rejects_empty_name() {
    let handler = GreetingHandler::new(Policy::Strict);
    let outcome = handler.handle(&request(""), &context("8f6d-41"));
    assert_eq!(outcome, Err(ValidationError::EmptyName { request_id: "8f6d-41".to_string() }));
}

#[test]
fn strict_extended_handler_rejects_empty_name_too() {
    let handler = GreetingHandler::extended(Policy::Strict);
    let outcome = handler.handle(&request(""), &context(""));
    assert_eq!(outcome, Err(ValidationError::EmptyName { request_id: String::new() }));
}

#[test]
fn permissive_policy_greets_empty_name() {
    let handler = GreetingHandler::new(Policy::Permissive);
    let outcome = handler.handle(&request(""), &context("8f6d-41"));
    assert_eq!(outcome, Ok(Response { message: "Hello, !".to_string(), request_id: None }));
}

#[test]
fn extended_response_carries_the_request_id() {
    let handler = GreetingHandler::extended(Policy::Permissive);
    for id in ["8f6d-41", "", " ", "ünïcödé/id", "World"] {
        let outcome = handler.handle(&request("World"), &context(id));
        assert_eq!(
            outcome,
            Ok(Response {
                message: "Hello, World!".to_string(),
                request_id: Some(id.to_string()),
            })
        );
    }
}

#[test]
fn plain_response_carries_no_request_id() {
    let handler = GreetingHandler::new(Policy::Permissive);
    let response = handler.handle(&request("World"), &context("8f6d-41")).unwrap();
    assert_eq!(response.request_id, None);
}

#[test]
fn constructors_set_what_they_say() {
    let plain = GreetingHandler::new(Policy::Strict);
    assert_eq!(plain.policy, Policy::Strict);
    assert!(!plain.extended);
    let extended = GreetingHandler::extended(Policy::Permissive);
    assert_eq!(extended.policy, Policy::Permissive);
    assert!(extended.extended);
}

#[test]
fn handling_twice_gives_the_same_bytes() {
    let handlers = [
        GreetingHandler::new(Policy::Strict),
        GreetingHandler::new(Policy::Permissive),
        GreetingHandler::extended(Policy::Strict),
        GreetingHandler::extended(Policy::Permissive),
    ];
    for handler in handlers {
        for name in ["", "Sam", "Zoë"] {
            let first = handler.handle(&request(name), &context("id-7"));
            let second = handler.handle(&request(name), &context("id-7"));
            assert_eq!(first, second);
            if let (Ok(a), Ok(b)) = (&first, &second) {
                assert_eq!(a.message.as_bytes(), b.message.as_bytes());
            }
        }
    }
}

#[test]
fn handling_leaves_its_input_alone() {
    let handler = GreetingHandler::extended(Policy::Strict);
    let asked = request("Sam");
    let told = context("id-7");
    let _ = handler.handle(&asked, &told);
    assert_eq!(asked, request("Sam"));
    assert_eq!(told, context("id-7"));
}

#[test]
fn empty_name_error_says_what_and_where() {
    let error = ValidationError::EmptyName { request_id: "8f6d-41".to_string() };
    assert_eq!(error.message(), "Empty name");
    assert_eq!(error.diagnostic(), "Empty name in request 8f6d-41");
    let nameless = ValidationError::EmptyName { request_id: String::new() };
    assert_eq!(nameless.message(), "Empty name");
    assert_eq!(nameless.diagnostic(), "Empty name in request ");
}
