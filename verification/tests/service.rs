use grpc_simulation::crypto::{decrypt_message, encrypt_message};
use grpc_simulation::error::ErrorKind;
use grpc_simulation::message::{HelloRequest, HelloResponse};
use grpc_simulation::service::SimulationService;
use grpc_simulation::static_variables::{Environment, Global};

fn setup_service() -> SimulationService {
    SimulationService::new([0u8; 16]) // use a fixed AES key
}

fn request_of(service: &SimulationService, text: &str) -> HelloRequest {
    HelloRequest { message: encrypt_message(service.aes_key(), text) }
}

fn read(service: &SimulationService, response: &HelloResponse) -> String {
    decrypt_message(service.aes_key(), &response.message).unwrap()
}

#[test]
fn service_test_unary_rpc() {
    let service = setup_service();
    let message = encrypt_message(service.aes_key(), "TestUser");
    let request = HelloRequest { message };

    let response = service.unary_rpc(&request).unwrap();
    let decrypted = decrypt_message(service.aes_key(), &response.message).unwrap();

    assert_eq!(decrypted, "You got, TestUser message!");
}

#[test]
fn service_test_server_streaming_rpc() {
    let service = setup_service();
    let message = encrypt_message(service.aes_key(), "StreamUser");
    let request = HelloRequest { message };

    let response = service.server_streaming_rpc(&request).unwrap();
    let messages: Vec<_> = response
        .iter()
        .map(|res| decrypt_message(service.aes_key(), &res.message).unwrap())
        .collect();

    assert_eq!(messages.len(), 3);
    assert!(messages[0].contains("StreamUser"));
}

#[test]
fn service_test_test_unary_rpc() {
    let service = setup_service();
    let message = encrypt_message(service.aes_key(), "TestUser");
    let request = HelloRequest { message };

    let response = service.unary_rpc(&request).unwrap();
    let decrypted = decrypt_message(service.aes_key(), &response.message).unwrap();

    assert_eq!(decrypted, "You got, TestUser message!");
}

#[test]
fn service_test_test_server_streaming_rpc() {
    let service = setup_service();
    let message = encrypt_message(service.aes_key(), "StreamUser");
    let request = HelloRequest { message };

    let response = service.server_streaming_rpc(&request).unwrap();
    let messages: Vec<_> = response
        .iter()
        .map(|res| {
            let msg = &res.message;
            decrypt_message(service.aes_key(), msg).unwrap()
        })
        .collect();

    assert_eq!(messages.len(), 3);
    assert!(messages[0].contains("StreamUser"));
}

#[test]
fn test_client_streaming_rpc() {
    let service = setup_service();
    let mut requests = Vec::new();

    let names = vec!["Alice", "Bob", "Charlie"];
    for name in &names {
        let message = encrypt_message(service.aes_key(), name);
        requests.push(HelloRequest { message });
    }

    let response = service.client_streaming_rpc(&requests).unwrap();
    let decrypted = decrypt_message(service.aes_key(), &response.message).unwrap();

    assert_eq!(decrypted, "Hello, Alice, Bob, Charlie!");
}

#[test]
fn test_bi_directional_streaming_rpc() {
    let service = setup_service();
    let mut requests = Vec::new();

    let names = vec!["User1", "User2"];
    for name in &names {
        let message = encrypt_message(service.aes_key(), name);
        requests.push(HelloRequest { message });
    }

    let response_stream = service.bi_directional_streaming_rpc(&requests);

    let mut received = vec![];
    for item in response_stream {
        if let Ok(response) = item {
            let decrypted = decrypt_message(service.aes_key(), &response.message).unwrap();
            received.push(decrypted);
        } else {
            break;
        }
    }

    assert_eq!(received.len(), 2);
    assert_eq!(received[0], "Hello, User1!");
}

#[test]
fn unary_scenario_recovers_the_exact_reply() {
    let service = setup_service();
    let request = request_of(&service, "Hello from client!");
    assert_ne!(request.message, "Hello from client!");
    let response = service.unary_rpc(&request).unwrap();
    assert!(!response.message.contains("Hello from client!"));
    assert_eq!(read(&service, &response), "You got, Hello from client! message!");
}

#[test]
fn server_streaming_scenario_counts_the_occurrences_in_order() {
    let service = setup_service();
    let replies = service.server_streaming_rpc(&request_of(&service, "from client")).unwrap();
    let texts: Vec<String> = replies.iter().map(|r| read(&service, r)).collect();
    assert_eq!(
        texts,
        vec![
            "Hello, from client! (1 times)".to_string(),
            "Hello, from client! (2 times)".to_string(),
            "Hello, from client! (3 times)".to_string(),
        ]
    );
}

#[test]
fn server_streaming_replies_have_vectors_of_their_own() {
    let service = setup_service();
    let replies = service.server_streaming_rpc(&request_of(&service, "x")).unwrap();
    assert_ne!(replies[0].message[..32], replies[1].message[..32]);
    assert_ne!(replies[1].message[..32], replies[2].message[..32]);
    assert_ne!(replies[0].message[..32], replies[2].message[..32]);
}

#[test]
fn bidirectional_scenario_keeps_the_order() {
    let service = setup_service();
    let requests = vec![request_of(&service, "User1"), request_of(&service, "User2")];
    let replies = service.bi_directional_streaming_rpc(&requests);
    assert_eq!(replies.len(), 2);
    assert_eq!(read(&service, replies[0].as_ref().unwrap()), "Hello, User1!");
    assert_eq!(read(&service, replies[1].as_ref().unwrap()), "Hello, User2!");
}

#[test]
fn bidirectional_call_of_no_request_gives_no_reply() {
    let service = setup_service();
    assert_eq!(service.bi_directional_streaming_rpc(&Vec::new()), Vec::new());
}

#[test]
fn client_streaming_call_of_no_request_greets_nobody() {
    let service = setup_service();
    let response = service.client_streaming_rpc(&Vec::new()).unwrap();
    assert_eq!(read(&service, &response), "Hello, !");
}

#[test]
fn client_streaming_call_of_one_request_has_no_separator() {
    let service = setup_service();
    let response = service.client_streaming_rpc(&vec![request_of(&service, "Alice")]).unwrap();
    assert_eq!(read(&service, &response), "Hello, Alice!");
}

#[test]
fn unary_call_fails_on_a_malformed_payload() {
    let service = setup_service();
    let request = HelloRequest { message: "TestUser".to_string() };
    assert_eq!(service.unary_rpc(&request), Err(ErrorKind::MalformedCiphertext));
}

#[test]
fn unary_call_fails_on_a_payload_under_another_key() {
    let service = setup_service();
    let message = "f0f1f2f3f4f5f6f7f8f9fafbfcfdfeff:1b7a4c403124ae2fb52bedc534d82fa8".to_string();
    assert_eq!(service.unary_rpc(&HelloRequest { message }), Err(ErrorKind::DecryptionError));
}

#[test]
fn server_streaming_call_fails_before_any_reply() {
    let service = setup_service();
    let request = HelloRequest { message: "not:hex".to_string() };
    assert_eq!(service.server_streaming_rpc(&request), Err(ErrorKind::MalformedCiphertext));
}

#[test]
fn client_streaming_call_fails_as_a_whole_on_one_bad_item() {
    let service = setup_service();
    let requests = vec![
        request_of(&service, "Alice"),
        HelloRequest {
            message: "f0f1f2f3f4f5f6f7f8f9fafbfcfdfeff:1b7a4c403124ae2fb52bedc534d82fa8"
                .to_string(),
        },
        HelloRequest { message: "broken".to_string() },
    ];
    assert_eq!(service.client_streaming_rpc(&requests), Err(ErrorKind::DecryptionError));
}

#[test]
fn bidirectional_call_ends_at_the_first_bad_item() {
    let service = setup_service();
    let requests = vec![
        request_of(&service, "User1"),
        HelloRequest { message: "broken".to_string() },
        request_of(&service, "User3"),
    ];
    let replies = service.bi_directional_streaming_rpc(&requests);
    assert_eq!(replies.len(), 2);
    assert_eq!(read(&service, replies[0].as_ref().unwrap()), "Hello, User1!");
    assert_eq!(replies[1], Err(ErrorKind::MalformedCiphertext));
}

#[test]
fn default_service_uses_the_zero_key() {
    let service = SimulationService::default();
    assert_eq!(service.aes_key(), &[0u8; 16]);
    let request = HelloRequest { message: encrypt_message(&[0u8; 16], "TestUser") };
    let response = service.unary_rpc(&request).unwrap();
    assert_eq!(
        decrypt_message(&[0u8; 16], &response.message),
        Ok("You got, TestUser message!".to_string())
    );
}

#[test]
fn service_from_config_uses_the_configured_key() {
    let environment = Environment {
        client_cert_path: Some("client.crt".to_string()),
        server_root_path: Some("root.crt".to_string()),
        client_key_path: Some("client.key".to_string()),
        server_url: Some("https://[::1]:50051".to_string()),
        server_domain_name: Some("localhost".to_string()),
        server_cert_path: Some("server.crt".to_string()),
        server_key_path: Some("server.key".to_string()),
        server_client_path: Some("client_ca.crt".to_string()),
        aes_key: Some("0123456789abcdef".to_string()),
    };
    let config = Global::new(environment).unwrap();
    let service = SimulationService::from_config(&config);
    assert_eq!(service.aes_key(), b"0123456789abcdef");
    let request = HelloRequest { message: encrypt_message(b"0123456789abcdef", "TestUser") };
    let response = service.unary_rpc(&request).unwrap();
    assert_eq!(
        decrypt_message(b"0123456789abcdef", &response.message),
        Ok("You got, TestUser message!".to_string())
    );
}
