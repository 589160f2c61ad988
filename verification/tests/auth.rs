use nethid::auth::{
    authenticate, AuthAction, AuthError, AuthEvent, AuthState, AuthStatus, LoginResponse,
    ReplyError,
};
use nethid::token::decode_token;
use nethid::udp::UdpSender;

const ASCENDING: [u8; 16] = [
    0x01, 0x02, 0x03, 0x04, 0x05, 0x06, 0x07, 0x08, 0x09, 0x0a, 0x0b, 0x0c, 0x0d, 0x0e, 0x0f, 0x10,
];

/// How a handshake against a scripted receiver ended.
struct Outcome {
    result: Result<Option<[u8; 16]>, AuthError>,
    requests: Vec<String>,
    state: AuthState,
}

fn login_reply(token: &str) -> Result<LoginResponse, ReplyError> {
    Ok(LoginResponse { token: token.to_string() })
}

/// Runs a whole handshake. The receiver answers the status request with
/// `status` and a login with `login`; every request is written down.
fn handshake(
    host: &str,
    password: Option<&str>,
    status: Result<AuthStatus, ReplyError>,
    login: Result<LoginResponse, ReplyError>,
) -> Outcome {
    let mut status = Some(status);
    let mut login = Some(login);
    let mut requests = Vec::new();
    let (mut state, mut action) = authenticate(host, password, AuthState::Start, AuthEvent::Begin);
    loop {
        let event = match action {
            AuthAction::GetStatus { url } => {
                requests.push(format!("GET {url}"));
                AuthEvent::Status(status.take().expect("the status was asked for twice"))
            }
            AuthAction::PostLogin { url, password } => {
                requests.push(format!("POST {url} {password}"));
                AuthEvent::Login(login.take().expect("the login was sent twice"))
            }
            AuthAction::Done(token) => return Outcome { result: Ok(token), requests, state },
            AuthAction::Failed(error) => return Outcome { result: Err(error), requests, state },
        };
        let next = authenticate(host, password, state, event);
        state = next.0;
        action = next.1;
    }
}

#[test]
fn token_of_zeros() {
    assert_eq!(decode_token("00000000000000000000000000000000"), Some([0u8; 16]));
}

#[test]
fn token_ascending() {
    assert_eq!(decode_token("0102030405060708090a0b0c0d0e0f10"), Some(ASCENDING));
}

#[test]
fn token_digits_of_either_case() {
    let expected = [
        0xde, 0xad, 0xbe, 0xef, 0xca, 0xfe, 0xba, 0xbe, 0x00, 0x99, 0xaa, 0xff, 0x12, 0x34, 0xab,
        0xcd,
    ];
    assert_eq!(decode_token("deadbeefcafebabe0099aaff1234abcd"), Some(expected));
    assert_eq!(decode_token("DEADBEEFCAFEBABE0099AAFF1234ABCD"), Some(expected));
    assert_eq!(decode_token("DeAdBeEfCaFeBaBe0099aAfF1234AbCd"), Some(expected));
}

#[test]
fn token_of_wrong_length_is_rejected() {
    assert_eq!(decode_token(""), None);
    assert_eq!(decode_token("00"), None);
    assert_eq!(decode_token("0000000000000000000000000000000"), None);
    assert_eq!(decode_token("000000000000000000000000000000"), None);
    assert_eq!(decode_token("000000000000000000000000000000000"), None);
    assert_eq!(decode_token("0000000000000000000000000000000000"), None);
    assert_eq!(
        decode_token("0000000000000000000000000000000000000000000000000000000000000000"),
        None
    );
}

#[test]
fn token_with_other_characters_is_rejected() {
    assert_eq!(decode_token("0000000000000000000000000000000g"), None);
    assert_eq!(decode_token("g0000000000000000000000000000000"), None);
    assert_eq!(decode_token("0000000000000000 000000000000000"), None);
    assert_eq!(decode_token("0x000000000000000000000000000000"), None);
    assert_eq!(decode_token("000000000000000000000000000000/:"), None);
    assert_eq!(decode_token("000000000000000000000000000000@G"), None);
    assert_eq!(decode_token("000000000000000000000000000000`g"), None);
}

#[test]
fn token_outside_ascii_is_rejected() {
    // 32 characters, of which one takes two bytes.
    assert_eq!(decode_token("000000000000000000000000000000\u{e9}0"), None);
    // 32 bytes, of which two make one character.
    assert_eq!(decode_token("000000000000000000000000000000\u{e9}"), None);
    // Digits of another script.
    assert_eq!(decode_token("\u{661}000000000000000000000000000000"), None);
}

#[test]
fn handshake_starts_with_the_status_request() {
    let (state, action) = authenticate("device.local", None, AuthState::Start, AuthEvent::Begin);
    assert_eq!(state, AuthState::AwaitingStatus);
    assert_eq!(
        action,
        AuthAction::GetStatus { url: "http://device.local/api/auth/status".to_string() }
    );
}

#[test]
fn no_auth_required_means_no_token_and_no_login() {
    let outcome = handshake(
        "device.local",
        Some("abc"),
        Ok(AuthStatus { required: false }),
        login_reply("0102030405060708090a0b0c0d0e0f10"),
    );
    assert_eq!(outcome.result, Ok(None));
    assert_eq!(outcome.requests, vec!["GET http://device.local/api/auth/status".to_string()]);
    assert_eq!(outcome.state, AuthState::Finished);
}

#[test]
fn no_auth_required_without_password() {
    let outcome = handshake(
        "10.1.2.3",
        None,
        Ok(AuthStatus { required: false }),
        Err(ReplyError::Unreachable),
    );
    assert_eq!(outcome.result, Ok(None));
    assert_eq!(outcome.requests.len(), 1);
}

#[test]
fn password_is_traded_for_the_token() {
    let outcome = handshake(
        "device.local",
        Some("abc"),
        Ok(AuthStatus { required: true }),
        login_reply("0102030405060708090a0b0c0d0e0f10"),
    );
    assert_eq!(outcome.result, Ok(Some(ASCENDING)));
    assert_eq!(
        outcome.requests,
        vec![
            "GET http://device.local/api/auth/status".to_string(),
            "POST http://device.local/api/login abc".to_string(),
        ]
    );
    assert_eq!(outcome.state, AuthState::Finished);

    let sender = UdpSender::new("device.local", outcome.result.unwrap());
    let mut header = vec![0u8, 0x02];
    header.extend_from_slice(&ASCENDING);
    let mut packets = vec![sender.send_keyboard(true, 4), sender.send_consumer(true, 0x00E9)];
    packets.extend(sender.send_mouse(0, 400, 0, 0, 0));
    assert_eq!(packets.len(), 6);
    for pkt in packets {
        assert_eq!(&pkt[1..18], &header[1..]);
    }
}

#[test]
fn login_step_by_step() {
    let (state, action) = authenticate(
        "h",
        Some("secret"),
        AuthState::AwaitingStatus,
        AuthEvent::Status(Ok(AuthStatus { required: true })),
    );
    assert_eq!(state, AuthState::AwaitingLogin);
    assert_eq!(
        action,
        AuthAction::PostLogin {
            url: "http://h/api/login".to_string(),
            password: "secret".to_string()
        }
    );
    let (state, action) = authenticate(
        "h",
        Some("secret"),
        state,
        AuthEvent::Login(login_reply("00000000000000000000000000000000")),
    );
    assert_eq!(state, AuthState::Finished);
    assert_eq!(action, AuthAction::Done(Some([0u8; 16])));
}

#[test]
fn status_unreachable_fails() {
    let outcome = handshake("h", Some("abc"), Err(ReplyError::Unreachable), login_reply(""));
    assert_eq!(outcome.result, Err(AuthError::StatusUnreachable));
    assert_eq!(outcome.requests.len(), 1);
    assert_eq!(outcome.state, AuthState::Finished);
}

#[test]
fn status_malformed_fails() {
    let outcome = handshake("h", Some("abc"), Err(ReplyError::Malformed), login_reply(""));
    assert_eq!(outcome.result, Err(AuthError::MalformedStatus));
    assert_eq!(outcome.requests.len(), 1);
}

#[test]
fn missing_password_fails_before_any_login() {
    let outcome = handshake(
        "h",
        None,
        Ok(AuthStatus { required: true }),
        login_reply("0102030405060708090a0b0c0d0e0f10"),
    );
    assert_eq!(outcome.result, Err(AuthError::MissingPassword));
    assert_eq!(outcome.requests, vec!["GET http://h/api/auth/status".to_string()]);
}

#[test]
fn login_unreachable_fails() {
    let outcome = handshake(
        "h",
        Some("abc"),
        Ok(AuthStatus { required: true }),
        Err(ReplyError::Unreachable),
    );
    assert_eq!(outcome.result, Err(AuthError::LoginFailed));
    assert_eq!(outcome.requests.len(), 2);
}

#[test]
fn login_malformed_fails() {
    let outcome =
        handshake("h", Some("abc"), Ok(AuthStatus { required: true }), Err(ReplyError::Malformed));
    assert_eq!(outcome.result, Err(AuthError::MalformedLogin));
    assert_eq!(outcome.requests.len(), 2);
}

#[test]
fn bad_token_fails() {
    let tokens =
        ["", "0102", "0102030405060708090a0b0c0d0e0f1", "0102030405060708090a0b0c0d0e0fzz"];
    for token in tokens {
        let outcome =
            handshake("h", Some("abc"), Ok(AuthStatus { required: true }), login_reply(token));
        assert_eq!(outcome.result, Err(AuthError::BadToken), "token {token:?}");
        assert_eq!(outcome.state, AuthState::Finished);
    }
}

#[test]
fn events_out_of_turn_fail() {
    let failed = (AuthState::Finished, AuthAction::Failed(AuthError::UnexpectedEvent));
    let status = || AuthEvent::Status(Ok(AuthStatus { required: false }));
    let login = || AuthEvent::Login(login_reply("00000000000000000000000000000000"));

    assert_eq!(authenticate("h", Some("p"), AuthState::Start, status()), failed);
    assert_eq!(authenticate("h", Some("p"), AuthState::Start, login()), failed);
    assert_eq!(authenticate("h", Some("p"), AuthState::AwaitingStatus, AuthEvent::Begin), failed);
    assert_eq!(authenticate("h", Some("p"), AuthState::AwaitingStatus, login()), failed);
    assert_eq!(authenticate("h", Some("p"), AuthState::AwaitingLogin, AuthEvent::Begin), failed);
    assert_eq!(authenticate("h", Some("p"), AuthState::AwaitingLogin, status()), failed);
    assert_eq!(authenticate("h", Some("p"), AuthState::Finished, AuthEvent::Begin), failed);
    assert_eq!(authenticate("h", Some("p"), AuthState::Finished, status()), failed);
    assert_eq!(authenticate("h", Some("p"), AuthState::Finished, login()), failed);
}
