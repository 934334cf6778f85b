use ruma::CanonicalJsonValue;
use uiaa::auth::{AuthData, Evidence, PasswordCheck, UserIdentifier};
use uiaa::error::Error;
use uiaa::identity::UserId;
use uiaa::info::{ErrorKind, StandardErrorBody, UiaaInfo};
use uiaa::service::{Service, SESSION_ID_LENGTH};
use uiaa::stage::{AuthFlow, AuthType};
use uiaa::verify::{verify_password, verify_registration_token, verify_stage, Outcome};

fn engine() -> Service {
    Service::build("example.org".to_owned(), Some("fixed-token".to_owned())).unwrap()
}

fn alice() -> UserId {
    UserId::new("alice".to_owned(), "example.org".to_owned())
}

fn bob() -> UserId {
    UserId::new("bob".to_owned(), "example.org".to_owned())
}

fn flows(lists: Vec<Vec<AuthType>>) -> UiaaInfo {
    UiaaInfo::new(lists.into_iter().map(AuthFlow::new).collect())
}

fn with_session(mut info: UiaaInfo, session: &str) -> UiaaInfo {
    info.session = Some(session.to_owned());
    info
}

fn nothing_found() -> Evidence {
    Evidence { password: PasswordCheck::NoHash, token_file: None }
}

fn password_found(check: PasswordCheck) -> Evidence {
    Evidence { password: check, token_file: None }
}

fn file_found(text: &str) -> Evidence {
    Evidence { password: PasswordCheck::NoHash, token_file: Some(text.to_owned()) }
}

fn password(name: &str, session: Option<&str>) -> AuthData {
    AuthData::Password {
        identifier: Some(UserIdentifier::UserIdOrLocalpart(name.to_owned())),
        password: "secret".to_owned(),
        session: session.map(|s| s.to_owned()),
    }
}

fn token(value: &str, session: Option<&str>) -> AuthData {
    AuthData::RegistrationToken { token: value.to_owned(), session: session.map(|s| s.to_owned()) }
}

fn dummy(session: Option<&str>) -> AuthData {
    AuthData::Dummy { session: session.map(|s| s.to_owned()) }
}

fn payload(text: &str) -> CanonicalJsonValue {
    CanonicalJsonValue::String(text.to_owned())
}

fn wrong_password() -> StandardErrorBody {
    StandardErrorBody {
        kind: ErrorKind::Forbidden,
        message: "Invalid username or password.".to_owned(),
    }
}

fn wrong_token() -> StandardErrorBody {
    StandardErrorBody { kind: ErrorKind::Forbidden, message: "Invalid registration token.".to_owned() }
}

#[test]
fn dummy_first_completes_the_session_at_once() {
    let mut service = engine();
    let fallback = flows(vec![vec![AuthType::Password], vec![AuthType::Dummy]]);
    let (done, progress) =
        service.try_auth(&alice(), "DEVICE", &dummy(None), &fallback, &nothing_found()).unwrap();
    assert!(done);
    assert_eq!(progress.completed, vec![AuthType::Dummy]);
    assert_eq!(progress.flows, fallback.flows);
    assert_eq!(progress.auth_error, None);
    let session = progress.session.unwrap();
    assert_eq!(
        service.get_uiaa_session(&alice(), "DEVICE", &session),
        Err(Error::SessionNotFound)
    );
}

#[test]
fn stages_in_the_wrong_order_still_complete_the_flow() {
    let mut service = engine();
    let fallback = flows(vec![vec![AuthType::RegistrationToken, AuthType::Dummy]]);
    let (done, progress) =
        service.try_auth(&alice(), "DEVICE", &dummy(None), &fallback, &nothing_found()).unwrap();
    assert!(!done);
    assert_eq!(progress.completed, vec![AuthType::Dummy]);
    let session = progress.session.clone().unwrap();
    assert_eq!(service.get_uiaa_session(&alice(), "DEVICE", &session), Ok(progress));

    let (done, progress) = service
        .try_auth(
            &alice(),
            "DEVICE",
            &token("fixed-token", Some(&session)),
            &UiaaInfo::new(vec![]),
            &nothing_found(),
        )
        .unwrap();
    assert!(done);
    assert_eq!(progress.completed, vec![AuthType::Dummy, AuthType::RegistrationToken]);
    assert_eq!(progress.session, Some(session.clone()));
    assert_eq!(
        service.get_uiaa_session(&alice(), "DEVICE", &session),
        Err(Error::SessionNotFound)
    );
}

#[test]
fn wrong_password_twice_then_the_right_one() {
    let mut service = engine();
    let info = with_session(flows(vec![vec![AuthType::Password]]), "s1");
    service.create(&alice(), "DEVICE", &info, &payload("change password"));

    for _ in 0..2 {
        let (done, progress) = service
            .try_auth(
                &alice(),
                "DEVICE",
                &password("alice", Some("s1")),
                &UiaaInfo::new(vec![]),
                &password_found(PasswordCheck::Mismatch),
            )
            .unwrap();
        assert!(!done);
        assert_eq!(progress.completed, vec![]);
        assert_eq!(progress.auth_error, Some(wrong_password()));
        assert_eq!(progress.session, Some("s1".to_owned()));
        assert_eq!(service.get_uiaa_session(&alice(), "DEVICE", "s1"), Ok(progress));
    }

    let (done, progress) = service
        .try_auth(
            &alice(),
            "DEVICE",
            &password("alice", Some("s1")),
            &UiaaInfo::new(vec![]),
            &password_found(PasswordCheck::Matches),
        )
        .unwrap();
    assert!(done);
    assert_eq!(progress.completed, vec![AuthType::Password]);
    assert_eq!(progress.auth_error, None);
    assert_eq!(progress.session, Some("s1".to_owned()));
    assert_eq!(service.get_uiaa_session(&alice(), "DEVICE", "s1"), Err(Error::SessionNotFound));
    assert_eq!(
        service.get_uiaa_request(&alice(), Some("DEVICE"), "s1"),
        Some(payload("change password"))
    );
}

#[test]
fn a_concluded_session_cannot_be_named_again() {
    let mut service = engine();
    let info = with_session(flows(vec![vec![AuthType::Dummy]]), "s1");
    service.create(&alice(), "DEVICE", &info, &payload("p"));
    let (done, _) = service
        .try_auth(&alice(), "DEVICE", &dummy(Some("s1")), &info, &nothing_found())
        .unwrap();
    assert!(done);
    for auth in [dummy(Some("s1")), password("alice", Some("s1")), token("fixed-token", Some("s1"))] {
        assert_eq!(
            service.try_auth(&alice(), "DEVICE", &auth, &info, &password_found(PasswordCheck::Matches)),
            Err(Error::SessionNotFound)
        );
    }
}

#[test]
fn an_unknown_session_is_never_made_up() {
    let mut service = engine();
    let fallback = flows(vec![vec![AuthType::Dummy]]);
    assert_eq!(
        service.try_auth(&alice(), "DEVICE", &dummy(Some("ghost")), &fallback, &nothing_found()),
        Err(Error::SessionNotFound)
    );
    assert_eq!(service.get_uiaa_session(&alice(), "DEVICE", "ghost"), Err(Error::SessionNotFound));
}

#[test]
fn sessions_are_kept_apart_by_user_and_device() {
    let mut service = engine();
    let info = with_session(flows(vec![vec![AuthType::Password, AuthType::Dummy]]), "s1");
    service.create(&alice(), "PHONE", &info, &payload("p"));
    assert_eq!(
        service.try_auth(&bob(), "PHONE", &dummy(Some("s1")), &info, &nothing_found()),
        Err(Error::SessionNotFound)
    );
    assert_eq!(
        service.try_auth(&alice(), "LAPTOP", &dummy(Some("s1")), &info, &nothing_found()),
        Err(Error::SessionNotFound)
    );
    let other_server = UserId::new("alice".to_owned(), "elsewhere.org".to_owned());
    assert_eq!(
        service.try_auth(&other_server, "PHONE", &dummy(Some("s1")), &info, &nothing_found()),
        Err(Error::SessionNotFound)
    );
    assert_eq!(service.get_uiaa_session(&alice(), "PHONE", "s1"), Ok(info));
}

#[test]
fn password_for_another_user_is_refused_whatever_the_password() {
    for check in [PasswordCheck::Matches, PasswordCheck::Mismatch, PasswordCheck::NoHash] {
        let mut service = engine();
        let info = with_session(flows(vec![vec![AuthType::Password]]), "s1");
        service.create(&alice(), "DEVICE", &info, &payload("p"));
        for name in ["bob", "@bob:example.org", "@bob:elsewhere.org", "Alice"] {
            assert_eq!(
                service.try_auth(
                    &alice(),
                    "DEVICE",
                    &password(name, Some("s1")),
                    &info,
                    &password_found(check)
                ),
                Err(Error::UserMismatch)
            );
            assert_eq!(
                service.try_auth(&alice(), "DEVICE", &password(name, None), &info, &password_found(check)),
                Err(Error::UserMismatch)
            );
        }
        assert_eq!(service.get_uiaa_session(&alice(), "DEVICE", "s1"), Ok(info));
    }
}

#[test]
fn password_names_are_completed_with_the_server_name() {
    let mut service = engine();
    let fallback = flows(vec![vec![AuthType::Password]]);
    for name in ["alice", "@alice:example.org", "@alice:elsewhere.org:8448"] {
        let (done, progress) = service
            .try_auth(
                &alice(),
                "DEVICE",
                &password(name, None),
                &fallback,
                &password_found(PasswordCheck::Matches),
            )
            .unwrap();
        assert!(done);
        assert_eq!(progress.completed, vec![AuthType::Password]);
    }
}

#[test]
fn malformed_user_names_are_refused() {
    let mut service = engine();
    let fallback = flows(vec![vec![AuthType::Password]]);
    for name in ["al:ice", "@alice", "@alice:", "@alice:bad server", "a\0b"] {
        assert_eq!(
            service.try_auth(
                &alice(),
                "DEVICE",
                &password(name, None),
                &fallback,
                &password_found(PasswordCheck::Matches)
            ),
            Err(Error::InvalidUserId),
            "{:?}",
            name
        );
    }
}

#[test]
fn an_engine_is_built_for_a_server_name_only() {
    for name in ["example.org", "example.org:8448", "1.2.3.4", "[::1]:8448", "localhost"] {
        assert!(Service::build(name.to_owned(), None).is_some(), "{:?}", name);
    }
    for name in ["", "not a server", "example.org:", ":8448", "exa_mple.org", "[::1", "a:b:c"] {
        assert!(Service::build(name.to_owned(), None).is_none(), "{:?}", name);
    }
}

#[test]
fn the_account_service_is_asked_for_the_proofs_own_user_only() {
    let mut service = engine();
    let info = with_session(flows(vec![vec![AuthType::Password]]), "s1");
    service.create(&alice(), "DEVICE", &info, &payload("p"));
    assert_eq!(
        service.hash_subject(&alice(), "DEVICE", &password("alice", Some("s1")), &info),
        Some(alice())
    );
    assert_eq!(
        service.hash_subject(&alice(), "DEVICE", &password("@alice:elsewhere.org", None), &info),
        Some(UserId::new("alice".to_owned(), "elsewhere.org".to_owned()))
    );
    assert_eq!(service.hash_subject(&alice(), "DEVICE", &password("bob", Some("s1")), &info), None);
    assert_eq!(service.hash_subject(&alice(), "DEVICE", &password("a:b", Some("s1")), &info), None);
    assert_eq!(
        service.hash_subject(&alice(), "DEVICE", &password("alice", Some("ghost")), &info),
        None
    );
    assert_eq!(service.hash_subject(&alice(), "DEVICE", &dummy(Some("s1")), &info), None);
    assert_eq!(service.hash_subject(&alice(), "DEVICE", &token("t", None), &info), None);
    let third = AuthData::Password {
        identifier: Some(UserIdentifier::ThirdParty),
        password: "secret".to_owned(),
        session: None,
    };
    assert_eq!(service.hash_subject(&alice(), "DEVICE", &third, &info), None);
}

#[test]
fn a_record_is_filed_under_the_key_whatever_token_it_carries() {
    let mut service = engine();
    let other = with_session(flows(vec![vec![AuthType::Dummy, AuthType::Password]]), "other");
    let none = flows(vec![vec![AuthType::Password]]);
    service.update_uiaa_session(&alice(), "DEVICE", "s1", Some(&other));
    service.update_uiaa_session(&alice(), "DEVICE", "s2", Some(&none));
    assert_eq!(service.get_uiaa_session(&alice(), "DEVICE", "s1"), Ok(other));
    assert_eq!(service.get_uiaa_session(&alice(), "DEVICE", "s2"), Ok(none));
    assert_eq!(service.get_uiaa_session(&alice(), "DEVICE", "other"), Err(Error::SessionNotFound));
    let (done, progress) = service
        .try_auth(&alice(), "DEVICE", &dummy(Some("s1")), &UiaaInfo::new(vec![]), &nothing_found())
        .unwrap();
    assert!(!done);
    assert_eq!(progress.session, Some("other".to_owned()));
    assert_eq!(service.get_uiaa_session(&alice(), "DEVICE", "other"), Ok(progress));
    assert_eq!(service.get_uiaa_session(&alice(), "DEVICE", "s1").unwrap().completed, vec![]);
}

#[test]
fn an_error_of_another_class_stays_in_the_record() {
    let mut service = engine();
    let mut info = with_session(flows(vec![vec![AuthType::Password]]), "s1");
    let limited = StandardErrorBody {
        kind: ErrorKind::Other("M_LIMIT_EXCEEDED".to_owned()),
        message: "Too many requests".to_owned(),
    };
    info.auth_error = Some(limited.clone());
    service.create(&alice(), "DEVICE", &info, &payload("p"));
    let auth = AuthData::Unsupported { kind: "m.login.sso".to_owned(), session: Some("s1".to_owned()) };
    let (done, progress) =
        service.try_auth(&alice(), "DEVICE", &auth, &info, &nothing_found()).unwrap();
    assert!(!done);
    assert_eq!(progress.auth_error, Some(limited));
    assert_eq!(ErrorKind::Other("x".to_owned()).clone(), ErrorKind::Other("x".to_owned()));
}

#[test]
fn other_identifiers_are_not_recognized() {
    let mut service = engine();
    let fallback = flows(vec![vec![AuthType::Password]]);
    for identifier in [None, Some(UserIdentifier::ThirdParty)] {
        let auth =
            AuthData::Password { identifier, password: "secret".to_owned(), session: None };
        assert_eq!(
            service.try_auth(
                &alice(),
                "DEVICE",
                &auth,
                &fallback,
                &password_found(PasswordCheck::Matches)
            ),
            Err(Error::UnrecognizedIdentifier)
        );
    }
}

#[test]
fn a_missing_session_is_reported_before_a_bad_proof() {
    let mut service = engine();
    let fallback = flows(vec![vec![AuthType::Password]]);
    let auth = AuthData::Password {
        identifier: None,
        password: "secret".to_owned(),
        session: Some("ghost".to_owned()),
    };
    assert_eq!(
        service.try_auth(&alice(), "DEVICE", &auth, &fallback, &nothing_found()),
        Err(Error::SessionNotFound)
    );
    assert_eq!(
        service.try_auth(&alice(), "DEVICE", &password("bob", Some("ghost")), &fallback, &nothing_found()),
        Err(Error::SessionNotFound)
    );
}

#[test]
fn refused_attempts_leave_the_store_as_it_was() {
    let mut service = engine();
    let mut info = with_session(flows(vec![vec![AuthType::Password, AuthType::Dummy]]), "s1");
    info.completed.push(AuthType::Dummy);
    service.create(&alice(), "DEVICE", &info, &payload("p"));
    assert_eq!(
        service.try_auth(&alice(), "DEVICE", &password("bob", Some("s1")), &info, &nothing_found()),
        Err(Error::UserMismatch)
    );
    assert_eq!(
        service.try_auth(&alice(), "DEVICE", &password("a:b", Some("s1")), &info, &nothing_found()),
        Err(Error::InvalidUserId)
    );
    assert_eq!(service.get_uiaa_session(&alice(), "DEVICE", "s1"), Ok(info));
    assert_eq!(service.get_uiaa_request(&alice(), Some("DEVICE"), "s1"), Some(payload("p")));
}

#[test]
fn an_account_without_password_cannot_use_the_password_stage() {
    let mut service = engine();
    let fallback = flows(vec![vec![AuthType::Password]]);
    let (done, progress) = service
        .try_auth(
            &alice(),
            "DEVICE",
            &password("alice", None),
            &fallback,
            &password_found(PasswordCheck::NoHash),
        )
        .unwrap();
    assert!(!done);
    assert_eq!(progress.completed, vec![]);
    assert_eq!(progress.auth_error, None);
    let session = progress.session.clone().unwrap();
    assert_eq!(service.get_uiaa_session(&alice(), "DEVICE", &session), Ok(progress));
}

#[test]
fn unsupported_stage_neither_advances_nor_aborts() {
    let mut service = engine();
    let kind = "m.login.recaptcha";
    let info = with_session(
        flows(vec![vec![AuthType::Unsupported(kind.to_owned())], vec![AuthType::Dummy]]),
        "s1",
    );
    service.create(&alice(), "DEVICE", &info, &payload("p"));
    let auth = AuthData::Unsupported { kind: kind.to_owned(), session: Some("s1".to_owned()) };
    let (done, progress) =
        service.try_auth(&alice(), "DEVICE", &auth, &info, &nothing_found()).unwrap();
    assert!(!done);
    assert_eq!(progress, info);
    assert_eq!(service.get_uiaa_session(&alice(), "DEVICE", "s1"), Ok(info));
    let (done, _) = service
        .try_auth(&alice(), "DEVICE", &dummy(Some("s1")), &UiaaInfo::new(vec![]), &nothing_found())
        .unwrap();
    assert!(done);
}

#[test]
fn completed_only_grows_over_a_session() {
    let mut service = engine();
    let info = with_session(
        flows(vec![vec![AuthType::Dummy, AuthType::RegistrationToken, AuthType::Password]]),
        "s1",
    );
    service.create(&alice(), "DEVICE", &info, &payload("p"));
    let steps: Vec<(AuthData, Evidence, Vec<AuthType>)> = vec![
        (token("nope", Some("s1")), nothing_found(), vec![]),
        (dummy(Some("s1")), nothing_found(), vec![AuthType::Dummy]),
        (password("alice", Some("s1")), password_found(PasswordCheck::Mismatch), vec![AuthType::Dummy]),
        (dummy(Some("s1")), nothing_found(), vec![AuthType::Dummy]),
        (
            token(" fixed-token ", Some("s1")),
            nothing_found(),
            vec![AuthType::Dummy, AuthType::RegistrationToken],
        ),
        (
            AuthData::Unsupported { kind: "x".to_owned(), session: Some("s1".to_owned()) },
            nothing_found(),
            vec![AuthType::Dummy, AuthType::RegistrationToken],
        ),
    ];
    let mut before: Vec<AuthType> = vec![];
    for (auth, evidence, expected) in steps {
        let (done, progress) =
            service.try_auth(&alice(), "DEVICE", &auth, &UiaaInfo::new(vec![]), &evidence).unwrap();
        assert!(!done);
        assert_eq!(progress.completed, expected);
        assert_eq!(progress.completed[..before.len()], before[..]);
        assert_eq!(progress.flows, info.flows);
        assert_eq!(
            service.get_uiaa_session(&alice(), "DEVICE", "s1").unwrap().completed,
            expected
        );
        before = progress.completed;
    }
    let (done, progress) = service
        .try_auth(
            &alice(),
            "DEVICE",
            &password("alice", Some("s1")),
            &UiaaInfo::new(vec![]),
            &password_found(PasswordCheck::Matches),
        )
        .unwrap();
    assert!(done);
    assert_eq!(
        progress.completed,
        vec![AuthType::Dummy, AuthType::RegistrationToken, AuthType::Password]
    );
}

#[test]
fn a_success_clears_the_error_of_an_earlier_failure() {
    let mut service = engine();
    let info = with_session(flows(vec![vec![AuthType::RegistrationToken, AuthType::Dummy]]), "s1");
    service.create(&alice(), "DEVICE", &info, &payload("p"));
    let (_, progress) = service
        .try_auth(&alice(), "DEVICE", &token("bad", Some("s1")), &info, &nothing_found())
        .unwrap();
    assert_eq!(progress.auth_error, Some(wrong_token()));
    let (done, progress) =
        service.try_auth(&alice(), "DEVICE", &dummy(Some("s1")), &info, &nothing_found()).unwrap();
    assert!(!done);
    assert_eq!(progress.auth_error, None);
    assert_eq!(service.get_uiaa_session(&alice(), "DEVICE", "s1").unwrap().auth_error, None);
}

#[test]
fn a_rejected_proof_does_not_conclude_a_satisfied_session() {
    let mut service = engine();
    let fallback = flows(vec![vec![]]);
    let (done, progress) = service
        .try_auth(&alice(), "DEVICE", &token("bad", None), &fallback, &nothing_found())
        .unwrap();
    assert!(!done);
    assert_eq!(progress.auth_error, Some(wrong_token()));
    let session = progress.session.clone().unwrap();
    assert_eq!(service.get_uiaa_session(&alice(), "DEVICE", &session), Ok(progress));
}

#[test]
fn a_new_session_gets_a_random_token() {
    let mut service = engine();
    let fallback = flows(vec![vec![AuthType::Password, AuthType::Dummy]]);
    let mut seen: Vec<String> = vec![];
    for _ in 0..20 {
        let (done, progress) = service
            .try_auth(&alice(), "DEVICE", &dummy(None), &fallback, &nothing_found())
            .unwrap();
        assert!(!done);
        let session = progress.session.clone().unwrap();
        assert_eq!(session.chars().count(), SESSION_ID_LENGTH);
        assert_eq!(SESSION_ID_LENGTH, 32);
        assert!(session.chars().all(|c| c.is_ascii_alphanumeric()));
        assert!(!seen.contains(&session));
        assert_eq!(service.get_uiaa_session(&alice(), "DEVICE", &session), Ok(progress));
        seen.push(session);
    }
}

#[test]
fn the_token_of_the_fallback_record_is_kept() {
    let mut service = engine();
    let fallback = with_session(flows(vec![vec![AuthType::Password, AuthType::Dummy]]), "mine");
    let (done, progress) =
        service.try_auth(&alice(), "DEVICE", &dummy(None), &fallback, &nothing_found()).unwrap();
    assert!(!done);
    assert_eq!(progress.session, Some("mine".to_owned()));
    assert_eq!(service.get_uiaa_session(&alice(), "DEVICE", "mine"), Ok(progress));
}

#[test]
fn a_stage_completed_twice_is_recorded_once() {
    let mut service = engine();
    let info = with_session(flows(vec![vec![AuthType::Password, AuthType::Dummy]]), "s1");
    service.create(&alice(), "DEVICE", &info, &payload("p"));
    for _ in 0..3 {
        let (done, progress) = service
            .try_auth(&alice(), "DEVICE", &dummy(Some("s1")), &info, &nothing_found())
            .unwrap();
        assert!(!done);
        assert_eq!(progress.completed, vec![AuthType::Dummy]);
    }
}

#[test]
fn registration_tokens_are_trimmed_and_case_sensitive() {
    let tokens = vec!["Alpha".to_owned(), "beta".to_owned()];
    let completed = Outcome::Completed(AuthType::RegistrationToken);
    let rejected = Outcome::Rejected(wrong_token());
    assert_eq!(verify_registration_token(&tokens, "Alpha"), completed);
    assert_eq!(verify_registration_token(&tokens, "  Alpha\n"), completed);
    assert_eq!(verify_registration_token(&tokens, "\u{00A0}beta\t"), completed);
    assert_eq!(verify_registration_token(&tokens, "alpha"), rejected);
    assert_eq!(verify_registration_token(&tokens, "ALPHA"), rejected);
    assert_eq!(verify_registration_token(&tokens, "Al pha"), rejected);
    assert_eq!(verify_registration_token(&tokens, "Alph"), rejected);
    assert_eq!(verify_registration_token(&tokens, ""), rejected);
    assert_eq!(verify_registration_token(&vec![], ""), rejected);
}

#[test]
fn a_token_only_in_the_file_is_accepted() {
    let file = "first\n  Second\tthird  \n";
    for fixed in [None, Some("fixed-token".to_owned())] {
        let mut service = Service::build("example.org".to_owned(), fixed.clone()).unwrap();
        let fallback = flows(vec![vec![AuthType::RegistrationToken]]);
        for supplied in ["first", "Second", " third "] {
            let (done, progress) = service
                .try_auth(&alice(), "DEVICE", &token(supplied, None), &fallback, &file_found(file))
                .unwrap();
            assert!(done);
            assert_eq!(progress.completed, vec![AuthType::RegistrationToken]);
        }
        for supplied in ["second", "first Second", "fourth", ""] {
            let (done, progress) = service
                .try_auth(&alice(), "DEVICE", &token(supplied, None), &fallback, &file_found(file))
                .unwrap();
            assert!(!done);
            assert_eq!(progress.auth_error, Some(wrong_token()));
        }
        let (done, _) = service
            .try_auth(&alice(), "DEVICE", &token("fixed-token", None), &fallback, &file_found(file))
            .unwrap();
        assert_eq!(done, fixed.is_some());
    }
}

#[test]
fn read_tokens_lists_the_file_then_the_configured_token() {
    let service = engine();
    assert_eq!(service.read_tokens(None), vec!["fixed-token"]);
    assert_eq!(service.read_tokens(Some("")), vec!["fixed-token"]);
    assert_eq!(service.read_tokens(Some(" a\nb  a ")), vec!["a", "b", "a", "fixed-token"]);
    let bare = Service::build("example.org".to_owned(), None).unwrap();
    assert_eq!(bare.read_tokens(None), Vec::<String>::new());
    assert_eq!(bare.read_tokens(Some("x y")), vec!["x", "y"]);
    let spaced =
        Service::build("example.org".to_owned(), Some(" padded ".to_owned())).unwrap();
    assert_eq!(spaced.read_tokens(Some("x")), vec!["x", " padded "]);
}

#[test]
fn requests_are_looked_up_under_the_exact_device() {
    let mut service = engine();
    let info = with_session(flows(vec![vec![AuthType::Dummy]]), "s1");
    service.create(&alice(), "DEVICE", &info, &payload("with device"));
    assert_eq!(
        service.get_uiaa_request(&alice(), Some("DEVICE"), "s1"),
        Some(payload("with device"))
    );
    assert_eq!(service.get_uiaa_request(&alice(), None, "s1"), None);
    assert_eq!(service.get_uiaa_request(&alice(), Some(""), "s1"), None);
    assert_eq!(service.get_uiaa_request(&alice(), Some("OTHER"), "s1"), None);
    assert_eq!(service.get_uiaa_request(&bob(), Some("DEVICE"), "s1"), None);
    assert_eq!(service.get_uiaa_request(&alice(), Some("DEVICE"), "s2"), None);

    service.create(&alice(), "", &info, &payload("without device"));
    assert_eq!(service.get_uiaa_request(&alice(), None, "s1"), Some(payload("without device")));
    assert_eq!(service.get_uiaa_request(&alice(), Some(""), "s1"), Some(payload("without device")));
    assert_eq!(
        service.get_uiaa_request(&alice(), Some("DEVICE"), "s1"),
        Some(payload("with device"))
    );
}

#[test]
fn create_replaces_what_was_filed_under_the_key() {
    let mut service = engine();
    let first = with_session(flows(vec![vec![AuthType::Dummy]]), "s1");
    let second = with_session(flows(vec![vec![AuthType::Password]]), "s1");
    service.create(&alice(), "DEVICE", &first, &payload("one"));
    service.create(&alice(), "DEVICE", &second, &payload("two"));
    assert_eq!(service.get_uiaa_session(&alice(), "DEVICE", "s1"), Ok(second));
    assert_eq!(service.get_uiaa_request(&alice(), Some("DEVICE"), "s1"), Some(payload("two")));
}

#[test]
fn update_uiaa_session_files_and_drops() {
    let mut service = engine();
    let info = with_session(flows(vec![vec![AuthType::Dummy]]), "s1");
    service.update_uiaa_session(&alice(), "DEVICE", "s1", Some(&info));
    assert_eq!(service.get_uiaa_session(&alice(), "DEVICE", "s1"), Ok(info));
    service.update_uiaa_session(&alice(), "DEVICE", "s2", None);
    assert!(service.get_uiaa_session(&alice(), "DEVICE", "s1").is_ok());
    service.update_uiaa_session(&alice(), "DEVICE", "s1", None);
    assert_eq!(service.get_uiaa_session(&alice(), "DEVICE", "s1"), Err(Error::SessionNotFound));
}

#[test]
fn set_uiaa_request_files_a_structured_payload() {
    let mut service = engine();
    let mut object = std::collections::BTreeMap::new();
    object.insert("new_password".to_owned(), payload("hunter2"));
    object.insert("logout_devices".to_owned(), CanonicalJsonValue::Bool(true));
    let body = CanonicalJsonValue::Object(object);
    service.set_uiaa_request(&alice(), "DEVICE", "s1", &body);
    assert_eq!(service.get_uiaa_request(&alice(), Some("DEVICE"), "s1"), Some(body));
}

#[test]
fn verifiers_rule_on_their_own() {
    let caller = alice();
    let name = Some(UserIdentifier::UserIdOrLocalpart("alice".to_owned()));
    assert_eq!(
        verify_password(&caller, &name, &Some(alice()), PasswordCheck::Matches),
        Ok(Outcome::Completed(AuthType::Password))
    );
    assert_eq!(
        verify_password(&caller, &name, &Some(alice()), PasswordCheck::Mismatch),
        Ok(Outcome::Rejected(wrong_password()))
    );
    assert_eq!(
        verify_password(&caller, &name, &Some(alice()), PasswordCheck::NoHash),
        Ok(Outcome::Ignored)
    );
    assert_eq!(
        verify_password(&caller, &name, &Some(bob()), PasswordCheck::Matches),
        Err(Error::UserMismatch)
    );
    assert_eq!(
        verify_password(&caller, &name, &None, PasswordCheck::Matches),
        Err(Error::InvalidUserId)
    );
    assert_eq!(
        verify_password(&caller, &None, &Some(alice()), PasswordCheck::Matches),
        Err(Error::UnrecognizedIdentifier)
    );
    let elsewhere = UserId::new("alice".to_owned(), "elsewhere.org".to_owned());
    assert_eq!(
        verify_password(&caller, &name, &Some(elsewhere), PasswordCheck::Matches),
        Ok(Outcome::Completed(AuthType::Password))
    );
    assert_eq!(
        verify_stage(&caller, &dummy(None), &None, PasswordCheck::Mismatch, &vec![]),
        Ok(Outcome::Completed(AuthType::Dummy))
    );
    assert_eq!(
        verify_stage(
            &caller,
            &AuthData::Unsupported { kind: "m.login.sso".to_owned(), session: None },
            &None,
            PasswordCheck::Matches,
            &vec![]
        ),
        Ok(Outcome::Ignored)
    );
    assert_eq!(
        verify_stage(&caller, &token("t", None), &None, PasswordCheck::Matches, &vec!["t".to_owned()]),
        Ok(Outcome::Completed(AuthType::RegistrationToken))
    );
}

#[test]
fn open_starts_from_the_stored_record_or_the_given_one() {
    let mut service = engine();
    let stored = with_session(flows(vec![vec![AuthType::Dummy, AuthType::Password]]), "s1");
    service.create(&alice(), "DEVICE", &stored, &payload("p"));
    let given = flows(vec![vec![AuthType::RegistrationToken]]);
    assert_eq!(service.open(&alice(), "DEVICE", &dummy(Some("s1")), &given), Ok(stored));
    assert_eq!(service.open(&alice(), "DEVICE", &dummy(None), &given), Ok(given.clone()));
    assert_eq!(
        service.open(&alice(), "DEVICE", &dummy(Some("s2")), &given),
        Err(Error::SessionNotFound)
    );
}

#[test]
fn rule_reads_only_the_evidence_of_its_stage() {
    let service = engine();
    let both = Evidence { password: PasswordCheck::Mismatch, token_file: Some("filed".to_owned()) };
    assert_eq!(
        service.rule(&alice(), &password("alice", None), &Some(alice()), &both),
        Ok(Outcome::Rejected(wrong_password()))
    );
    assert_eq!(
        service.rule(&alice(), &token("filed", None), &None, &both),
        Ok(Outcome::Completed(AuthType::RegistrationToken))
    );
    assert_eq!(
        service.rule(&alice(), &token("fixed-token", None), &None, &both),
        Ok(Outcome::Completed(AuthType::RegistrationToken))
    );
    assert_eq!(
        service.rule(&alice(), &token("other", None), &None, &both),
        Ok(Outcome::Rejected(wrong_token()))
    );
    assert_eq!(
        service.rule(&alice(), &dummy(None), &None, &both),
        Ok(Outcome::Completed(AuthType::Dummy))
    );
    assert_eq!(
        service.rule(&alice(), &password("alice", None), &None, &both),
        Err(Error::InvalidUserId)
    );
}

#[test]
fn record_applies_a_ruling_to_the_progress() {
    let mut info = with_session(flows(vec![vec![AuthType::Password]]), "s1");
    info.record(Outcome::Rejected(wrong_password()));
    assert_eq!(info.completed, vec![]);
    assert_eq!(info.auth_error, Some(wrong_password()));
    info.record(Outcome::Ignored);
    assert_eq!(info.auth_error, Some(wrong_password()));
    info.record(Outcome::Completed(AuthType::Dummy));
    assert_eq!(info.completed, vec![AuthType::Dummy]);
    assert_eq!(info.auth_error, None);
    info.record(Outcome::Completed(AuthType::Password));
    info.record(Outcome::Completed(AuthType::Dummy));
    assert_eq!(info.completed, vec![AuthType::Dummy, AuthType::Password]);
    assert_eq!(info.session, Some("s1".to_owned()));
    assert_eq!(info.flows, flows(vec![vec![AuthType::Password]]).flows);
}

#[test]
fn conclude_files_or_drops_the_progress() {
    let mut service = engine();
    let info = with_session(flows(vec![vec![AuthType::Password, AuthType::Dummy]]), "s1");
    let (done, progress) =
        service.conclude(&alice(), "DEVICE", info, Outcome::Completed(AuthType::Dummy));
    assert!(!done);
    assert_eq!(progress.completed, vec![AuthType::Dummy]);
    assert_eq!(service.get_uiaa_session(&alice(), "DEVICE", "s1"), Ok(progress.clone()));
    let (done, progress) =
        service.conclude(&alice(), "DEVICE", progress, Outcome::Rejected(wrong_password()));
    assert!(!done);
    assert_eq!(service.get_uiaa_session(&alice(), "DEVICE", "s1"), Ok(progress.clone()));
    let (done, progress) =
        service.conclude(&alice(), "DEVICE", progress, Outcome::Completed(AuthType::Password));
    assert!(done);
    assert_eq!(progress.completed, vec![AuthType::Dummy, AuthType::Password]);
    assert_eq!(progress.auth_error, None);
    assert_eq!(service.get_uiaa_session(&alice(), "DEVICE", "s1"), Err(Error::SessionNotFound));
}

#[test]
fn errors_carry_their_class_and_text() {
    assert_eq!(Error::UnrecognizedIdentifier.kind(), ErrorKind::Unrecognized);
    assert_eq!(Error::UnrecognizedIdentifier.message(), "Identifier type not recognized.");
    assert_eq!(Error::InvalidUserId.kind(), ErrorKind::InvalidParam);
    assert_eq!(Error::InvalidUserId.message(), "User ID is invalid.");
    assert_eq!(Error::UserMismatch.kind(), ErrorKind::Forbidden);
    assert_eq!(Error::UserMismatch.message(), "User ID and access token mismatch.");
    assert_eq!(Error::SessionNotFound.kind(), ErrorKind::Forbidden);
    assert_eq!(Error::SessionNotFound.message(), "UIAA session does not exist.");
}

#[test]
fn proofs_tell_their_session_stage_and_user_name() {
    let p = password("alice", Some("s1"));
    assert_eq!(p.session(), Some("s1"));
    assert_eq!(p.auth_type(), AuthType::Password);
    assert_eq!(p.username(), Some("alice"));
    let t = token("x", None);
    assert_eq!(t.session(), None);
    assert_eq!(t.auth_type(), AuthType::RegistrationToken);
    assert_eq!(t.username(), None);
    assert_eq!(dummy(Some("d")).session(), Some("d"));
    assert_eq!(dummy(None).auth_type(), AuthType::Dummy);
    let u = AuthData::Unsupported { kind: "m.login.sso".to_owned(), session: Some("u".to_owned()) };
    assert_eq!(u.session(), Some("u"));
    assert_eq!(u.auth_type(), AuthType::Unsupported("m.login.sso".to_owned()));
    let third = AuthData::Password {
        identifier: Some(UserIdentifier::ThirdParty),
        password: String::new(),
        session: None,
    };
    assert_eq!(third.username(), None);
}

#[test]
fn engines_are_independent() {
    let mut one = engine();
    let two = engine();
    let info = with_session(flows(vec![vec![AuthType::Dummy]]), "s1");
    one.create(&alice(), "DEVICE", &info, &payload("p"));
    assert_eq!(two.get_uiaa_session(&alice(), "DEVICE", "s1"), Err(Error::SessionNotFound));
    assert_eq!(two.get_uiaa_request(&alice(), Some("DEVICE"), "s1"), None);
}
