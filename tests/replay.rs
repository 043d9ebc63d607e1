use rand::rngs::StdRng;
use rand::{Rng, SeedableRng};
use durable_workflow::abi::{Content, GuestToHost, Header, HostToGuest, Level, Response, Scalar, Version, WorkflowError};
use durable_workflow::effects::{HostError, Severity, Step};
use durable_workflow::guest::{get, http_reply, post, rand as decode_rand};
use durable_workflow::state::State;

fn response(status: u16, url: &str, body: &str) -> Response {
    Response {
        status,
        http_version: Version::HttpOneOne,
        headers: vec![Header { key: "content-type".to_string(), value: "text/plain".to_string() }],
        content_length: Some(body.len() as u64),
        url: url.to_string(),
        body: body.as_bytes().to_vec(),
    }
}

/// Sends one request through the host: replays or performs it with `server`.
fn send(state: &mut State, req: GuestToHost, server: &mut dyn FnMut(&str) -> u16, performed: &mut Vec<String>) -> HostToGuest {
    match state.call(req).unwrap() {
        Step::Reply(m) => m,
        Step::Fetch(r) => {
            performed.push(r.path.clone());
            let status = server(&r.path);
            state.complete(Content::HttpResponse(Ok(response(status, &r.path, "ok"))))
        }
        other => panic!("unexpected step {:?}", other),
    }
}

/// The example workflow: read a location, maybe send an email, update a database.
fn workflow(state: &mut State, server: &mut dyn FnMut(&str) -> u16, performed: &mut Vec<String>) -> Result<(), WorkflowError> {
    let m = send(state, get("http://localhost:3000/iss/now".to_string(), vec![]), server, performed);
    let r = http_reply(m).unwrap().unwrap().error_for_status()?;
    let _ = r.text()?;
    let m = match state.call(GuestToHost::Random(Scalar::BoolType(false))).unwrap() {
        Step::Reply(m) => m,
        other => panic!("unexpected step {:?}", other),
    };
    if decode_rand::<bool>(&m).unwrap() {
        let m = send(state, post("http://localhost:3000/email/send".to_string(), vec![], None), server, performed);
        http_reply(m).unwrap().unwrap().error_for_status()?;
    }
    let m = send(state, post("http://localhost:3000/database/update".to_string(), vec![], None), server, performed);
    http_reply(m).unwrap().unwrap().error_for_status()?;
    Ok(())
}

fn execute(state: &mut State, server: &mut dyn FnMut(&str) -> u16, performed: &mut Vec<String>) -> Result<(), WorkflowError> {
    state.start_execution();
    let outcome = workflow(state, server, performed);
    state.finish_attempt(&outcome);
    outcome
}

fn seeded_rng(seed: u64) -> StdRng {
    StdRng::seed_from_u64(seed)
}

fn current_len(state: &State) -> usize {
    state.execution_at(state.attempts() - 1).len()
}

fn first_bool(seed: u64) -> bool {
    let mut s = State::new(seeded_rng(seed));
    s.start_execution();
    s.draw_bool()
}

#[test]
fn happy_path_single_attempt() {
    let mut state = State::new(seeded_rng(0));
    let mut performed = vec![];
    let mut server = |_: &str| 200u16;
    assert!(execute(&mut state, &mut server, &mut performed).is_ok());
    assert_eq!(state.attempts(), 1);
    let e = state.execution_at(0);
    let took_email = performed.len() == 3;
    assert_eq!(e.len(), if took_email { 4 } else { 3 });
    assert_eq!(e.position(), e.len());
    for k in 0..e.len() {
        assert!(e.entry(k).success());
    }
    assert_eq!(performed[0], "http://localhost:3000/iss/now");
    assert_eq!(performed.last().unwrap(), "http://localhost:3000/database/update");
}

#[test]
fn failed_first_request_is_retried_alone() {
    let mut state = State::new(seeded_rng(1));
    let mut calls = 0;
    let mut performed = vec![];
    let mut server = |path: &str| {
        if path.ends_with("/iss/now") {
            calls += 1;
            if calls == 1 { 500 } else { 200 }
        } else {
            200
        }
    };
    let first = execute(&mut state, &mut server, &mut performed);
    let err = first.unwrap_err();
    assert_eq!(err.error, "Internal Server Error");
    let failed_id = err.id.clone().unwrap();
    let e = state.execution_at(0);
    assert_eq!(e.len(), 1);
    assert!(!e.entry(0).success());
    assert_eq!(e.entry(0).message().id, failed_id);

    assert!(execute(&mut state, &mut server, &mut performed).is_ok());
    assert_eq!(state.attempts(), 2);
    let e = state.execution_at(1);
    assert!(e.entry(0).success());
    assert_ne!(e.entry(0).message().id, failed_id);
    assert_eq!(performed.iter().filter(|p| p.ends_with("/iss/now")).count(), 2);
    let expected = if performed.iter().any(|p| p.ends_with("/email/send")) { 4 } else { 3 };
    assert_eq!(e.len(), expected);
}

#[test]
fn replayed_random_keeps_its_branch() {
    // The database fails once, after the random branch was recorded.
    let mut state = State::new(seeded_rng(7));
    let mut db_calls = 0;
    let mut performed = vec![];
    let mut server = |path: &str| {
        if path.ends_with("/database/update") {
            db_calls += 1;
            if db_calls == 1 { 507 } else { 200 }
        } else {
            200
        }
    };
    assert!(execute(&mut state, &mut server, &mut performed).is_err());
    let branch = match &state.execution_at(0).entry(1).message().content {
        Content::Value(Scalar::BoolType(b)) => *b,
        other => panic!("unexpected {:?}", other),
    };
    let before = performed.len();
    assert!(execute(&mut state, &mut server, &mut performed).is_ok());
    // Only the database update was performed again.
    assert_eq!(performed.len(), before + 1);
    assert_eq!(performed.last().unwrap(), "http://localhost:3000/database/update");
    match &state.execution_at(1).entry(1).message().content {
        Content::Value(Scalar::BoolType(b)) => assert_eq!(*b, branch),
        other => panic!("unexpected {:?}", other),
    }
}

#[test]
fn failure_without_id_leaves_log_as_started() {
    let mut state = State::new(seeded_rng(3));
    let mut performed = vec![];
    let mut server = |_: &str| 200u16;
    state.start_execution();
    let _ = send(&mut state, get("http://localhost:3000/iss/now".to_string(), vec![]), &mut server, &mut performed);
    assert_eq!(current_len(&state), 1);
    let trap = Err(WorkflowError::new(None, "all fuel consumed".to_string()));
    state.finish_attempt(&trap);
    assert_eq!(state.attempts(), 1);
    assert_eq!(current_len(&state), 0);
    assert_eq!(state.execution_at(0).position(), 0);
}

#[test]
fn seeded_runs_converge() {
    for seed in 0..10u64 {
        let mut state = State::new(seeded_rng(seed));
        let mut coin = StdRng::seed_from_u64(1000 + seed);
        let mut performed = vec![];
        let mut server = |_: &str| if coin.gen::<bool>() { 200 } else { 500 };
        let mut attempts = 0;
        let mut last_len = 0;
        loop {
            attempts += 1;
            assert!(attempts < 200);
            let r = execute(&mut state, &mut server, &mut performed);
            let len = current_len(&state);
            assert!(len >= last_len);
            last_len = len;
            if r.is_ok() {
                break;
            }
        }
    }
}

#[test]
fn cursor_advances_by_one_per_effect() {
    let mut state = State::new(seeded_rng(5));
    state.start_execution();
    for k in 0..4usize {
        let before = state.execution_at(0).position();
        assert_eq!(before, k);
        match state.call(GuestToHost::Random(Scalar::I32Type(0))).unwrap() {
            Step::Reply(_) => {}
            other => panic!("unexpected {:?}", other),
        }
        assert_eq!(state.execution_at(0).position(), before + 1);
    }
}

#[test]
fn log_messages_do_not_enter_the_log() {
    let mut state = State::new(seeded_rng(5));
    state.start_execution();
    match state.call(GuestToHost::Log(Level::Warn("careful".to_string()))).unwrap() {
        Step::Print(s, text, m) => {
            assert_eq!(s, Severity::Warn);
            assert_eq!(text, "careful");
            assert!(matches!(m.content, Content::Unit));
        }
        other => panic!("unexpected {:?}", other),
    }
    assert_eq!(state.execution_at(0).position(), 0);
    assert_eq!(state.execution_at(0).len(), 0);
}

#[test]
fn same_seed_gives_same_log_contents() {
    let draw_all = |seed: u64| {
        let mut state = State::new(seeded_rng(seed));
        state.start_execution();
        let mut out = vec![];
        for _ in 0..5 {
            let _ = state.call(GuestToHost::Random(Scalar::BoolType(false))).unwrap();
            let _ = state.call(GuestToHost::Random(Scalar::I32Type(0))).unwrap();
        }
        let e = state.execution_at(0);
        for k in 0..e.len() {
            match &e.entry(k).message().content {
                Content::Value(Scalar::BoolType(b)) => out.push(*b as i64),
                Content::Value(Scalar::I32Type(v)) => out.push(*v as i64),
                other => panic!("unexpected {:?}", other),
            }
        }
        out
    };
    assert_eq!(draw_all(42), draw_all(42));
    assert_eq!(draw_all(42).len(), 10);
    assert_ne!(draw_all(42), draw_all(43));
    assert_eq!(first_bool(9), first_bool(9));
}

#[test]
fn refused_requests() {
    let mut state = State::new(seeded_rng(0));
    state.start_execution();
    assert_eq!(state.call(GuestToHost::Input).unwrap_err(), HostError::InputUnsupported);
    assert_eq!(
        state.call(GuestToHost::Random(Scalar::StringType(String::new()))).unwrap_err(),
        HostError::StringRandomUnsupported
    );
    assert!(matches!(state.call(GuestToHost::Random(Scalar::F32Type(0))).unwrap(), Step::DrawFloat));
    assert_eq!(state.execution_at(0).len(), 0);
}

#[test]
fn time_is_recorded_and_replayed() {
    let mut state = State::new(seeded_rng(0));
    state.start_execution();
    let first = match state.call(GuestToHost::Time).unwrap() {
        Step::Reply(m) => m,
        other => panic!("unexpected {:?}", other),
    };
    let t = match first.content {
        Content::Time(t) => t,
        other => panic!("unexpected {:?}", other),
    };
    assert!(t.tv_sec > 0);
    assert!(t.tv_nsec < 1_000_000_000);
    state.finish_attempt(&Ok(()));
    state.start_execution();
    match state.call(GuestToHost::Time).unwrap() {
        Step::Reply(m) => {
            assert_eq!(m.id, first.id);
            assert!(matches!(m.content, Content::Time(u) if u == t));
        }
        other => panic!("unexpected {:?}", other),
    }
}

#[test]
fn set_failure_marks_only_matching_entries() {
    let mut state = State::new(seeded_rng(2));
    state.start_execution();
    let mut ids = vec![];
    for _ in 0..3 {
        match state.call(GuestToHost::Random(Scalar::BoolType(false))).unwrap() {
            Step::Reply(m) => ids.push(m.id),
            other => panic!("unexpected {:?}", other),
        }
    }
    state.set_failure(&ids[1]);
    let e = state.execution_at(0);
    assert!(e.entry(0).success());
    assert!(!e.entry(1).success());
    assert!(e.entry(2).success());
    assert_eq!(e.len(), 3);
    state.start_execution();
    let _ = state.call(GuestToHost::Random(Scalar::BoolType(false))).unwrap();
    let m = match state.call(GuestToHost::Random(Scalar::BoolType(false))).unwrap() {
        Step::Reply(m) => m,
        other => panic!("unexpected {:?}", other),
    };
    assert_ne!(m.id, ids[1]);
    let m = match state.call(GuestToHost::Random(Scalar::BoolType(false))).unwrap() {
        Step::Reply(m) => m,
        other => panic!("unexpected {:?}", other),
    };
    assert_eq!(m.id, ids[2]);
}

#[test]
fn retrieve_or_else_replays_then_skips_the_closure() {
    let mut state = State::new(seeded_rng(0));
    state.start_execution();
    let r: Result<HostToGuest, String> = state.retrieve_or_else(|| {
        Ok(HostToGuest { id: "a".to_string(), content: Content::Unit })
    });
    assert_eq!(r.unwrap().id, "a");
    let failed: Result<HostToGuest, String> = state.retrieve_or_else(|| Err("down".to_string()));
    assert_eq!(failed.unwrap_err(), "down");
    assert_eq!(state.execution_at(0).position(), 1);
    state.start_execution();
    let again: Result<HostToGuest, String> = state.retrieve_or_else(|| panic!("must not run"));
    assert_eq!(again.unwrap().id, "a");
}
