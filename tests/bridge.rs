use atomgg_bridge::{Bridge, BridgeError, Event, Exchange, ReadOutcome};
use serde_json::Value;

/// A stand-in for the worker process: it keeps what was written to it and
/// answers each request line with `{"ok": true, "echo": <request>}`.
struct MockWorker {
    written: Vec<Vec<u8>>,
    pending: Option<String>,
    output_closed: bool,
}

/// Counts launches and hands out mock workers.
struct Launcher {
    spawns: usize,
    output_closed: bool,
    fail_with: Option<String>,
}

impl Launcher {
    fn new() -> Self {
        Launcher { spawns: 0, output_closed: false, fail_with: None }
    }

    fn launch(&mut self) -> Result<MockWorker, String> {
        if let Some(e) = &self.fail_with {
            return Err(e.clone());
        }
        self.spawns += 1;
        Ok(MockWorker { written: Vec::new(), pending: None, output_closed: self.output_closed })
    }
}

impl MockWorker {
    fn write(&mut self, line: &[u8]) -> Result<(), String> {
        self.written.push(line.to_vec());
        let text = std::str::from_utf8(line).map_err(|e| e.to_string())?;
        let request: Value = serde_json::from_str(text.trim_end()).map_err(|e| e.to_string())?;
        let mut answer = serde_json::Map::new();
        answer.insert("ok".to_string(), Value::Bool(true));
        answer.insert("echo".to_string(), request);
        self.pending = Some(format!("{}\n", Value::Object(answer)));
        Ok(())
    }

    fn read_line(&mut self) -> ReadOutcome {
        if self.output_closed {
            return ReadOutcome::Closed;
        }
        match self.pending.take() {
            Some(line) => ReadOutcome::Line(line),
            None => ReadOutcome::Closed,
        }
    }
}

fn send(
    bridge: &mut Bridge<MockWorker>,
    launcher: &mut Launcher,
    msg_type: &str,
    payload: Value,
) -> Result<Value, BridgeError> {
    let mut ex = bridge.begin(msg_type, payload);
    loop {
        let ev = match &ex {
            Exchange::Done(_) => break,
            Exchange::Launch { .. } => Event::Launched(launcher.launch()),
            Exchange::Write { line, .. } => Event::Written(bridge.worker_mut().unwrap().write(line)),
            Exchange::Read { .. } => Event::LineRead(bridge.worker_mut().unwrap().read_line()),
        };
        assert!(bridge.accepts(&ex, &ev));
        ex = bridge.advance(ex, ev);
    }
    match ex {
        Exchange::Done(r) => r,
        _ => unreachable!(),
    }
}

/// Like `send`, and also gives the identifier the bridge assigned.
fn send_tracked(
    bridge: &mut Bridge<MockWorker>,
    launcher: &mut Launcher,
    msg_type: &str,
    payload: Value,
) -> (Option<u64>, Result<Value, BridgeError>) {
    let mut assigned = None;
    let mut ex = bridge.begin(msg_type, payload);
    loop {
        let ev = match &ex {
            Exchange::Done(_) => break,
            Exchange::Launch { .. } => Event::Launched(launcher.launch()),
            Exchange::Write { line, request_id } => {
                assigned = Some(*request_id);
                Event::Written(bridge.worker_mut().unwrap().write(line))
            }
            Exchange::Read { .. } => Event::LineRead(bridge.worker_mut().unwrap().read_line()),
        };
        ex = bridge.advance(ex, ev);
    }
    match ex {
        Exchange::Done(r) => (assigned, r),
        _ => unreachable!(),
    }
}

fn object(pairs: &[(&str, Value)]) -> Value {
    let mut m = serde_json::Map::new();
    for (k, v) in pairs {
        m.insert(k.to_string(), v.clone());
    }
    Value::Object(m)
}

#[test]
fn round_trip_of_third_request() {
    let mut bridge: Bridge<MockWorker> = Bridge::new();
    let mut launcher = Launcher::new();
    send(&mut bridge, &mut launcher, "next_game", object(&[])).unwrap();
    send(&mut bridge, &mut launcher, "pick", object(&[("side", Value::from("BLUE"))])).unwrap();
    let r = send(&mut bridge, &mut launcher, "ban", object(&[("champion", Value::from("Ahri"))]))
        .unwrap();
    let expected: Value = serde_json::from_str(
        r#"{"ok": true, "echo": {"request_id": 3, "type": "ban", "champion": "Ahri"}}"#,
    )
    .unwrap();
    assert_eq!(r, expected);
}

#[test]
fn request_ids_are_one_to_n() {
    let mut bridge: Bridge<MockWorker> = Bridge::new();
    let mut launcher = Launcher::new();
    let mut ids = Vec::new();
    for _ in 0..25 {
        let r = send(&mut bridge, &mut launcher, "suggest", object(&[])).unwrap();
        ids.push(r["echo"]["request_id"].as_u64().unwrap());
    }
    let expected: Vec<u64> = (1..=25).collect();
    assert_eq!(ids, expected);
}

#[test]
fn echoed_id_matches_each_call() {
    let mut bridge: Bridge<MockWorker> = Bridge::new();
    let mut launcher = Launcher::new();
    for n in 1..=10u64 {
        let r = send(&mut bridge, &mut launcher, "roster", object(&[("team", Value::from("T1"))]))
            .unwrap();
        assert_eq!(r["echo"]["request_id"], Value::from(n));
        assert_eq!(r["echo"]["type"], Value::from("roster"));
        assert_eq!(r["echo"]["team"], Value::from("T1"));
    }
    let worker = bridge.worker_mut().unwrap();
    assert_eq!(worker.written.len(), 10);
    assert!(worker.written.iter().all(|l| l.ends_with(b"\n") && l.iter().filter(|b| **b == b'\n').count() == 1));
}

#[test]
fn caller_fields_named_like_the_header_are_overwritten() {
    let mut bridge: Bridge<MockWorker> = Bridge::new();
    let mut launcher = Launcher::new();
    let payload = object(&[("request_id", Value::from(99)), ("type", Value::from("other"))]);
    let r = send(&mut bridge, &mut launcher, "pick", payload).unwrap();
    assert_eq!(r["echo"]["request_id"], Value::from(1));
    assert_eq!(r["echo"]["type"], Value::from("pick"));
}

#[test]
fn many_start_requests_spawn_once() {
    let mut bridge: Bridge<MockWorker> = Bridge::new();
    let mut launcher = Launcher::new();
    let mut claims = 0;
    for _ in 0..8 {
        if bridge.claim_launch() {
            claims += 1;
            bridge.complete_launch(launcher.launch()).unwrap();
        }
    }
    for _ in 0..5 {
        send(&mut bridge, &mut launcher, "init", object(&[])).unwrap();
    }
    assert_eq!(claims, 1);
    assert_eq!(launcher.spawns, 1);
    assert!(bridge.is_running_now());
}

#[test]
fn second_claim_while_starting_is_refused() {
    let mut bridge: Bridge<MockWorker> = Bridge::new();
    assert!(bridge.claim_launch());
    assert!(bridge.is_starting_now());
    assert!(!bridge.claim_launch());
    let mut launcher = Launcher::new();
    let r = send(&mut bridge, &mut launcher, "init", object(&[]));
    assert!(matches!(r, Err(BridgeError::Launch(_))));
    assert_eq!(launcher.spawns, 0);
}

#[test]
fn non_object_payload_is_refused_before_launch() {
    let mut bridge: Bridge<MockWorker> = Bridge::new();
    let mut launcher = Launcher::new();
    for payload in [Value::from(5), Value::from("x"), Value::Null, Value::Array(vec![])] {
        let r = send(&mut bridge, &mut launcher, "ban", payload);
        assert!(matches!(r, Err(BridgeError::Protocol(_))));
    }
    assert_eq!(launcher.spawns, 0);
    assert!(!bridge.is_running_now());
    assert!(!bridge.is_starting_now());
    let r = send(&mut bridge, &mut launcher, "ban", object(&[])).unwrap();
    assert_eq!(r["echo"]["request_id"], Value::from(1));
}

#[test]
fn closed_output_fails_every_call_without_restart() {
    let mut bridge: Bridge<MockWorker> = Bridge::new();
    let mut launcher = Launcher::new();
    launcher.output_closed = true;
    let first = send(&mut bridge, &mut launcher, "init", object(&[]));
    assert!(matches!(first, Err(BridgeError::Io(_))));
    let second = send(&mut bridge, &mut launcher, "init", object(&[]));
    assert!(matches!(second, Err(BridgeError::Io(_))));
    assert_eq!(launcher.spawns, 1);
    assert!(bridge.is_running_now());
}

#[test]
fn failed_launch_reports_and_allows_retry() {
    let mut bridge: Bridge<MockWorker> = Bridge::new();
    let mut launcher = Launcher::new();
    launcher.fail_with = Some("worker executable not found".to_string());
    let r = send(&mut bridge, &mut launcher, "init", object(&[]));
    assert_eq!(r, Err(BridgeError::Launch("worker executable not found".to_string())));
    assert!(!bridge.is_running_now());
    assert!(!bridge.is_starting_now());
    launcher.fail_with = None;
    let r = send(&mut bridge, &mut launcher, "init", object(&[])).unwrap();
    assert_eq!(r["echo"]["request_id"], Value::from(1));
    assert_eq!(launcher.spawns, 1);
}

#[test]
fn write_failure_is_io_error() {
    let mut bridge: Bridge<MockWorker> = Bridge::new();
    let mut launcher = Launcher::new();
    let ex = bridge.begin("pick", object(&[]));
    let ex = bridge.advance(ex, Event::Launched(launcher.launch()));
    let request_id = match &ex {
        Exchange::Write { request_id, .. } => *request_id,
        _ => panic!("expected a write"),
    };
    assert_eq!(request_id, 1);
    let done = bridge.advance(ex, Event::Written(Err("broken pipe".to_string())));
    assert!(matches!(done, Exchange::Done(Err(BridgeError::Io(ref e))) if e == "broken pipe"));
    assert!(bridge.is_running_now());
}

#[test]
fn read_after_write_keeps_the_request_id() {
    let mut bridge: Bridge<MockWorker> = Bridge::new();
    let mut launcher = Launcher::new();
    send(&mut bridge, &mut launcher, "init", object(&[])).unwrap();
    let ex = bridge.begin("pick", object(&[]));
    let ex = match ex {
        Exchange::Write { request_id, line } => {
            assert_eq!(request_id, 2);
            let sent: Value = serde_json::from_slice(&line[..line.len() - 1]).unwrap();
            assert_eq!(sent["request_id"], Value::from(2));
            assert_eq!(sent["type"], Value::from("pick"));
            Exchange::Write { request_id, line }
        }
        _ => panic!("expected a write"),
    };
    let ex = bridge.advance(ex, Event::Written(Ok(())));
    assert!(matches!(ex, Exchange::Read { request_id: 2 }));
}

#[test]
fn interleaved_callers_get_their_own_ids() {
    let mut bridge: Bridge<MockWorker> = Bridge::new();
    let mut launcher = Launcher::new();
    let mut seen: Vec<Vec<u64>> = vec![Vec::new(); 8];
    for round in 0..10 {
        for caller in 0..8usize {
            let t = (caller + round) % 8;
            let (id, r) =
                send_tracked(&mut bridge, &mut launcher, "suggest", object(&[("caller", Value::from(t))]));
            let r = r.unwrap();
            let id = id.unwrap();
            assert_eq!(r["echo"]["request_id"], Value::from(id));
            assert_eq!(r["echo"]["caller"], Value::from(t));
            seen[t].push(id);
        }
    }
    let mut all: Vec<u64> = seen.into_iter().flatten().collect();
    all.sort();
    let expected: Vec<u64> = (1..=80).collect();
    assert_eq!(all, expected);
    assert_eq!(launcher.spawns, 1);
}

#[test]
fn second_exchange_is_refused_while_one_is_open() {
    let mut bridge: Bridge<MockWorker> = Bridge::new();
    let mut launcher = Launcher::new();
    send(&mut bridge, &mut launcher, "init", object(&[])).unwrap();
    let open = bridge.begin("pick", object(&[]));
    assert!(matches!(open, Exchange::Write { request_id: 2, .. }));
    let refused = bridge.begin("ban", object(&[]));
    assert!(matches!(refused, Exchange::Done(Err(BridgeError::ExchangeOpen))));
    let ex = bridge.advance(open, Event::Written(Ok(())));
    assert!(matches!(ex, Exchange::Read { request_id: 2 }));
    let done = bridge.advance(ex, Event::LineRead(ReadOutcome::Line("{\"ok\": 1}\n".to_string())));
    assert!(matches!(done, Exchange::Done(Ok(_))));
    let r = send(&mut bridge, &mut launcher, "ban", object(&[])).unwrap();
    assert_eq!(r["echo"]["request_id"], Value::from(3));
}

#[test]
fn advance_requires_an_open_exchange() {
    let mut bridge: Bridge<MockWorker> = Bridge::new();
    let ex = Exchange::Read { request_id: 1 };
    let ev = Event::LineRead(ReadOutcome::Closed);
    assert!(!bridge.accepts(&ex, &ev));
}
