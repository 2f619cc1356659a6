use mordhau_browser::codec::encode_master_query;
use mordhau_browser::crawl::{query, query_machine, step, QueryResult, QueryState};
use mordhau_browser::discovery::{Action, Discovery};
use mordhau_browser::endpoint::Server;
use mordhau_browser::error::{DiscoveryError, ProtocolError, TransportError};
use mordhau_browser::info::{encode_info_query, ServerInfo};
use mordhau_browser::probe::{probe, probe_request, ProbeOutcome};

fn server(d: u8) -> Server {
    Server { a: 10, b: 0, c: 0, d, port: 27015 }
}

fn page(servers: &[Server]) -> Vec<u8> {
    let mut bytes = vec![0xFF, 0xFF, 0xFF, 0xFF, 0x66, 0x0A];
    for s in servers {
        bytes.extend_from_slice(&[s.a, s.b, s.c, s.d]);
        bytes.extend_from_slice(&s.port.to_be_bytes());
    }
    bytes
}

fn info_reply(name: &str) -> Vec<u8> {
    let mut bytes = vec![0xFF, 0xFF, 0xFF, 0xFF, 0x49, 0x11];
    for text in [name, "de_test", "cstrike", "Counter-Strike"].iter() {
        bytes.extend_from_slice(text.as_bytes());
        bytes.push(0);
    }
    bytes.extend_from_slice(&[0x09, 0x96, 12, 32, 3, b'd', b'l', 1, 1]);
    bytes
}

struct Run {
    requests: Vec<Vec<u8>>,
    targets: Vec<Option<u32>>,
    probed: Vec<Server>,
    sink: Vec<ServerInfo>,
    completions: Vec<Result<(), DiscoveryError>>,
}

/// Drives a whole run against a scripted directory and scripted servers.
/// `cancel_at` is the number of crawl steps after which cancellation is asked.
fn run(
    pages: &[Result<Vec<u8>, TransportError>],
    respond: &dyn Fn(&Server) -> Result<Vec<u8>, TransportError>,
    cancel_at: Option<usize>,
) -> Run {
    let mut out = Run {
        requests: vec![],
        targets: vec![],
        probed: vec![],
        sink: vec![],
        completions: vec![],
    };
    let mut discovery = Discovery::new();
    let mut state: QueryState<u32> = QueryState::New;
    let mut waiting: Vec<Server> = vec![];
    let mut steps = 0usize;
    for _ in 0..1000 {
        let cancelled = cancel_at.map_or(false, |n| steps >= n);
        match discovery.next(cancelled) {
            Action::Crawl => {
                let outcome = match state.request() {
                    None => Ok(None),
                    Some(request) => {
                        out.requests.push(request);
                        out.targets.push(state.master().copied());
                        let reply = pages[steps].clone();
                        steps += 1;
                        let from = 7000 + steps as u32;
                        let taken = std::mem::replace(&mut state, QueryState::Done);
                        step(taken, reply.as_ref().map(|b| (from, &b[..])).map_err(|e| *e))
                    }
                };
                if let Some((data, next)) = discovery.crawl_stepped(outcome) {
                    state = next;
                    for s in data {
                        if discovery.start_probe(cancelled) {
                            waiting.push(s);
                        }
                    }
                }
            }
            Action::Await => {
                // The probe started last ends first: arrival is in no fixed order.
                let s = waiting.pop().unwrap();
                out.probed.push(s);
                let reply = respond(&s);
                let outcome = probe(reply.as_ref().map(|b| &b[..]).map_err(|e| *e));
                if let Some(info) = discovery.probe_resolved(outcome) {
                    out.sink.push(info);
                }
            }
            Action::Complete(status) => out.completions.push(status),
            Action::Idle => break,
        }
    }
    assert!(discovery.is_reported());
    assert_eq!(discovery.outstanding(), 0);
    out
}

fn two_pages() -> Vec<Result<Vec<u8>, TransportError>> {
    vec![
        Ok(page(&[server(1), server(2), server(3)])),
        Ok(page(&[server(4), server(5), Server::zero()])),
    ]
}

fn sorted_names(sink: &[ServerInfo]) -> Vec<String> {
    let mut names: Vec<String> = sink.iter().map(|i| i.name.clone()).collect();
    names.sort();
    names
}

#[test]
fn two_pages_and_five_answers_give_five_records() {
    let out = run(&two_pages(), &|s| Ok(info_reply(&format!("srv{}", s.d))), None);
    assert_eq!(out.sink.len(), 5);
    assert_eq!(sorted_names(&out.sink), vec!["srv1", "srv2", "srv3", "srv4", "srv5"]);
    assert_eq!(out.completions, vec![Ok(())]);
    assert_eq!(out.requests.len(), 2);
    assert_eq!(out.requests[0], encode_master_query(&Server::zero()));
    assert_eq!(out.requests[1], encode_master_query(&server(3)));
    assert_eq!(out.targets, vec![None, Some(7001)]);
    assert_eq!(out.probed.len(), 5);
}

#[test]
fn silent_server_is_left_out_and_the_run_still_succeeds() {
    let out = run(
        &two_pages(),
        &|s| if s.d == 4 { Err(TransportError::Timeout) } else { Ok(info_reply(&format!("srv{}", s.d))) },
        None,
    );
    assert_eq!(out.sink.len(), 4);
    assert_eq!(sorted_names(&out.sink), vec!["srv1", "srv2", "srv3", "srv5"]);
    assert_eq!(out.completions, vec![Ok(())]);
    assert_eq!(out.probed.len(), 5);
}

#[test]
fn invalid_first_page_ends_the_run_with_a_protocol_error() {
    let mut bad = page(&[server(1), server(2), server(3)]);
    bad[4] = 0x67;
    let out = run(&[Ok(bad)], &|_| Ok(info_reply("never")), None);
    assert!(out.sink.is_empty());
    assert!(out.probed.is_empty());
    assert_eq!(
        out.completions,
        vec![Err(DiscoveryError::Protocol(ProtocolError::InvalidHeader))]
    );
    assert_eq!(out.requests.len(), 1);
}

#[test]
fn malformed_second_page_keeps_the_first_page_and_reports_the_error() {
    let mut second = page(&[server(4)]);
    second.push(9);
    let pages = vec![Ok(page(&[server(1), server(2)])), Ok(second)];
    let out = run(&pages, &|s| Ok(info_reply(&format!("srv{}", s.d))), None);
    assert_eq!(sorted_names(&out.sink), vec!["srv1", "srv2"]);
    assert_eq!(
        out.completions,
        vec![Err(DiscoveryError::Protocol(ProtocolError::MalformedRecord))]
    );
}

#[test]
fn unreachable_directory_ends_the_run_with_a_transport_error() {
    let out = run(&[Err(TransportError::Timeout)], &|_| Ok(info_reply("never")), None);
    assert!(out.sink.is_empty());
    assert_eq!(out.completions, vec![Err(DiscoveryError::Transport(TransportError::Timeout))]);
    let out = run(&[Err(TransportError::Bind)], &|_| Ok(info_reply("never")), None);
    assert_eq!(out.completions, vec![Err(DiscoveryError::Transport(TransportError::Bind))]);
}

#[test]
fn undecodable_answers_are_dropped_silently() {
    let out = run(
        &two_pages(),
        &|s| match s.d {
            1 => Ok(vec![1, 2, 3]),
            2 => Ok(vec![0xFF, 0xFF, 0xFF, 0xFF, 0x49, 0x11, b'x']),
            3 => Err(TransportError::Io),
            _ => Ok(info_reply(&format!("srv{}", s.d))),
        },
        None,
    );
    assert_eq!(sorted_names(&out.sink), vec!["srv4", "srv5"]);
    assert_eq!(out.completions, vec![Ok(())]);
}

#[test]
fn cancelling_after_the_first_page_stops_the_crawl() {
    let out = run(&two_pages(), &|s| Ok(info_reply(&format!("srv{}", s.d))), Some(1));
    assert_eq!(out.requests.len(), 1);
    assert_eq!(sorted_names(&out.sink), vec!["srv1", "srv2", "srv3"]);
    assert_eq!(out.completions, vec![Ok(())]);
}

#[test]
fn cancelling_before_the_start_does_nothing_and_reports_success() {
    let out = run(&two_pages(), &|_| Ok(info_reply("never")), Some(0));
    assert!(out.requests.is_empty());
    assert!(out.sink.is_empty());
    assert_eq!(out.completions, vec![Ok(())]);
}

#[test]
fn crawl_states_name_their_requests() {
    let new: QueryState<u32> = QueryState::New;
    assert_eq!(new.seed(), Some(Server::zero()));
    assert_eq!(new.request(), Some(b"\x31\xFF0.0.0.0:0\x00\\appid\\629760\x00".to_vec()));
    assert_eq!(new.master(), None);
    assert!(!new.is_done());
    let between = QueryState::Loop { seed: server(9), master: 42u32 };
    assert_eq!(between.seed(), Some(server(9)));
    assert_eq!(between.request(), Some(b"\x31\xFF10.0.0.9:27015\x00\\appid\\629760\x00".to_vec()));
    assert_eq!(between.master(), Some(&42));
    let done: QueryState<u32> = QueryState::Done;
    assert_eq!(done.seed(), None);
    assert_eq!(done.request(), None);
    assert_eq!(done.master(), None);
    assert!(done.is_done());
}

#[test]
fn crawl_follows_the_address_of_each_reply() {
    let open = page(&[server(1), server(2)]);
    let next = query_machine(QueryState::New, 1u32, &open).unwrap().unwrap();
    assert_eq!(next.0, vec![server(1), server(2)]);
    assert_eq!(next.1, QueryState::Loop { seed: server(2), master: 1 });
    let next = query_machine(next.1, 2u32, &page(&[server(3)])).unwrap().unwrap();
    assert_eq!(next.0, vec![server(3)]);
    assert_eq!(next.1, QueryState::Loop { seed: server(3), master: 2 });
    let next = query_machine(next.1, 3u32, &page(&[server(4), Server::zero()])).unwrap().unwrap();
    assert_eq!(next.0, vec![server(4)]);
    assert_eq!(next.1, QueryState::Done);
    assert_eq!(query_machine(next.1, 4u32, &open), Ok(None));
}

#[test]
fn crawl_fails_fast_on_a_bad_page() {
    let state = QueryState::Loop { seed: server(2), master: 1u32 };
    assert_eq!(query_machine(state, 2, &[1, 2, 3]), Err(ProtocolError::InvalidHeader));
    let state: QueryState<u32> = QueryState::New;
    let mut bytes = page(&[server(1)]);
    bytes.pop();
    assert_eq!(query_machine(state, 2, &bytes), Err(ProtocolError::MalformedRecord));
    let state: QueryState<u32> = QueryState::New;
    assert_eq!(
        step(state, Ok((5, &bytes[..]))),
        Err(DiscoveryError::Protocol(ProtocolError::MalformedRecord))
    );
    let state: QueryState<u32> = QueryState::New;
    assert_eq!(
        step(state, Err(TransportError::Io)),
        Err(DiscoveryError::Transport(TransportError::Io))
    );
    let state: QueryState<u32> = QueryState::Done;
    assert_eq!(step(state, Err(TransportError::Io)), Ok(None));
}

#[test]
fn reply_is_judged_as_continue_or_finished() {
    assert_eq!(
        query(8u32, &page(&[server(1), server(2)])),
        Ok(QueryResult::Continue { seed: server(2), master: 8, data: vec![server(1), server(2)] })
    );
    assert_eq!(
        query(8u32, &page(&[server(1), Server::zero()])),
        Ok(QueryResult::Finished { data: vec![server(1)] })
    );
    assert_eq!(query(8u32, &[]), Err(ProtocolError::InvalidHeader));
}

#[test]
fn probe_sends_the_info_query_and_judges_the_exchange() {
    assert_eq!(probe_request(), encode_info_query());
    assert_eq!(probe_request(), b"\xFF\xFF\xFF\xFF\x54Source Engine Query\x00".to_vec());
    match probe(Ok(&info_reply("Arena")[..])) {
        ProbeOutcome::Success(info) => {
            assert_eq!(info.name, "Arena");
            assert_eq!(info.max_players, 32);
        }
        other => panic!("{:?}", other),
    }
    assert_eq!(
        probe(Err(TransportError::Timeout)),
        ProbeOutcome::Failed(DiscoveryError::Transport(TransportError::Timeout))
    );
    assert_eq!(
        probe(Ok(&[0u8, 1, 2][..])),
        ProbeOutcome::Failed(DiscoveryError::Protocol(ProtocolError::InvalidHeader))
    );
    assert_eq!(
        probe(Ok(&[0xFF, 0xFF, 0xFF, 0xFF, 0x49, 0x11, b'a'][..])),
        ProbeOutcome::Failed(DiscoveryError::Protocol(ProtocolError::MalformedRecord))
    );
}

#[test]
fn run_is_reported_once() {
    let mut d = Discovery::new();
    assert_eq!(d.status(), None);
    assert_eq!(d.next(false), Action::Crawl);
    assert!(d.start_probe(false));
    assert!(d.start_probe(false));
    assert_eq!(d.outstanding(), 2);
    assert_eq!(d.next(false), Action::Crawl);
    d.crawl_ended(Err(DiscoveryError::Transport(TransportError::Timeout)));
    d.crawl_ended(Ok(()));
    assert_eq!(d.status(), Some(Err(DiscoveryError::Transport(TransportError::Timeout))));
    assert!(!d.start_probe(false));
    assert_eq!(d.next(false), Action::Await);
    assert_eq!(d.probe_resolved(ProbeOutcome::Failed(DiscoveryError::Transport(TransportError::Io))), None);
    assert_eq!(d.next(true), Action::Await);
    assert!(d.probe_resolved(probe(Ok(&info_reply("last")[..]))).is_some());
    assert!(!d.is_reported());
    assert_eq!(
        d.next(false),
        Action::Complete(Err(DiscoveryError::Transport(TransportError::Timeout)))
    );
    assert!(d.is_reported());
    assert_eq!(d.next(false), Action::Idle);
    assert_eq!(d.next(true), Action::Idle);
}

#[test]
fn step_of_the_crawl_is_recorded() {
    let mut d = Discovery::new();
    let page: Result<Option<(Vec<Server>, QueryState<u32>)>, DiscoveryError> =
        Ok(Some((vec![server(1)], QueryState::Loop { seed: server(1), master: 3 })));
    assert_eq!(
        d.crawl_stepped(page),
        Some((vec![server(1)], QueryState::Loop { seed: server(1), master: 3 }))
    );
    assert_eq!(d.status(), None);
    let end: Result<Option<(Vec<Server>, QueryState<u32>)>, DiscoveryError> = Ok(None);
    assert_eq!(d.crawl_stepped(end), None);
    assert_eq!(d.status(), Some(Ok(())));

    let mut d = Discovery::new();
    let failed: Result<Option<(Vec<Server>, QueryState<u32>)>, DiscoveryError> =
        Err(DiscoveryError::Protocol(ProtocolError::InvalidHeader));
    assert_eq!(d.crawl_stepped(failed), None);
    assert_eq!(d.status(), Some(Err(DiscoveryError::Protocol(ProtocolError::InvalidHeader))));
    assert_eq!(
        d.next(false),
        Action::Complete(Err(DiscoveryError::Protocol(ProtocolError::InvalidHeader)))
    );
}

#[test]
fn cancel_is_remembered_once_seen() {
    let mut d = Discovery::new();
    assert!(d.start_probe(false));
    assert!(!d.start_probe(true));
    assert_eq!(d.status(), Some(Ok(())));
    assert!(!d.start_probe(false));
    assert_eq!(d.outstanding(), 1);
    assert_eq!(d.next(false), Action::Await);
    assert_eq!(d.probe_resolved(ProbeOutcome::Failed(DiscoveryError::Protocol(ProtocolError::InvalidHeader))), None);
    assert_eq!(d.next(false), Action::Complete(Ok(())));
}
