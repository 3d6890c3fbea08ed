use command_channel::channel::{Channel, ChannelClosed};
use command_channel::download::{checked_total, download, DownloadSession, Phase};
use command_channel::event::DownloadEvent;

fn started(url: &str, session_id: u64, content_length: u64) -> DownloadEvent {
    DownloadEvent::Started { url: url.to_string(), session_id, content_length }
}

fn progress(session_id: u64, chunk_length: u64) -> DownloadEvent {
    DownloadEvent::Progress { session_id, chunk_length }
}

fn finished(session_id: u64) -> DownloadEvent {
    DownloadEvent::Finished { session_id }
}

fn chunk_sum(events: &[DownloadEvent]) -> u64 {
    let mut sum = 0;
    for event in events {
        if let DownloadEvent::Progress { chunk_length, .. } = event {
            sum += chunk_length;
        }
    }
    sum
}

fn assert_completed(events: &[DownloadEvent], session_id: u64) {
    assert!(events.len() >= 2);
    let content_length = match &events[0] {
        DownloadEvent::Started { session_id: id, content_length, .. } => {
            assert_eq!(*id, session_id);
            *content_length
        }
        other => panic!("first event is {:?}", other),
    };
    for event in &events[1..events.len() - 1] {
        assert!(matches!(event, DownloadEvent::Progress { session_id: id, .. } if *id == session_id));
    }
    assert_eq!(events[events.len() - 1], finished(session_id));
    assert_eq!(chunk_sum(events), content_length);
}

#[test]
fn download_emits_the_simulated_lifecycle_in_order() {
    let mut channel = Channel::open();
    let outcome = download("http://example/file".to_string(), 1, &mut channel);
    assert_eq!(outcome, Ok(()));
    let events = channel.drain();
    assert_eq!(
        events,
        vec![
            started("http://example/file", 1, 1000),
            progress(1, 15),
            progress(1, 150),
            progress(1, 35),
            progress(1, 500),
            progress(1, 300),
            finished(1),
        ]
    );
    assert_eq!(chunk_sum(&events), 1000);
}

#[test]
fn download_accepts_an_empty_url() {
    let mut channel = Channel::open();
    assert_eq!(download(String::new(), 9, &mut channel), Ok(()));
    let events = channel.drain();
    assert_eq!(events.len(), 7);
    assert_eq!(events[0], started("", 9, 1000));
    assert_completed(&events, 9);
}

#[test]
fn download_appends_after_what_the_channel_held() {
    let mut channel = Channel::open();
    assert_eq!(channel.send(finished(77)), Ok(()));
    assert_eq!(download("a".to_string(), 2, &mut channel), Ok(()));
    let events = channel.drain();
    assert_eq!(events.len(), 8);
    assert_eq!(events[0], finished(77));
    assert_completed(&events[1..], 2);
}

#[test]
fn download_on_a_closed_channel_reports_channel_closed() {
    let mut channel = Channel::open();
    channel.close();
    assert_eq!(download("http://example/file".to_string(), 1, &mut channel), Err(ChannelClosed));
    assert_eq!(channel.pending_len(), 0);
    assert!(channel.is_closed());
}

#[test]
fn completed_sessions_are_started_progress_finished() {
    let plans: Vec<Vec<u64>> = vec![vec![], vec![0], vec![7], vec![1, 2, 3], vec![u64::MAX - 1, 1]];
    for (i, chunks) in plans.into_iter().enumerate() {
        let id = 10 + i as u64;
        let expected: u64 = chunks.iter().sum();
        let mut session = DownloadSession::new("u".to_string(), id, chunks.clone()).unwrap();
        let mut channel = Channel::open();
        assert_eq!(session.run(&mut channel), Ok(()));
        assert_eq!(session.phase(), Phase::Finished);
        assert_eq!(session.bytes_delivered(), expected);
        assert_eq!(session.content_length(), expected);
        let events = channel.drain();
        assert_eq!(events.len(), chunks.len() + 2);
        assert_eq!(events[0], started("u", id, expected));
        assert_completed(&events, id);
    }
}

#[test]
fn session_without_chunks_goes_from_started_to_finished() {
    let mut session = DownloadSession::new("u".to_string(), 4, vec![]).unwrap();
    let mut channel = Channel::open();
    assert_eq!(session.phase(), Phase::Idle);
    assert_eq!(session.step(&mut channel), Ok(Phase::Started));
    assert_eq!(session.step(&mut channel), Ok(Phase::Finished));
    assert_eq!(channel.drain(), vec![started("u", 4, 0), finished(4)]);
}

#[test]
fn session_walks_through_its_phases() {
    let mut session = DownloadSession::new("u".to_string(), 5, vec![10, 20]).unwrap();
    let mut channel = Channel::open();
    assert_eq!(session.phase(), Phase::Idle);
    assert!(!session.is_terminal());
    assert_eq!(session.bytes_delivered(), 0);
    assert_eq!(session.next_event(), Some(started("u", 5, 30)));

    assert_eq!(session.step(&mut channel), Ok(Phase::Started));
    assert_eq!(session.bytes_delivered(), 0);
    assert_eq!(session.next_event(), Some(progress(5, 10)));

    assert_eq!(session.step(&mut channel), Ok(Phase::Progressing));
    assert_eq!(session.bytes_delivered(), 10);

    assert_eq!(session.step(&mut channel), Ok(Phase::Progressing));
    assert_eq!(session.bytes_delivered(), 30);
    assert_eq!(session.next_event(), Some(finished(5)));

    assert_eq!(session.step(&mut channel), Ok(Phase::Finished));
    assert!(session.is_terminal());
    assert_eq!(session.next_event(), None);
    assert_eq!(session.bytes_delivered(), 30);

    assert_eq!(session.step(&mut channel), Ok(Phase::Finished));
    assert_eq!(
        channel.drain(),
        vec![started("u", 5, 30), progress(5, 10), progress(5, 20), finished(5)]
    );
}

#[test]
fn closing_after_started_stops_the_session_without_further_events() {
    let mut session = DownloadSession::simulated("http://example/file".to_string(), 1);
    let mut channel = Channel::open();
    assert_eq!(session.step(&mut channel), Ok(Phase::Started));
    channel.close();

    assert_eq!(session.step(&mut channel), Err(ChannelClosed));
    assert_eq!(session.phase(), Phase::Aborted);
    assert!(session.is_terminal());
    assert_eq!(session.next_event(), None);

    assert_eq!(session.step(&mut channel), Err(ChannelClosed));
    assert_eq!(session.run(&mut channel), Err(ChannelClosed));
    assert_eq!(channel.drain(), vec![started("http://example/file", 1, 1000)]);
}

#[test]
fn closing_midway_keeps_what_was_delivered() {
    let mut session = DownloadSession::simulated("f".to_string(), 3);
    let mut channel = Channel::open();
    for _ in 0..3 {
        assert!(session.step(&mut channel).is_ok());
    }
    channel.close();
    assert_eq!(session.run(&mut channel), Err(ChannelClosed));
    assert_eq!(session.phase(), Phase::Aborted);
    assert_eq!(session.bytes_delivered(), 165);
    assert!(session.bytes_delivered() <= session.content_length());
    assert_eq!(channel.drain(), vec![started("f", 3, 1000), progress(3, 15), progress(3, 150)]);
}

#[test]
fn run_resumes_from_where_the_session_stands() {
    let mut session = DownloadSession::new("u".to_string(), 8, vec![1, 2]).unwrap();
    let mut first = Channel::open();
    assert_eq!(session.step(&mut first), Ok(Phase::Started));
    assert_eq!(session.step(&mut first), Ok(Phase::Progressing));
    let mut second = Channel::open();
    assert_eq!(session.run(&mut second), Ok(()));
    assert_eq!(second.drain(), vec![progress(8, 2), finished(8)]);
}

#[test]
fn finished_session_runs_on_a_closed_channel_without_failure() {
    let mut session = DownloadSession::new("u".to_string(), 8, vec![1]).unwrap();
    let mut channel = Channel::open();
    assert_eq!(session.run(&mut channel), Ok(()));
    channel.close();
    assert_eq!(session.run(&mut channel), Ok(()));
    assert_eq!(session.step(&mut channel), Ok(Phase::Finished));
    session.abort();
    assert_eq!(session.phase(), Phase::Finished);
    assert_eq!(channel.pending_len(), 3);
}

#[test]
fn driver_reports_drive_the_state_machine() {
    let mut session = DownloadSession::new("u".to_string(), 6, vec![5]).unwrap();
    assert_eq!(session.next_event(), Some(started("u", 6, 5)));
    assert_eq!(session.next_event(), Some(started("u", 6, 5)));
    session.advance();
    assert_eq!(session.phase(), Phase::Started);
    assert_eq!(session.next_event(), Some(progress(6, 5)));
    session.abort();
    assert_eq!(session.phase(), Phase::Aborted);
    assert_eq!(session.next_event(), None);
    session.advance();
    assert_eq!(session.phase(), Phase::Aborted);
    assert_eq!(session.bytes_delivered(), 0);
}

#[test]
fn session_getters_report_the_plan() {
    let session = DownloadSession::simulated("http://example/file".to_string(), 42);
    assert_eq!(session.url(), "http://example/file");
    assert_eq!(session.session_id(), 42);
    assert_eq!(session.content_length(), 1000);
    assert_eq!(session.bytes_delivered(), 0);
    assert_eq!(session.phase(), Phase::Idle);
}

#[test]
fn content_length_that_overflows_is_refused() {
    assert!(DownloadSession::new("u".to_string(), 1, vec![u64::MAX, 1]).is_none());
    assert!(DownloadSession::new("u".to_string(), 1, vec![u64::MAX, 0]).is_some());
    assert_eq!(checked_total(&vec![u64::MAX, 1]), None);
    assert_eq!(checked_total(&vec![u64::MAX]), Some(u64::MAX));
    assert_eq!(checked_total(&vec![15, 150, 35, 500, 300]), Some(1000));
    assert_eq!(checked_total(&vec![]), Some(0));
}

#[test]
fn events_know_their_session_and_tag() {
    assert_eq!(started("u", 3, 9).session_id(), 3);
    assert_eq!(progress(4, 9).session_id(), 4);
    assert_eq!(finished(5).session_id(), 5);
    assert_eq!(started("u", 3, 9).tag(), "started");
    assert_eq!(progress(4, 9).tag(), "progress");
    assert_eq!(finished(5).tag(), "finished");
    let event = started("u", 3, 9);
    assert_eq!(event.clone(), event);
}
