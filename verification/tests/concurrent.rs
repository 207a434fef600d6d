use std::sync::Arc;

use project_list::error::{CommandError, ErrorKind};
use project_list::executor::{complete_fetch, join_outcomes};
use project_list::progress::{progress_decision, ProgressAction};
use project_list::signal::CompletionSignal;

fn runtime() -> tokio::runtime::Runtime {
    tokio::runtime::Builder::new_current_thread().build().unwrap()
}

async fn run_pair(
    fetched: Result<Vec<String>, CommandError>,
) -> Result<Vec<String>, CommandError> {
    let signal = Arc::new(tokio::sync::Mutex::new(CompletionSignal::new()));
    let fetch_signal = signal.clone();
    let fetch_task = tokio::spawn(async move {
        tokio::task::yield_now().await;
        let mut guard = fetch_signal.lock().await;
        complete_fetch(&mut guard, fetched)
    });
    let progress_signal = signal.clone();
    let progress_task = tokio::spawn(async move {
        let mut polls: usize = 0;
        loop {
            let done = { progress_signal.lock().await.is_set() };
            match progress_decision(done) {
                ProgressAction::Finalize => break,
                ProgressAction::Redraw => {
                    polls += 1;
                    assert!(polls < 1_000_000, "renderer left polling forever");
                    tokio::task::yield_now().await;
                }
            }
        }
        Ok(())
    });
    let fetch_outcome = fetch_task.await.unwrap();
    let progress_outcome = progress_task.await.unwrap();
    join_outcomes(fetch_outcome, progress_outcome)
}

#[test]
fn renderer_stops_and_the_collection_comes_through() {
    let joined = runtime().block_on(run_pair(Ok(vec![
        "proj-a".to_owned(),
        "proj-b".to_owned(),
    ])));
    assert_eq!(joined.unwrap(), vec!["proj-a".to_owned(), "proj-b".to_owned()]);
}

#[test]
fn renderer_stops_when_the_fetch_fails_mid_flight() {
    let joined = runtime().block_on(run_pair(Err(CommandError::new(
        ErrorKind::RemoteFailure,
        "connection lost".to_owned(),
    ))));
    let err = joined.unwrap_err();
    assert_eq!(err.kind, ErrorKind::RemoteFailure);
    assert_eq!(err.message, "connection lost");
}
