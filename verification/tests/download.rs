use speakly::download::{
    download_failure, http_failure, is_model_complete, verify_model_size, DownloadAction,
    DownloadEvent, DownloadFlow, DownloadStep, ResponseHead, CORRUPT_MODEL_ERROR,
    WHISPER_BASE_SIZE,
};

#[test]
fn model_completeness_is_its_exact_size() {
    assert!(is_model_complete(147_964_211));
    assert!(!is_model_complete(147_964_210));
    assert!(!is_model_complete(0));
    assert!(verify_model_size(WHISPER_BASE_SIZE).is_ok());
}

#[test]
fn corrupt_model_reports_both_sizes() {
    let c = match verify_model_size(1234) {
        Err(c) => c,
        Ok(()) => panic!("a short file must be refused"),
    };
    assert_eq!(c.error, CORRUPT_MODEL_ERROR);
    assert_eq!(
        c.event_message,
        "Modell-Datei beschaedigt (Groesse: 1234 statt 147964211). Bitte erneut versuchen."
    );
}

fn describe(a: &DownloadAction) -> String {
    match a {
        DownloadAction::Request => "request".to_string(),
        DownloadAction::ReadChunk => "read".to_string(),
        DownloadAction::WriteChunk => "write".to_string(),
        DownloadAction::ReportAndReadNext { downloaded, total } => {
            format!("progress:{}/{}", downloaded, total)
        }
        DownloadAction::MeasureFile => "measure".to_string(),
        DownloadAction::Complete => "complete".to_string(),
        DownloadAction::Fail { remove_file, error_event, error } => {
            format!("fail:{}:{:?}:{}", remove_file, error_event, error)
        }
    }
}

fn drive(events: Vec<DownloadEvent>) -> Vec<String> {
    let mut flow = DownloadFlow::start();
    let mut out = Vec::new();
    for ev in events {
        assert!(flow.accepts(&ev));
        out.push(describe(&flow.step(ev)));
    }
    out
}

fn head(success: bool, status: &str, len: Option<u64>) -> DownloadEvent {
    DownloadEvent::Answered(Ok(ResponseHead {
        success,
        status: status.to_string(),
        content_length: len,
    }))
}

#[test]
fn download_counts_chunks_and_checks_the_size() {
    let out = drive(vec![
        DownloadEvent::Prepared(Ok(())),
        head(true, "200 OK", None),
        DownloadEvent::ChunkRead(Some(Ok(100_000_000))),
        DownloadEvent::ChunkWritten(Ok(())),
        DownloadEvent::ChunkRead(Some(Ok(47_964_211))),
        DownloadEvent::ChunkWritten(Ok(())),
        DownloadEvent::ChunkRead(None),
        DownloadEvent::SizeMeasured(WHISPER_BASE_SIZE),
    ]);
    assert_eq!(
        out,
        vec![
            "request",
            "read",
            "write",
            "progress:100000000/147964211",
            "write",
            "progress:147964211/147964211",
            "measure",
            "complete"
        ]
    );
}

#[test]
fn download_failures_remove_the_file() {
    let out = drive(vec![DownloadEvent::Prepared(Err("read-only".to_string()))]);
    assert_eq!(out, vec!["fail:false:Some(\"read-only\"):read-only"]);
    let out = drive(vec![DownloadEvent::Prepared(Ok(())), DownloadEvent::Answered(Err("dns".to_string()))]);
    assert_eq!(
        out,
        vec!["request", "fail:true:Some(\"Netzwerkfehler beim Download: dns\"):Netzwerkfehler beim Download: dns"]
    );
    let out = drive(vec![DownloadEvent::Prepared(Ok(())), head(false, "404 Not Found", Some(9))]);
    assert_eq!(
        out,
        vec!["request", "fail:true:Some(\"Download fehlgeschlagen: HTTP 404 Not Found\"):Download fehlgeschlagen: HTTP 404 Not Found"]
    );
    let out = drive(vec![
        DownloadEvent::Prepared(Ok(())),
        head(true, "200 OK", Some(10)),
        DownloadEvent::ChunkRead(Some(Ok(4))),
        DownloadEvent::ChunkWritten(Ok(())),
        DownloadEvent::ChunkRead(None),
        DownloadEvent::SizeMeasured(4),
    ]);
    assert_eq!(out[3], "progress:4/10");
    assert_eq!(
        out[5],
        "fail:true:Some(\"Modell-Datei beschaedigt (Groesse: 4 statt 147964211). Bitte erneut versuchen.\"):Modell-Datei beschaedigt — Download unvollstaendig"
    );
    let out = drive(vec![
        DownloadEvent::Prepared(Ok(())),
        head(true, "200 OK", None),
        DownloadEvent::ChunkRead(Some(Err("reset".to_string()))),
    ]);
    assert_eq!(
        out[2],
        "fail:true:Some(\"Fehler beim Lesen des Downloads: reset\"):Fehler beim Lesen des Downloads: reset"
    );
    let out = drive(vec![
        DownloadEvent::Prepared(Ok(())),
        head(true, "200 OK", None),
        DownloadEvent::ChunkRead(Some(Ok(1))),
        DownloadEvent::ChunkWritten(Err("disk full".to_string())),
    ]);
    assert_eq!(
        out[3],
        "fail:true:Some(\"Fehler beim Schreiben: disk full\"):Fehler beim Schreiben: disk full"
    );
}

#[test]
fn finished_download_accepts_nothing() {
    let mut flow = DownloadFlow::start();
    assert!(!flow.accepts(&DownloadEvent::SizeMeasured(1)));
    flow.step(DownloadEvent::Prepared(Err("x".to_string())));
    assert!(!flow.accepts(&DownloadEvent::Prepared(Ok(()))));
}

#[test]
fn download_failure_messages() {
    assert_eq!(download_failure(DownloadStep::Request, "dns"), "Netzwerkfehler beim Download: dns");
    assert_eq!(
        download_failure(DownloadStep::ReadChunk, "eof"),
        "Fehler beim Lesen des Downloads: eof"
    );
    assert_eq!(download_failure(DownloadStep::WriteChunk, "disk"), "Fehler beim Schreiben: disk");
    assert_eq!(http_failure("404 Not Found"), "Download fehlgeschlagen: HTTP 404 Not Found");
}
