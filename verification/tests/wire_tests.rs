use spotify_downloader::phase::Phase;
use spotify_downloader::wire::phase_message;
use spotify_downloader::DownloadStateOpts;

#[test]
fn downloading_message_exact_text() {
    let phase = Phase::Downloading {
        file_name: "Song".to_string(),
        downloaded_bytes: 5,
        total_bytes: 10,
    };
    assert_eq!(
        phase_message(&phase),
        "{\"Downloading\":{\"file_name\":\"Song\",\"downloaded_bytes\":5,\"total_bytes\":10}}"
    );
}

#[test]
fn downloading_message_with_zero_counts() {
    let phase = Phase::Downloading {
        file_name: "".to_string(),
        downloaded_bytes: 0,
        total_bytes: 0,
    };
    assert_eq!(
        phase_message(&phase),
        "{\"Downloading\":{\"file_name\":\"\",\"downloaded_bytes\":0,\"total_bytes\":0}}"
    );
}

#[test]
fn downloading_message_with_large_counts() {
    let phase = Phase::Downloading {
        file_name: "S".to_string(),
        downloaded_bytes: 1234567890,
        total_bytes: 90000000000,
    };
    assert_eq!(
        phase_message(&phase),
        "{\"Downloading\":{\"file_name\":\"S\",\"downloaded_bytes\":1234567890,\
         \"total_bytes\":90000000000}}"
    );
}

#[test]
fn stage_messages_exact_text() {
    let encoding = Phase::Encoding { file_name: "Song".to_string() };
    assert_eq!(phase_message(&encoding), "{\"Encoding\":{\"file_name\":\"Song\"}}");
    let writing = Phase::Writing { file_name: "Song".to_string() };
    assert_eq!(phase_message(&writing), "{\"Writing\":{\"file_name\":\"Song\"}}");
    let downloaded = Phase::Downloaded { file_name: "Song".to_string() };
    assert_eq!(phase_message(&downloaded), "{\"Downloaded\":{\"file_name\":\"Song\"}}");
}

#[test]
fn messages_parse_as_json_with_the_right_fields() {
    let phase = Phase::Downloading {
        file_name: "My Song - 0123".to_string(),
        downloaded_bytes: 42,
        total_bytes: 176400,
    };
    let text = phase_message(&phase);
    let value: serde_json::Value = serde_json::from_str(&text).unwrap();
    assert_eq!(value["Downloading"]["file_name"], "My Song - 0123");
    assert_eq!(value["Downloading"]["downloaded_bytes"], 42);
    assert_eq!(value["Downloading"]["total_bytes"], 176400);

    let done = Phase::Downloaded { file_name: "My Song - 0123".to_string() };
    let text = phase_message(&done);
    let value: serde_json::Value = serde_json::from_str(&text).unwrap();
    assert_eq!(value["Downloaded"]["file_name"], "My Song - 0123");
}

#[test]
fn state_options_carry_their_message() {
    let message = DownloadStateOpts::MessageSender("hello".to_string());
    match message {
        DownloadStateOpts::MessageSender(text) => assert_eq!(text, "hello"),
        _ => panic!("expected a message"),
    }
    assert!(matches!(DownloadStateOpts::SocketCloser, DownloadStateOpts::SocketCloser));
    assert!(matches!(
        DownloadStateOpts::ShutdownSignal,
        DownloadStateOpts::ShutdownSignal
    ));
}
