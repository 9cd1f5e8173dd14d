use deepinfra_client_rs::audio_transcription::{
    decode_transcription, AudioTranscriptionError, AudioTranscriptionRequest, FileSource, Upload,
};
use deepinfra_client_rs::client::DeepinfraClient;
use std::future::Future;
use std::path::PathBuf;
use std::time::Duration;
use tokio::io::{AsyncReadExt, AsyncWriteExt};

fn header_end(bytes: &[u8]) -> Option<usize> {
    bytes.windows(4).position(|w| w == b"\r\n\r\n").map(|at| at + 4)
}

fn content_length(head: &str) -> usize {
    for line in head.lines() {
        let lower = line.to_ascii_lowercase();
        if let Some(rest) = lower.strip_prefix("content-length:") {
            return rest.trim().parse().expect("a length");
        }
    }
    0
}

async fn answer_one(listener: tokio::net::TcpListener, answer: String) -> String {
    let (mut stream, _) = listener.accept().await.expect("a connection");
    let mut received = Vec::new();
    let mut chunk = [0u8; 4096];
    loop {
        if let Some(end) = header_end(&received) {
            let head = String::from_utf8_lossy(&received[..end]).into_owned();
            if received.len() >= end + content_length(&head) {
                break;
            }
        }
        let n = stream.read(&mut chunk).await.expect("request bytes");
        if n == 0 {
            break;
        }
        received.extend_from_slice(&chunk[..n]);
    }
    let reply = format!(
        "HTTP/1.1 200 OK\r\ncontent-type: application/json\r\ncontent-length: {}\r\nconnection: close\r\n\r\n{}",
        answer.len(),
        answer
    );
    stream.write_all(reply.as_bytes()).await.expect("the reply");
    stream.shutdown().await.ok();
    String::from_utf8_lossy(&received).into_owned()
}

/// Runs `call` against a server that answers one request with `answer`, and
/// gives back what `call` returned and the request that the server saw, if
/// any reached it.
fn exchange<F, Fut, T>(answer: &str, call: F) -> (T, Option<String>)
where
    F: FnOnce(String) -> Fut,
    Fut: Future<Output = T>,
{
    let runtime = tokio::runtime::Builder::new_current_thread()
        .enable_all()
        .build()
        .expect("a runtime");
    let listener = runtime
        .block_on(tokio::net::TcpListener::bind("127.0.0.1:0"))
        .expect("a local port");
    let url = format!("http://{}/", listener.local_addr().expect("an address"));
    let server = runtime.spawn(answer_one(listener, answer.to_string()));
    let result = runtime.block_on(call(url));
    let seen = runtime.block_on(async {
        match tokio::time::timeout(Duration::from_millis(300), server).await {
            Ok(joined) => Some(joined.expect("the server task")),
            Err(_) => None,
        }
    });
    (result, seen)
}

#[test]
fn a_missing_file_reaches_no_server() {
    let client = DeepinfraClient::new("t").expect("a client");
    let path = PathBuf::from("/nonexistent/clip.wav");
    let request = AudioTranscriptionRequest::new(FileSource::Filepath(path.clone()));
    let (result, seen) = exchange("{\"text\": \"never\"}", |url| async move {
        let form = match request.into_upload(path.exists()) {
            Ok(Upload::Ready(form)) => form,
            Ok(Upload::Streamed { .. }) => panic!("the file does not exist"),
            Err(error) => return Err(error),
        };
        let answer = client
            .http()
            .post(url)
            .multipart(form)
            .send()
            .await
            .expect("an answer");
        decode_transcription(&answer.bytes().await.expect("a body"))
    });
    assert_eq!(
        result,
        Err(AudioTranscriptionError::FileNotFoundError(
            "/nonexistent/clip.wav".to_string()
        ))
    );
    assert_eq!(seen, None);
}
