use deepinfra_client_rs::audio_transcription::{
    append_text_fields, decode_transcription, transcription_result, AudioTranscriptionApiResponse,
    AudioTranscriptionError, AudioTranscriptionRequest, AudioTranscriptionResponse, ErrorDetail,
    ErrorResponse, FileSource, Upload, AUDIO_TRANSCRIPTION_API_URL,
};
use deepinfra_client_rs::json::Json;
use std::path::PathBuf;

fn wire_text(form: reqwest::multipart::Form) -> String {
    let client = reqwest::Client::new();
    let mut request = client
        .post("http://localhost/")
        .multipart(form)
        .build()
        .expect("a request");
    let body = request.body_mut().take().expect("a body");
    let runtime = tokio::runtime::Builder::new_current_thread()
        .build()
        .expect("a runtime");
    let bytes = runtime
        .block_on(http_body_util::BodyExt::collect(body))
        .expect("the whole body")
        .to_bytes();
    String::from_utf8_lossy(&bytes).into_owned()
}

fn position(text: &str, needle: &str) -> usize {
    match text.find(needle) {
        Some(at) => at,
        None => panic!("{:?} is not in {:?}", needle, text),
    }
}

fn bytes_request() -> AudioTranscriptionRequest {
    AudioTranscriptionRequest::new(FileSource::Bytes {
        buffer: b"RIFFdata".to_vec(),
        file_name: "clip.wav".to_string(),
    })
}

fn pair(name: &str, value: &str) -> (String, String) {
    (name.to_string(), value.to_string())
}

#[test]
fn success_body_gives_the_transcript() {
    let result = decode_transcription(b"{\"text\": \"hello\"}");
    assert_eq!(
        result,
        Ok(AudioTranscriptionResponse {
            text: "hello".to_string()
        })
    );
}

#[test]
fn simple_error_body_gives_its_message() {
    let result = decode_transcription(b"{\"detail\": \"bad request\"}");
    assert_eq!(
        result,
        Err(AudioTranscriptionError::ErrorResponse(
            "bad request".to_string()
        ))
    );
}

#[test]
fn detailed_error_body_gives_dotted_location_and_message() {
    let body = b"{\"detail\": [{\"loc\": [\"body\",\"language\"], \"msg\": \"invalid\", \"type\": \"value_error\"}]}";
    assert_eq!(
        decode_transcription(body),
        Err(AudioTranscriptionError::ErrorResponse(
            "body.language: invalid".to_string()
        ))
    );
}

#[test]
fn detailed_errors_are_joined_in_list_order() {
    let body = b"{\"detail\": [
        {\"loc\": [\"body\", \"file\"], \"msg\": \"field required\", \"type\": \"missing\"},
        {\"loc\": [\"body\", \"temperature\"], \"msg\": \"too large\", \"type\": \"value_error\"},
        {\"loc\": [], \"msg\": \"bad\", \"type\": \"x\"}
    ]}";
    assert_eq!(
        decode_transcription(body),
        Err(AudioTranscriptionError::ErrorResponse(
            "body.file: field required, body.temperature: too large, : bad".to_string()
        ))
    );
}

#[test]
fn empty_detail_list_gives_an_empty_message() {
    assert_eq!(
        decode_transcription(b"{\"detail\": []}"),
        Err(AudioTranscriptionError::ErrorResponse(String::new()))
    );
}

#[test]
fn transcript_wins_over_an_error_in_the_same_body() {
    let result = decode_transcription(b"{\"detail\": \"bad\", \"text\": \"ok\"}");
    assert_eq!(
        result,
        Ok(AudioTranscriptionResponse {
            text: "ok".to_string()
        })
    );
}

#[test]
fn text_that_is_no_string_falls_through_to_the_error_shapes() {
    let result = decode_transcription(b"{\"text\": 5, \"detail\": \"bad\"}");
    assert_eq!(
        result,
        Err(AudioTranscriptionError::ErrorResponse("bad".to_string()))
    );
}

#[test]
fn body_of_no_known_shape_is_a_decode_failure() {
    let expected = Err(AudioTranscriptionError::ReqwestError(
        "error decoding response body".to_string(),
    ));
    assert_eq!(decode_transcription(b"{\"other\": 1}"), expected);
    assert_eq!(decode_transcription(b"[\"hello\"]"), expected);
    assert_eq!(decode_transcription(b"{\"detail\": 3}"), expected);
    assert_eq!(decode_transcription(b"{\"detail\": [{\"loc\": [\"a\"], \"msg\": \"m\"}]}"), expected);
    assert_eq!(decode_transcription(b"{\"detail\": [{\"loc\": [1], \"msg\": \"m\", \"type\": \"t\"}]}"), expected);
    assert_eq!(decode_transcription(b"not json"), expected);
    assert_eq!(transcription_result(None), expected);
}

#[test]
fn api_response_is_read_by_shape() {
    let doc = Json::parse(b"{\"detail\": [{\"loc\": [\"q\"], \"msg\": \"m\", \"type\": \"t\"}]}").unwrap();
    let answer = AudioTranscriptionApiResponse::from_json(&doc);
    assert_eq!(
        answer,
        Some(AudioTranscriptionApiResponse::ErrorResponse(
            ErrorResponse::Detailed {
                detail: vec![ErrorDetail {
                    loc: vec!["q".to_string()],
                    msg: "m".to_string(),
                    error_type: "t".to_string(),
                }]
            }
        ))
    );
    assert_eq!(
        answer.unwrap().into_result(),
        Err(AudioTranscriptionError::ErrorResponse("q: m".to_string()))
    );
}

#[test]
fn error_detail_renders_location_colon_message() {
    let detail = ErrorDetail {
        loc: vec!["body".to_string(), "items".to_string(), "0".to_string()],
        msg: "not a number".to_string(),
        error_type: "type_error".to_string(),
    };
    assert_eq!(detail.render(), "body.items.0: not a number");
    let simple = ErrorResponse::Simple {
        detail: "plain".to_string(),
    };
    assert_eq!(simple.message(), "plain");
}

#[test]
fn missing_file_fails_before_anything_is_sent() {
    let path = PathBuf::from("/nonexistent/dir/clip.wav");
    let request = AudioTranscriptionRequest::new(FileSource::Filepath(path.clone()));
    assert!(!path.exists());
    match request.into_upload(path.exists()) {
        Err(AudioTranscriptionError::FileNotFoundError(text)) => {
            assert_eq!(text, "/nonexistent/dir/clip.wav")
        }
        Err(other) => panic!("unexpected error: {:?}", other),
        Ok(_) => panic!("a missing file must fail the request"),
    }
}

#[test]
fn existing_file_is_left_to_be_streamed() {
    let path = PathBuf::from("some/clip.wav");
    let mut request = AudioTranscriptionRequest::new(FileSource::Filepath(path.clone()));
    request.language = Some("en".to_string());
    match request.into_upload(true) {
        Ok(Upload::Streamed { head, path: p, tail }) => {
            assert_eq!(p, path);
            assert_eq!(tail, vec![pair("language", "en")]);
            let text = wire_text(head);
            let model = position(&text, "name=\"model\"");
            let format = position(&text, "name=\"response_format\"");
            assert!(model < format);
            assert!(text.contains("openai/whisper-large-v3-turbo"));
            assert!(!text.contains("name=\"language\""));
            assert!(!text.contains("name=\"file\""));
        }
        Ok(Upload::Ready(_)) => panic!("a file source is streamed"),
        Err(e) => panic!("unexpected error: {:?}", e),
    }
}

#[test]
fn defaults_of_a_new_transcription_request() {
    let request = bytes_request();
    assert_eq!(request.model, "openai/whisper-large-v3-turbo");
    assert_eq!(request.response_format, "json");
    assert_eq!(request.language, None);
    assert_eq!(request.prompt, None);
    assert_eq!(request.temperature, None);
    assert_eq!(request.timestamp_granularities, None);
    assert_eq!(
        request.leading_fields(),
        vec![
            pair("model", "openai/whisper-large-v3-turbo"),
            pair("response_format", "json")
        ]
    );
    assert_eq!(request.trailing_fields(), Vec::<(String, String)>::new());
    assert_eq!(
        AUDIO_TRANSCRIPTION_API_URL,
        "https://api.deepinfra.com/v1/openai/audio/transcriptions"
    );
}

#[test]
fn granularities_are_repeated_fields_in_list_order() {
    let mut request = bytes_request();
    request.timestamp_granularities = Some(vec!["word".to_string(), "segment".to_string()]);
    assert_eq!(
        request.trailing_fields(),
        vec![
            pair("timestamp_granularities[]", "word"),
            pair("timestamp_granularities[]", "segment")
        ]
    );
    let form = match request.into_upload(true) {
        Ok(Upload::Ready(form)) => form,
        _ => panic!("a buffer makes a complete form"),
    };
    let text = wire_text(form);
    assert_eq!(text.matches("name=\"timestamp_granularities[]\"").count(), 2);
    let word = position(&text, "\r\n\r\nword\r\n");
    let segment = position(&text, "\r\n\r\nsegment\r\n");
    assert!(word < segment);
}

#[test]
fn optional_fields_follow_the_file_in_order() {
    let mut request = bytes_request();
    request.language = Some("de".to_string());
    request.prompt = Some("names".to_string());
    request.temperature = Some("0.2".to_string());
    request.timestamp_granularities = Some(vec!["word".to_string()]);
    assert_eq!(
        request.trailing_fields(),
        vec![
            pair("language", "de"),
            pair("prompt", "names"),
            pair("temperature", "0.2"),
            pair("timestamp_granularities[]", "word")
        ]
    );
    let form = match request.into_upload(false) {
        Ok(Upload::Ready(form)) => form,
        _ => panic!("a buffer makes a complete form"),
    };
    let text = wire_text(form);
    let order = [
        position(&text, "name=\"model\""),
        position(&text, "name=\"response_format\""),
        position(&text, "name=\"file\"; filename=\"clip.wav\""),
        position(&text, "RIFFdata"),
        position(&text, "name=\"language\""),
        position(&text, "name=\"prompt\""),
        position(&text, "name=\"temperature\""),
        position(&text, "name=\"timestamp_granularities[]\""),
    ];
    for i in 1..order.len() {
        assert!(order[i - 1] < order[i], "field {} is out of order", i);
    }
    assert!(text.contains("\r\n\r\n0.2\r\n"));
}

#[test]
fn absent_optional_fields_are_not_sent() {
    let form = match bytes_request().into_upload(true) {
        Ok(Upload::Ready(form)) => form,
        _ => panic!("a buffer makes a complete form"),
    };
    let text = wire_text(form);
    assert!(!text.contains("name=\"language\""));
    assert!(!text.contains("name=\"prompt\""));
    assert!(!text.contains("name=\"temperature\""));
    assert!(!text.contains("timestamp_granularities"));
    assert!(text.contains("name=\"file\"; filename=\"clip.wav\""));
}

#[test]
fn append_text_fields_adds_after_what_is_there() {
    let form = reqwest::multipart::Form::new().text("first", "1");
    let form = append_text_fields(form, &vec![pair("second", "2"), pair("third", "3")]);
    let text = wire_text(form);
    let first = position(&text, "name=\"first\"");
    let second = position(&text, "name=\"second\"");
    let third = position(&text, "name=\"third\"");
    assert!(first < second && second < third);
}

#[test]
fn errors_describe_themselves() {
    assert_eq!(
        AudioTranscriptionError::ReqwestError("x".to_string()).describe(),
        "Request error: x"
    );
    assert_eq!(
        AudioTranscriptionError::FileNotFoundError("a.wav".to_string()).describe(),
        "File not found: a.wav"
    );
    assert_eq!(
        AudioTranscriptionError::IoError("denied".to_string()).describe(),
        "IO error: denied"
    );
    assert_eq!(
        AudioTranscriptionError::ErrorResponse("bad".to_string()).describe(),
        "Error response: bad"
    );
}
