use base64::prelude::{Engine, BASE64_STANDARD};
use image::codecs::jpeg::JpegEncoder;
use image::{DynamicImage, Rgb, RgbImage};
use image_namer::compress::CompressError;
use image_namer::failure::Failure;
use image_namer::inference::{InferenceResponse, Reply};
use image_namer::pipeline::{
    NamingAction, NamingJob, NamingSession, NamingStage, ProcessingConfig, ProcessingResult,
};
use std::io::Cursor;

fn job(path: &str, context_length: Option<usize>) -> NamingJob {
    NamingJob {
        image_path: path.to_string(),
        prompt: "Name this picture".to_string(),
        config: ProcessingConfig {
            model: "llava".to_string(),
            context_length,
            api_url: "http://localhost:11434/".to_string(),
        },
    }
}

fn decode_base64(text: &str) -> Vec<u8> {
    BASE64_STANDARD.decode(text).unwrap()
}

/// A JPEG of grain, `width` by `height` pixels, at the highest quality.
fn grainy_jpeg(width: u32, height: u32) -> Vec<u8> {
    let mut state: u32 = 0x9E37_79B9;
    let picture = RgbImage::from_fn(width, height, |_, _| {
        state ^= state << 13;
        state ^= state >> 17;
        state ^= state << 5;
        Rgb([state as u8, (state >> 8) as u8, (state >> 16) as u8])
    });
    let mut bytes = Vec::new();
    DynamicImage::ImageRgb8(picture)
        .write_with_encoder(JpegEncoder::new_with_quality(Cursor::new(&mut bytes), 100))
        .unwrap();
    bytes
}

/// A JPEG of more than two megabytes.
fn large_jpeg() -> Vec<u8> {
    grainy_jpeg(1000, 800)
}

fn answer(text: &str) -> Reply<InferenceResponse> {
    Reply::Responded { status: 200, body: Ok(InferenceResponse { response: text.to_string() }) }
}

/// Brings a session to the point where it waits for the reply.
fn awaiting_reply(data: Vec<u8>) -> NamingSession {
    let (mut session, _) = NamingSession::start(job("/pics/car.jpg", Some(4096)));
    session.on_exists(true).unwrap();
    session.on_contents(Ok(data)).unwrap();
    assert_eq!(session.current_stage(), NamingStage::AwaitingReply);
    session
}

#[test]
fn names_a_large_image_end_to_end() {
    let source = large_jpeg();
    assert!(source.len() > 2 * 1024 * 1024, "{}", source.len());
    let (mut session, action) = NamingSession::start(job("/pics/car.jpg", Some(4096)));
    assert!(matches!(action, NamingAction::CheckExists { path } if path == "/pics/car.jpg"));
    let action = session.on_exists(true).unwrap();
    assert!(matches!(action, NamingAction::ReadFile { path } if path == "/pics/car.jpg"));
    match session.on_contents(Ok(source.clone())).unwrap() {
        NamingAction::Post { url, request, compression_failure } => {
            assert!(compression_failure.is_none());
            assert_eq!(url, "http://localhost:11434/api/generate");
            assert_eq!(request.model, "llava");
            assert_eq!(request.prompt, "Name this picture。请只返回文件名，不要包含扩展名和其他说明。");
            assert!(!request.stream);
            assert_eq!(request.images.len(), 1);
            let sent = decode_base64(&request.images[0]);
            assert!(sent.len() <= 1_048_576, "{}", sent.len());
            assert_eq!(&sent[..2], &[0xFF, 0xD8]);
            assert_ne!(sent, source);
        }
        other => panic!("{:?}", other),
    }
    match session.on_reply(answer("A Red Sports Car\n"), 1250).unwrap() {
        NamingAction::Finish { outcome: Ok(result) } => {
            assert_eq!(result.new_name(), "A Red Sports Car");
            assert_eq!(result.processing_time_ms(), 1250);
            assert!(result.processing_time_ms() > 0);
        }
        other => panic!("{:?}", other),
    }
    assert_eq!(session.current_stage(), NamingStage::Finished);
}

#[test]
fn a_placeholder_path_fails_before_anything_is_touched() {
    let (mut session, action) = NamingSession::start(job("blob:1234", None));
    match action {
        NamingAction::Finish { outcome: Err(failure) } => {
            assert!(matches!(failure, Failure::InvalidPath));
            assert!(failure.message().starts_with("当前文件路径无效"));
        }
        other => panic!("{:?}", other),
    }
    assert_eq!(session.current_stage(), NamingStage::Finished);
    assert!(session.on_exists(true).is_none());
    assert!(session.on_contents(Ok(vec![1, 2, 3])).is_none());
    assert!(session.on_reply(answer("x"), 1).is_none());
}

#[test]
fn every_placeholder_prefix_is_refused() {
    for path in ["blob:http://x/1", "dev-1", "browser-file", "temp-upload.png"] {
        let (_, action) = NamingSession::start(job(path, None));
        assert!(matches!(action, NamingAction::Finish { outcome: Err(Failure::InvalidPath) }), "{}", path);
    }
}

#[test]
fn a_missing_file_ends_the_session() {
    let (mut session, _) = NamingSession::start(job("/pics/gone.jpg", None));
    match session.on_exists(false).unwrap() {
        NamingAction::Finish { outcome: Err(Failure::FileNotFound { path }) } => assert_eq!(path, "/pics/gone.jpg"),
        other => panic!("{:?}", other),
    }
    assert_eq!(session.current_stage(), NamingStage::Finished);
    assert!(session.on_contents(Ok(vec![])).is_none());
}

#[test]
fn an_unreadable_file_ends_the_session() {
    let (mut session, _) = NamingSession::start(job("/pics/locked.jpg", None));
    session.on_exists(true).unwrap();
    match session.on_contents(Err("permission denied".to_string())).unwrap() {
        NamingAction::Finish { outcome: Err(Failure::ReadError { path, cause }) } => {
            assert_eq!(path, "/pics/locked.jpg");
            assert_eq!(cause, "permission denied");
        }
        other => panic!("{:?}", other),
    }
    assert_eq!(session.current_stage(), NamingStage::Finished);
}

#[test]
fn a_file_that_is_no_image_is_sent_as_it_is() {
    let (mut session, _) = NamingSession::start(job("/pics/notes.txt", None));
    session.on_exists(true).unwrap();
    match session.on_contents(Ok(b"just text".to_vec())).unwrap() {
        NamingAction::Post { request, compression_failure, .. } => {
            assert_eq!(request.images.len(), 1);
            assert_eq!(decode_base64(&request.images[0]), b"just text");
            assert!(matches!(compression_failure, Some(CompressError::Decode { .. })));
        }
        other => panic!("{:?}", other),
    }
}

#[test]
fn an_image_that_cannot_meet_the_budget_is_sent_as_it_is() {
    let source = grainy_jpeg(160, 120);
    let (mut session, _) = NamingSession::start(job("/pics/car.jpg", Some(1)));
    session.on_exists(true).unwrap();
    match session.on_contents(Ok(source.clone())).unwrap() {
        NamingAction::Post { request, compression_failure, .. } => {
            assert_eq!(decode_base64(&request.images[0]), source);
            let failure = compression_failure.unwrap();
            assert!(matches!(failure, CompressError::BudgetUnmet));
            assert_eq!(failure.message(), "无法将图片压缩到指定大小");
        }
        other => panic!("{:?}", other),
    }
}

#[test]
fn the_answer_is_sanitized() {
    let mut session = awaiting_reply(b"x".to_vec());
    match session.on_reply(answer("  \"beach/sunset: 2024\"  \n"), 7).unwrap() {
        NamingAction::Finish { outcome: Ok(result) } => assert_eq!(result.new_name(), "beach_sunset_ 2024"),
        other => panic!("{:?}", other),
    }
}

#[test]
fn an_answer_without_usable_text_gives_an_empty_name() {
    let mut session = awaiting_reply(b"x".to_vec());
    match session.on_reply(answer("\"\"\n"), 7).unwrap() {
        NamingAction::Finish { outcome: Ok(result) } => assert_eq!(result.new_name(), ""),
        other => panic!("{:?}", other),
    }
}

#[test]
fn a_failed_request_ends_the_session_with_its_failure() {
    let mut session = awaiting_reply(b"x".to_vec());
    let reply = Reply::Unreachable { message: "connection refused".to_string() };
    assert!(matches!(
        session.on_reply(reply, 3).unwrap(),
        NamingAction::Finish { outcome: Err(Failure::NetworkError { message }) } if message == "connection refused"
    ));
    let mut session = awaiting_reply(b"x".to_vec());
    let reply = Reply::Responded { status: 500, body: Err("".to_string()) };
    assert!(matches!(
        session.on_reply(reply, 3).unwrap(),
        NamingAction::Finish { outcome: Err(Failure::ApiError { status: 500 }) }
    ));
    let mut session = awaiting_reply(b"x".to_vec());
    let reply = Reply::Responded { status: 200, body: Err("missing field `response`".to_string()) };
    assert!(matches!(
        session.on_reply(reply, 3).unwrap(),
        NamingAction::Finish { outcome: Err(Failure::ParseError { message }) } if message == "missing field `response`"
    ));
}

#[test]
fn an_answer_that_was_not_asked_for_changes_nothing() {
    let (mut session, _) = NamingSession::start(job("/pics/car.jpg", None));
    assert!(session.on_contents(Ok(vec![1])).is_none());
    assert!(session.on_reply(answer("x"), 1).is_none());
    assert_eq!(session.current_stage(), NamingStage::ConfirmingFile);
    session.on_exists(true).unwrap();
    assert!(session.on_exists(true).is_none());
    assert!(session.on_reply(answer("x"), 1).is_none());
    assert_eq!(session.current_stage(), NamingStage::ReadingFile);
    session.on_contents(Ok(vec![1])).unwrap();
    assert!(session.on_exists(false).is_none());
    assert!(session.on_contents(Err("late".to_string())).is_none());
    assert_eq!(session.current_stage(), NamingStage::AwaitingReply);
    session.on_reply(answer("x"), 1).unwrap();
    assert!(session.on_reply(answer("y"), 2).is_none());
    assert_eq!(session.current_stage(), NamingStage::Finished);
}

#[test]
fn a_result_holds_a_sanitized_name() {
    let result = ProcessingResult::new(&"a/".repeat(80), 0);
    assert_eq!(result.new_name(), "a_".repeat(50));
    assert_eq!(result.processing_time_ms(), 0);
}
