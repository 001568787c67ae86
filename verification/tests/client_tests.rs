use april::client::{
    choose_dev_action, classify_reply, fallback_display_history, patch_plan, plan_submission,
    try_both, DevAction, DevTask, PatchAction, SubmitPlan,
};
use april::endpoints::{history_url, status_url, HistoryEndPoint, StatusEndPoint};
use april::errors::{u16_to_string, CustomError};
use april::events::{FetchEvent, ResponseMeta};
use april::http::HttpReply;
use april::json::{cover_request_body, dev_request_body, lint_request_body};
use april::parse::{parse_risks, parse_status, parse_task, Risk, Status};
use april::reader::ReaderError;

#[test]
fn endpoint_paths_match_the_two_lineages() {
    assert_eq!(StatusEndPoint::DevStatus.to_string(), "/dev/tasks/".to_string());
    assert_eq!(StatusEndPoint::CoverStatus.to_string(), "/cover/tasks/".to_string());
    assert_eq!(HistoryEndPoint::DevHistory.to_string(), "/dev/histories/".to_string());
    assert_eq!(HistoryEndPoint::CoverHistory.to_string(), "/cover/histories/".to_string());
}

#[test]
fn urls_join_base_path_and_id() {
    assert_eq!(
        status_url("http://localhost:8000", StatusEndPoint::DevStatus, "abc"),
        "http://localhost:8000/dev/tasks/abc".to_string()
    );
    assert_eq!(
        history_url("http://localhost:8000", HistoryEndPoint::CoverHistory, "abc"),
        "http://localhost:8000/cover/histories/abc".to_string()
    );
}

#[test]
fn classify_reply_covers_every_outcome() {
    assert_eq!(classify_reply(None), Err(CustomError::ChannelError));
    assert_eq!(
        classify_reply(Some(Err("dns failure".to_string()))),
        Err(CustomError::HttpError { status: None, body: "dns failure".to_string() })
    );
    assert_eq!(
        classify_reply(Some(Ok(HttpReply { status: 503, text: Some("busy".to_string()) }))),
        Err(CustomError::HttpError { status: Some(503), body: "busy".to_string() })
    );
    assert_eq!(
        classify_reply(Some(Ok(HttpReply { status: 500, text: None }))),
        Err(CustomError::HttpError { status: Some(500), body: String::new() })
    );
    assert_eq!(
        classify_reply(Some(Ok(HttpReply { status: 200, text: None }))),
        Err(CustomError::BodyMissing)
    );
    assert_eq!(
        classify_reply(Some(Ok(HttpReply { status: 200, text: Some("body".to_string()) }))),
        Ok("body".to_string())
    );
}

#[test]
fn transient_and_terminal_errors_are_told_apart() {
    assert!(CustomError::ChunkDecodeError.is_transient());
    assert!(!CustomError::ChannelError.is_transient());
    assert!(!CustomError::InvalidParameters.is_transient());
    assert!(!CustomError::BodyMissing.is_transient());
    assert!(!CustomError::HttpError { status: None, body: String::new() }.is_transient());
}

#[test]
fn dev_request_body_is_a_sorted_json_object() {
    let body = dev_request_body("r", "t", "add null check", "openai:gpt4");
    assert_eq!(
        String::from_utf8(body).unwrap(),
        "{\"model\":\"openai:gpt4\",\"prompt\":\"add null check\",\"repo\":\"r\",\"token\":\"t\"}"
    );
}

#[test]
fn request_bodies_escape_json_metacharacters() {
    let body = dev_request_body("a\"b", "t\\u", "line\nbreak\ttab", "m");
    assert_eq!(
        String::from_utf8(body).unwrap(),
        "{\"model\":\"m\",\"prompt\":\"line\\nbreak\\ttab\",\"repo\":\"a\\\"b\",\"token\":\"t\\\\u\"}"
    );
    let body = lint_request_body("\u{1}", "topic", "m");
    assert_eq!(
        String::from_utf8(body).unwrap(),
        "{\"code\":\"\\u0001\",\"model\":\"m\",\"topic\":\"topic\"}"
    );
}

#[test]
fn cover_request_body_lists_the_file_pair() {
    let body = cover_request_body("repo", "tok", "src/app.go", "src/app_test.go");
    assert_eq!(
        String::from_utf8(body).unwrap(),
        "{\"repo\":\"repo\",\"source_file\":\"src/app.go\",\"test_file\":\"src/app_test.go\",\"token\":\"tok\"}"
    );
}

#[test]
fn status_replies_parse_to_state_and_patch() {
    let st = parse_status("{\"status\":\"DONE\",\"patch\":\"--- a/x\\n+++ b/x\\n\"}").unwrap();
    assert_eq!(st.status, "DONE".to_string());
    assert_eq!(st.patch, Some("--- a/x\n+++ b/x\n".to_string()));

    let st = parse_status("{\"status\":\"RUNNING\"}").unwrap();
    assert_eq!(st.status, "RUNNING".to_string());
    assert_eq!(st.patch, None);

    assert_eq!(parse_status("not json"), Err(CustomError::BodyMissing));
    assert_eq!(parse_status("{\"other\":1}"), Err(CustomError::BodyMissing));
}

#[test]
fn task_replies_parse_to_an_id() {
    let task = parse_task("{\"task_id\":\"abc\"}").unwrap();
    assert_eq!(task.task_id, "abc".to_string());
    assert_eq!(parse_task("{}"), Err(CustomError::BodyMissing));
}

#[test]
fn a_finished_task_saves_its_patch_under_the_task_id() {
    let st = Status { status: "DONE".to_string(), patch: Some("--- a/x\n+++ b/x\n".to_string()) };
    let action = patch_plan("abc", st);
    assert_eq!(
        action,
        PatchAction::Save {
            file_name: "abc.diff".to_string(),
            content: "--- a/x\n+++ b/x\n".to_string(),
        }
    );
}

#[test]
fn an_unfinished_task_only_shows_its_status() {
    let st = Status { status: "RUNNING".to_string(), patch: None };
    let action = patch_plan("abc", st.clone());
    assert_eq!(action, PatchAction::NotDone { status: st });
}

#[test]
fn a_finished_task_without_patch_is_not_saved() {
    let st = Status { status: "DONE".to_string(), patch: None };
    let action = patch_plan("abc", st.clone());
    assert_eq!(action, PatchAction::NotDone { status: st });
}

#[test]
fn fallback_prefers_the_primary_success() {
    let r: Result<u32, &str> = try_both(Ok(1), Ok(2));
    assert_eq!(r, Ok(1));
    let r: Result<u32, &str> = try_both(Ok(1), Err("fallback failed"));
    assert_eq!(r, Ok(1));
}

#[test]
fn fallback_answers_a_failed_primary_with_the_fallback_outcome() {
    let r: Result<u32, &str> = try_both(Err("primary failed"), Ok(2));
    assert_eq!(r, Ok(2));
    let r: Result<u32, &str> = try_both(Err("primary failed"), Err("fallback failed"));
    assert_eq!(r, Err("fallback failed"));
}

fn failing_attempts() -> Vec<Vec<FetchEvent>> {
    vec![vec![FetchEvent::Meta(ResponseMeta {
        status: 404,
        ok: false,
        status_text: "Not Found".to_string(),
    })]]
}

fn clean_attempts(text: &str) -> Vec<Vec<FetchEvent>> {
    vec![vec![
        FetchEvent::Meta(ResponseMeta { status: 200, ok: true, status_text: "OK".to_string() }),
        FetchEvent::Chunk(text.as_bytes().to_vec()),
        FetchEvent::Chunk(Vec::new()),
    ]]
}

#[test]
fn follow_falls_back_to_the_cover_lineage() {
    let mut sink: Vec<Vec<u8>> = Vec::new();
    let r = fallback_display_history(failing_attempts(), clean_attempts("from cover"), &mut sink);
    assert_eq!(r, Some(Ok(())));
    assert_eq!(sink, vec![b"from cover".to_vec()]);
}

#[test]
fn follow_reports_the_fallback_error_when_both_lineages_fail() {
    let mut sink: Vec<Vec<u8>> = Vec::new();
    let fallback = vec![vec![FetchEvent::Meta(ResponseMeta {
        status: 410,
        ok: false,
        status_text: "Gone".to_string(),
    })]];
    let r = fallback_display_history(failing_attempts(), fallback, &mut sink);
    assert_eq!(
        r,
        Some(Err(ReaderError::Fatal(CustomError::HttpError {
            status: Some(410),
            body: "Gone".to_string(),
        })))
    );
    assert!(sink.is_empty());
}

#[test]
fn follow_does_not_touch_the_fallback_after_a_primary_success() {
    let mut sink: Vec<Vec<u8>> = Vec::new();
    let r = fallback_display_history(clean_attempts("from dev"), clean_attempts("unused"), &mut sink);
    assert_eq!(r, Some(Ok(())));
    assert_eq!(sink, vec![b"from dev".to_vec()]);
}

#[test]
fn dev_command_options_have_a_fixed_precedence() {
    assert_eq!(
        choose_dev_action(Some("f.yaml".to_string()), Some("id1".to_string()), Some("id2".to_string())),
        DevAction::DownloadPatch("id2".to_string())
    );
    assert_eq!(
        choose_dev_action(Some("f.yaml".to_string()), Some("id1".to_string()), None),
        DevAction::FollowHistory("id1".to_string())
    );
    assert_eq!(
        choose_dev_action(Some("f.yaml".to_string()), None, None),
        DevAction::SubmitFromFile("f.yaml".to_string())
    );
    assert_eq!(choose_dev_action(None, None, None), DevAction::ShowHelp);
}

#[test]
fn a_description_makes_a_dev_submission() {
    let task = DevTask {
        repo: "r".to_string(),
        description: Some("add null check".to_string()),
        token: None,
        source_file: None,
        test_file: None,
    };
    assert_eq!(
        plan_submission(task),
        SubmitPlan::Dev {
            repo: "r".to_string(),
            token: String::new(),
            desc: "add null check".to_string(),
        }
    );
}

#[test]
fn a_file_pair_makes_a_cover_submission() {
    let task = DevTask {
        repo: "r".to_string(),
        description: None,
        token: Some("tok".to_string()),
        source_file: Some("app.go".to_string()),
        test_file: Some("app_test.go".to_string()),
    };
    assert_eq!(
        plan_submission(task),
        SubmitPlan::Cover {
            repo: "r".to_string(),
            token: "tok".to_string(),
            source_file: "app.go".to_string(),
            test_file: "app_test.go".to_string(),
        }
    );
}

#[test]
fn an_incomplete_description_is_rejected() {
    let task = DevTask {
        repo: "r".to_string(),
        description: None,
        token: None,
        source_file: Some("app.go".to_string()),
        test_file: None,
    };
    assert_eq!(plan_submission(task), SubmitPlan::MissingFiles);
}

#[test]
fn submit_and_wait_scenario_saves_the_patch() {
    // The backend accepts the task...
    let task = parse_task("{\"task_id\":\"abc\"}").unwrap();
    assert_eq!(task.task_id, "abc".to_string());

    // ...its history stream yields one line and the terminator, printed
    // exactly once...
    let mut sink: Vec<Vec<u8>> = Vec::new();
    let r = fallback_display_history(clean_attempts("Looking at repo..."), Vec::new(), &mut sink);
    assert_eq!(r, Some(Ok(())));
    assert_eq!(sink, vec![b"Looking at repo...".to_vec()]);

    // ...and once the status reads DONE, the patch goes to abc.diff.
    let st = parse_status("{\"status\":\"DONE\",\"patch\":\"--- a/x\\n+++ b/x\\n...\"}").unwrap();
    let action = patch_plan(&task.task_id, st);
    assert_eq!(
        action,
        PatchAction::Save {
            file_name: "abc.diff".to_string(),
            content: "--- a/x\n+++ b/x\n...".to_string(),
        }
    );
}

#[test]
fn a_running_task_reports_its_status_and_writes_nothing() {
    let st = parse_status("{\"status\":\"RUNNING\"}").unwrap();
    let action = patch_plan("abc", st);
    assert_eq!(
        action,
        PatchAction::NotDone {
            status: Status { status: "RUNNING".to_string(), patch: None },
        }
    );
}

#[test]
fn status_codes_render_in_decimal() {
    assert_eq!(u16_to_string(0), "0".to_string());
    assert_eq!(u16_to_string(7), "7".to_string());
    assert_eq!(u16_to_string(404), "404".to_string());
    assert_eq!(u16_to_string(65535), "65535".to_string());
}

#[test]
fn error_messages_name_the_fault() {
    assert_eq!(CustomError::ChunkDecodeError.message(), "http interrupted chunk".to_string());
    assert_eq!(
        CustomError::HttpError { status: Some(503), body: "busy".to_string() }.message(),
        "http error remote service returns code:503, body:busy".to_string()
    );
    assert_eq!(
        CustomError::HttpError { status: None, body: "dns failure".to_string() }.message(),
        "http error dns failure".to_string()
    );
    assert_eq!(CustomError::ChannelError.message(), "internal channel error".to_string());
    assert_eq!(CustomError::InvalidParameters.message(), "invalid parameters".to_string());
    assert_eq!(CustomError::BodyMissing.message(), "response body is missing".to_string());
}

#[test]
fn risk_replies_parse_to_findings_and_backend() {
    let rs = parse_risks(
        "{\"risks\":[{\"which_part_of_code\":\"foo()\",\"reason\":\"null deref\",\"fix\":\"check\"}],\
         \"plain_risks\":\"\",\"backend\":\"openai\"}",
    )
    .unwrap();
    assert_eq!(
        rs.risks,
        vec![Risk {
            which_part_of_code: "foo()".to_string(),
            reason: "null deref".to_string(),
            fix: "check".to_string(),
        }]
    );
    assert_eq!(rs.plain_risks, "".to_string());
    assert_eq!(rs.backend, "openai".to_string());
    assert!(rs.use_structured());

    let rs = parse_risks(
        "{\"risks\":[],\"plain_risks\":\"all fine\",\"backend\":\"custom\"}",
    )
    .unwrap();
    assert!(rs.risks.is_empty());
    assert_eq!(rs.plain_risks, "all fine".to_string());
    assert!(!rs.use_structured());

    assert_eq!(parse_risks("not json"), Err(CustomError::BodyMissing));
    assert_eq!(
        parse_risks("{\"risks\":[],\"plain_risks\":\"x\"}"),
        Err(CustomError::BodyMissing)
    );
}

#[test]
fn patch_poll_outcomes_select_like_the_history_side() {
    // The download-side fallback routes its selection through try_both;
    // these are its four outcome shapes on that operation's types.
    let save = PatchAction::Save { file_name: "abc.diff".to_string(), content: "p".to_string() };
    let e1 = CustomError::HttpError { status: Some(404), body: "dev".to_string() };
    let e2 = CustomError::HttpError { status: Some(404), body: "cover".to_string() };

    let r: Result<PatchAction, CustomError> = try_both(Ok(save.clone()), Err(e2.clone()));
    assert_eq!(r, Ok(save.clone()));
    let r: Result<PatchAction, CustomError> = try_both(Err(e1.clone()), Ok(save.clone()));
    assert_eq!(r, Ok(save));
    let r: Result<PatchAction, CustomError> = try_both(Err(e1), Err(e2.clone()));
    assert_eq!(r, Err(e2));
}
