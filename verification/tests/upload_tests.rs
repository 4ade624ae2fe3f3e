use std::collections::HashMap;
use ws_upload::fault::Fault;
use ws_upload::message::{DownloadReply, Kind, RawAction, UploadAction};
use ws_upload::registry::{Record, Registry, Status};
use ws_upload::retrieval::{deliver, locate, Artifact, Located};
use ws_upload::session::{Frame, Phase, Reaction, Session};
use ws_upload::token::Token;
use ws_upload::upload::{begin, plan_drawn, plan_upload, FetchEnd, Reply, UploadPlan};

const KNOWN_BITS: u128 = 0x936DA01F9ABD4D9D80C702AF85C822A8;
const KNOWN_TEXT: &str = "936da01f-9abd-4d9d-80c7-02af85c822a8";

fn text_action(name: &str, payload: &str) -> UploadAction {
    UploadAction { kind: Kind::Text, name: String::from(name), payload: String::from(payload) }
}

fn picture_action(name: &str, url: &str) -> UploadAction {
    UploadAction { kind: Kind::Picture, name: String::from(name), payload: String::from(url) }
}

fn text_plan(name: &str, payload: &str, bits: u128) -> UploadPlan {
    plan_upload(text_action(name, payload), Token::from_bits(bits)).unwrap()
}

fn picture_plan(name: &str, url: &str, bits: u128) -> UploadPlan {
    plan_upload(picture_action(name, url), Token::from_bits(bits)).unwrap()
}

fn link(token: &Token) -> DownloadReply {
    DownloadReply { download: format!("https://remakeaon.com/{}/", token.text()) }
}

fn record(path: &str, status: Status) -> Option<Record> {
    Some(Record { path: String::from(path), status })
}

#[test]
fn plan_for_a_known_token() {
    let plan = plan_upload(text_action("a.txt", "hello"), Token::from_bits(KNOWN_BITS));
    assert_eq!(
        plan,
        Ok(UploadPlan {
            token: Token::from_bits(KNOWN_BITS),
            path: format!("files/{}/a.txt", KNOWN_TEXT),
            kind: Kind::Text,
            payload: String::from("hello"),
        })
    );
}

#[test]
fn no_plan_for_a_name_that_leaves_the_directory() {
    for name in ["", ".", "..", "../x", "/etc/x", "a/../../x"] {
        assert_eq!(
            plan_upload(text_action(name, "hello"), Token::from_bits(1)),
            Err(Fault::InvalidName)
        );
        assert_eq!(begin(picture_action(name, "https://x/y")), Err(Fault::InvalidName));
    }
}

#[test]
fn begin_plans_under_a_fresh_token() {
    let one = begin(text_action("a.txt", "hello")).unwrap();
    let two = begin(text_action("a.txt", "hello")).unwrap();
    assert_ne!(one.token, two.token);
    assert_ne!(one.path, two.path);
    assert_eq!(one.path, format!("files/{}/a.txt", one.token.text()));
    assert_eq!(one.kind, Kind::Text);
    assert_eq!(one.payload, "hello");
    assert_eq!((one.token.bits >> 76) & 0xf, 4);
    assert_eq!(Ok(one.clone()), plan_upload(text_action("a.txt", "hello"), one.token));
}

#[test]
fn inline_content_is_the_payload_of_a_text_upload() {
    assert_eq!(text_plan("a", "hello", 1).inline_content(), Some(b"hello".to_vec()));
    assert_eq!(text_plan("a", "", 1).inline_content(), Some(Vec::new()));
    assert_eq!(
        text_plan("a", "\u{e9}\u{1f600}", 1).inline_content(),
        Some("\u{e9}\u{1f600}".as_bytes().to_vec())
    );
    assert_eq!(picture_plan("a", "https://x/y", 1).inline_content(), None);
}

#[test]
fn settling_a_stored_text_upload_records_it_as_ready() {
    let mut registry = Registry::new();
    let plan = text_plan("a.txt", "hello", KNOWN_BITS);
    let reply = plan.settle(&mut registry, true);
    assert_eq!(
        reply,
        Reply::Download(DownloadReply {
            download: String::from("https://remakeaon.com/936da01f-9abd-4d9d-80c7-02af85c822a8/"),
        })
    );
    assert_eq!(registry.len(), 1);
    assert_eq!(
        registry.resolve(KNOWN_TEXT),
        record(&format!("files/{}/a.txt", KNOWN_TEXT), Status::Ready)
    );
}

#[test]
fn settling_a_failed_upload_records_nothing() {
    let mut registry = Registry::new();
    let text = text_plan("a.txt", "hello", 1);
    assert_eq!(text.settle(&mut registry, false), Reply::Notice("Storage failed!"));
    let picture = picture_plan("a.png", "https://x/y", 2);
    assert_eq!(picture.settle(&mut registry, false), Reply::Notice("Storage failed!"));
    assert_eq!(registry.len(), 0);
}

#[test]
fn settling_under_a_taken_token_is_refused() {
    let mut registry = Registry::new();
    let token = Token::from_bits(3);
    assert!(registry.insert(token, String::from("files/old/o.txt"), Status::Ready));
    let text = text_plan("a.txt", "hello", 3);
    assert_eq!(text.settle(&mut registry, true), Reply::Notice("Storage failed!"));
    let picture = picture_plan("a.png", "https://x/y", 3);
    assert_eq!(picture.settle(&mut registry, true), Reply::Notice("Storage failed!"));
    assert_eq!(registry.len(), 1);
    assert_eq!(registry.lookup(&token), record("files/old/o.txt", Status::Ready));
}

#[test]
fn a_picture_is_answered_at_once_and_recorded_when_the_fetch_ends() {
    let mut registry = Registry::new();
    let token = Token::from_bits(KNOWN_BITS);
    let plan = picture_plan("cat.png", "https://example.com/cat.png", KNOWN_BITS);
    assert_eq!(
        plan.settle(&mut registry, true),
        Reply::DownloadThenFetch(link(&token), String::from("https://example.com/cat.png"))
    );
    assert_eq!(registry.len(), 0);
    assert_eq!(registry.lookup(&token), None);
    assert_eq!(locate(&registry, KNOWN_TEXT), Err(Fault::NotFound));
    assert_eq!(plan.complete_fetch(&mut registry, FetchEnd::Stored(1234)), Ok(()));
    assert_eq!(registry.len(), 1);
    assert_eq!(
        registry.lookup(&token),
        record(&format!("files/{}/cat.png", KNOWN_TEXT), Status::Ready)
    );
    assert_eq!(
        locate(&registry, KNOWN_TEXT),
        Ok(Located {
            path: format!("files/{}/cat.png", KNOWN_TEXT),
            name: String::from("cat.png"),
            status: Status::Ready,
        })
    );
}

#[test]
fn a_failed_fetch_is_recorded_as_failed_and_what_lies_there_is_served() {
    let mut registry = Registry::new();
    let token = Token::from_bits(5);
    let plan = picture_plan("cat.png", "https://example.com/cat.png", 5);
    assert_eq!(plan.complete_fetch(&mut registry, FetchEnd::FetchFailed), Err(Fault::Fetch));
    assert_eq!(registry.lookup(&token), record(&plan.path, Status::Failed));
    assert_eq!(
        locate(&registry, &token.text()),
        Ok(Located {
            path: plan.path.clone(),
            name: String::from("cat.png"),
            status: Status::Failed,
        })
    );
    let mut disk: HashMap<String, Vec<u8>> = HashMap::new();
    assert_eq!(retrieve(&registry, &disk, &token.text()), Err(Fault::NotFound));
    disk.insert(plan.path.clone(), Vec::new());
    assert_eq!(
        retrieve(&registry, &disk, &token.text()),
        Ok(Artifact {
            name: String::from("cat.png"),
            disposition: String::from("form-data; filename=cat.png"),
            content: Vec::new(),
            status: Status::Failed,
        })
    );
    disk.insert(plan.path.clone(), vec![1, 2, 3]);
    assert_eq!(retrieve(&registry, &disk, &token.text()).unwrap().content, vec![1, 2, 3]);
}

#[test]
fn a_write_that_failed_after_the_fetch_is_a_storage_fault() {
    let mut registry = Registry::new();
    let plan = picture_plan("cat.png", "https://example.com/cat.png", 6);
    assert_eq!(plan.complete_fetch(&mut registry, FetchEnd::WriteFailed), Err(Fault::Storage));
    assert_eq!(registry.lookup(&plan.token), record(&plan.path, Status::Failed));
}

#[test]
fn plan_drawn_plans_under_the_drawn_token() {
    let token = Token::from_bits(KNOWN_BITS);
    assert_eq!(
        plan_drawn(text_action("a.txt", "hello"), Some(token)),
        plan_upload(text_action("a.txt", "hello"), token)
    );
    assert_eq!(plan_drawn(text_action("a.txt", "hello"), None), Err(Fault::Storage));
    assert_eq!(plan_drawn(text_action("../x", "hello"), None), Err(Fault::InvalidName));
    assert_eq!(plan_drawn(text_action("../x", "hello"), Some(token)), Err(Fault::InvalidName));
}

#[test]
fn a_failed_fetch_and_a_good_one_leave_different_registries() {
    let plan = picture_plan("cat.png", "https://example.com/cat.png", 5);
    let mut good = Registry::new();
    let mut bad = Registry::new();
    assert_eq!(plan.complete_fetch(&mut good, FetchEnd::Stored(10)), Ok(()));
    assert_eq!(plan.complete_fetch(&mut bad, FetchEnd::FetchFailed), Err(Fault::Fetch));
    assert_ne!(good.lookup(&plan.token), bad.lookup(&plan.token));
    assert_eq!(good.lookup(&plan.token), record(&plan.path, Status::Ready));
    assert_eq!(bad.lookup(&plan.token), record(&plan.path, Status::Failed));
}

#[test]
fn an_oversized_fetch_is_a_fetch_fault_and_recorded_as_failed() {
    let mut registry = Registry::new();
    let one = picture_plan("a", "u", 1);
    assert_eq!(one.complete_fetch(&mut registry, FetchEnd::Stored(20_000_000)), Ok(()));
    assert_eq!(registry.lookup(&one.token), record(&one.path, Status::Ready));
    let two = picture_plan("a", "u", 2);
    assert_eq!(two.complete_fetch(&mut registry, FetchEnd::Stored(20_000_001)), Err(Fault::Fetch));
    assert_eq!(registry.lookup(&two.token), record(&two.path, Status::Failed));
    assert_eq!(locate(&registry, &two.token.text()).map(|l| l.status), Ok(Status::Failed));
    let three = picture_plan("a", "u", 3);
    assert_eq!(three.complete_fetch(&mut registry, FetchEnd::Stored(0)), Ok(()));
    assert_eq!(registry.lookup(&three.token), record(&three.path, Status::Ready));
    assert_eq!(registry.len(), 3);
}

#[test]
fn a_fetch_that_ends_under_a_taken_token_is_a_storage_fault() {
    let mut registry = Registry::new();
    let token = Token::from_bits(9);
    assert!(registry.insert(token, String::from("files/old/o.txt"), Status::Ready));
    let plan = picture_plan("a", "u", 9);
    assert_eq!(plan.complete_fetch(&mut registry, FetchEnd::Stored(10)), Err(Fault::Storage));
    assert_eq!(plan.complete_fetch(&mut registry, FetchEnd::FetchFailed), Err(Fault::Fetch));
    assert_eq!(registry.lookup(&token), record("files/old/o.txt", Status::Ready));
    assert_eq!(registry.len(), 1);
}

#[test]
fn a_record_once_written_is_not_changed_by_a_later_fetch() {
    let mut registry = Registry::new();
    let plan = picture_plan("a", "u", 4);
    assert_eq!(plan.complete_fetch(&mut registry, FetchEnd::FetchFailed), Err(Fault::Fetch));
    assert_eq!(plan.complete_fetch(&mut registry, FetchEnd::Stored(10)), Err(Fault::Storage));
    assert_eq!(registry.lookup(&plan.token), record(&plan.path, Status::Failed));
}

#[test]
fn locate_of_an_unregistered_token_is_not_found() {
    let mut registry = Registry::new();
    assert_eq!(locate(&registry, KNOWN_TEXT), Err(Fault::NotFound));
    assert!(registry.insert(Token::from_bits(1), String::from("files/x/a.txt"), Status::Ready));
    assert_eq!(locate(&registry, KNOWN_TEXT), Err(Fault::NotFound));
    assert_eq!(locate(&registry, ""), Err(Fault::NotFound));
    assert_eq!(locate(&registry, "../../etc/passwd"), Err(Fault::NotFound));
    assert_eq!(locate(&registry, "936DA01F-9ABD-4D9D-80C7-02AF85C822A8"), Err(Fault::NotFound));
    assert_eq!(registry.len(), 1);
}

#[test]
fn locate_gives_path_and_file_name() {
    let mut registry = Registry::new();
    let token = Token::from_bits(KNOWN_BITS);
    assert!(registry.insert(token, format!("files/{}/a.txt", KNOWN_TEXT), Status::Ready));
    assert_eq!(
        locate(&registry, KNOWN_TEXT),
        Ok(Located {
            path: format!("files/{}/a.txt", KNOWN_TEXT),
            name: String::from("a.txt"),
            status: Status::Ready,
        })
    );
}

#[test]
fn locate_of_a_failed_upload_hands_the_status_on() {
    let mut registry = Registry::new();
    let token = Token::from_bits(KNOWN_BITS);
    assert!(registry.insert(token, format!("files/{}/a.txt", KNOWN_TEXT), Status::Failed));
    assert_eq!(
        locate(&registry, KNOWN_TEXT),
        Ok(Located {
            path: format!("files/{}/a.txt", KNOWN_TEXT),
            name: String::from("a.txt"),
            status: Status::Failed,
        })
    );
}

#[test]
fn deliver_of_a_missing_file_is_not_found() {
    for status in [Status::Ready, Status::Failed] {
        let located = Located {
            path: String::from("files/x/a.txt"),
            name: String::from("a.txt"),
            status,
        };
        assert_eq!(deliver(located, None), Err(Fault::NotFound));
    }
}

#[test]
fn deliver_passes_the_bytes_on_and_names_the_file() {
    let located = Located {
        path: String::from("files/x/a.txt"),
        name: String::from("a.txt"),
        status: Status::Ready,
    };
    assert_eq!(
        deliver(located, Some(vec![0, 159, 255, 10])),
        Ok(Artifact {
            name: String::from("a.txt"),
            disposition: String::from("form-data; filename=a.txt"),
            content: vec![0, 159, 255, 10],
            status: Status::Ready,
        })
    );
    let empty = Located {
        path: String::from("files/x/e"),
        name: String::from("e"),
        status: Status::Failed,
    };
    assert_eq!(
        deliver(empty, Some(Vec::new())),
        Ok(Artifact {
            name: String::from("e"),
            disposition: String::from("form-data; filename=e"),
            content: Vec::new(),
            status: Status::Failed,
        })
    );
}

fn upload_text(
    session: &mut Session,
    registry: &mut Registry,
    disk: &mut HashMap<String, Vec<u8>>,
    name: &str,
    msg: &str,
) -> (Token, String) {
    let raw = RawAction {
        file_type: String::from("text"),
        name: String::from(name),
        msg: String::from(msg),
    };
    let action = match session.handle(Frame::Text(Some(raw)), 1) {
        Reaction::Upload(action) => action,
        other => panic!("unexpected reaction {:?}", other),
    };
    let plan = begin(action).unwrap();
    let content = plan.inline_content().unwrap();
    disk.insert(plan.path.clone(), content);
    match plan.settle(registry, true) {
        Reply::Download(reply) => (plan.token, reply.download),
        other => panic!("unexpected reply {:?}", other),
    }
}

fn retrieve(
    registry: &Registry,
    disk: &HashMap<String, Vec<u8>>,
    token: &str,
) -> Result<Artifact, Fault> {
    let located = locate(registry, token)?;
    let content = disk.get(&located.path).cloned();
    deliver(located, content)
}

#[test]
fn text_upload_then_retrieval() {
    let mut session = Session::new(0);
    session.started(0);
    let mut registry = Registry::new();
    let mut disk: HashMap<String, Vec<u8>> = HashMap::new();
    let (token, download) = upload_text(&mut session, &mut registry, &mut disk, "a.txt", "hello");
    assert_eq!(download, format!("https://remakeaon.com/{}/", token.text()));
    assert_eq!(session.phase, Phase::Active);
    let artifact = retrieve(&registry, &disk, &token.text()).unwrap();
    assert_eq!(artifact.content, vec![b'h', b'e', b'l', b'l', b'o']);
    assert_eq!(artifact.name, "a.txt");
    assert_eq!(artifact.disposition, "form-data; filename=a.txt");
}

#[test]
fn picture_upload_then_retrieval() {
    let mut session = Session::new(0);
    session.started(0);
    let mut registry = Registry::new();
    let mut disk: HashMap<String, Vec<u8>> = HashMap::new();
    let raw = RawAction {
        file_type: String::from("pic"),
        name: String::from("cat.png"),
        msg: String::from("https://example.com/cat.png"),
    };
    let action = match session.handle(Frame::Text(Some(raw)), 1) {
        Reaction::Upload(action) => action,
        other => panic!("unexpected reaction {:?}", other),
    };
    let plan = begin(action).unwrap();
    assert_eq!(plan.inline_content(), None);
    disk.insert(plan.path.clone(), Vec::new());
    let source = match plan.settle(&mut registry, true) {
        Reply::DownloadThenFetch(reply, source) => {
            assert_eq!(reply, link(&plan.token));
            source
        }
        other => panic!("unexpected reply {:?}", other),
    };
    assert_eq!(source, "https://example.com/cat.png");
    assert_eq!(retrieve(&registry, &disk, &plan.token.text()), Err(Fault::NotFound));
    disk.insert(plan.path.clone(), vec![137, 80, 78, 71]);
    assert_eq!(plan.complete_fetch(&mut registry, FetchEnd::Stored(4)), Ok(()));
    let artifact = retrieve(&registry, &disk, &plan.token.text()).unwrap();
    assert_eq!(artifact.content, vec![137, 80, 78, 71]);
    assert_eq!(artifact.name, "cat.png");
    assert_eq!(artifact.disposition, "form-data; filename=cat.png");
    assert_eq!(artifact.status, Status::Ready);
}

#[test]
fn every_text_upload_is_retrieved_byte_for_byte() {
    let mut session = Session::new(0);
    session.started(0);
    let mut registry = Registry::new();
    let mut disk: HashMap<String, Vec<u8>> = HashMap::new();
    let payloads = ["", "hello", "line one\nline two\r\n", "\u{e9}\u{1f600}\u{0}", "{\"a\":1}"];
    let mut issued = Vec::new();
    for (i, payload) in payloads.iter().enumerate() {
        let name = format!("file{}.txt", i);
        let (token, _) = upload_text(&mut session, &mut registry, &mut disk, &name, payload);
        issued.push((token, name, payload.as_bytes().to_vec()));
    }
    for (token, name, bytes) in issued {
        let artifact = retrieve(&registry, &disk, &token.text()).unwrap();
        assert_eq!(artifact.content, bytes);
        assert_eq!(artifact.name, name);
    }
}

#[test]
fn retrieval_of_a_registered_token_whose_file_is_gone_is_not_found() {
    let mut session = Session::new(0);
    session.started(0);
    let mut registry = Registry::new();
    let mut disk: HashMap<String, Vec<u8>> = HashMap::new();
    let (token, _) = upload_text(&mut session, &mut registry, &mut disk, "a.txt", "hello");
    disk.clear();
    assert_eq!(retrieve(&registry, &disk, &token.text()), Err(Fault::NotFound));
}

#[test]
fn fifty_uploads_from_fifty_sessions_are_all_retrievable() {
    let mut registry = Registry::new();
    let mut disk: HashMap<String, Vec<u8>> = HashMap::new();
    let mut sessions: Vec<Session> = Vec::new();
    for i in 0..50u64 {
        let mut session = Session::new(i);
        session.started(i);
        sessions.push(session);
    }
    let mut issued = Vec::new();
    for (i, session) in sessions.iter_mut().enumerate() {
        let payload = format!("content of upload {}", i);
        let (token, _) = upload_text(session, &mut registry, &mut disk, "same.txt", &payload);
        issued.push((token, payload));
    }
    assert_eq!(registry.len(), 50);
    assert_eq!(disk.len(), 50);
    for (i, (token, payload)) in issued.iter().enumerate() {
        for (other, _) in issued.iter().skip(i + 1) {
            assert_ne!(token, other);
        }
        let artifact = retrieve(&registry, &disk, &token.text()).unwrap();
        assert_eq!(artifact.content, payload.as_bytes().to_vec());
        assert_eq!(artifact.name, "same.txt");
    }
}
