use std::io::Cursor;
use std::io::Write;
use yara_scan::dto::UrlDto;
use yara_scan::http::Transfer;
use yara_scan::server::check_content;
use yara_scan::server::check_url;
use yara_scan::server::reload;
use yara_scan::server::Response;
use yara_scan::server::ResponseBody;
use yara_scan::server::UrlSubmission;
use yara_scan::yara::load_rules_from_dir;
use yara_scan::yara::DirItem;
use yara_scan::yara::LoadError;
use yara_scan::yara::StoreError;
use yara_x::Rules;
use zip::write::SimpleFileOptions;
use zip::ZipWriter;

fn eicar_rules() -> std::sync::Arc<Rules> {
    let items = vec![DirItem::Listed {
        path: "rules/eicar.yar".to_string(),
        read: Ok("rule eicar { strings: $a = \"EICAR\" condition: $a }".to_string()),
    }];
    load_rules_from_dir(&items).unwrap().rules
}

fn one_entry_archive(content: &[u8]) -> Vec<u8> {
    let mut writer = ZipWriter::new(Cursor::new(Vec::new()));
    writer.start_file("sample", SimpleFileOptions::default()).unwrap();
    writer.write_all(content).unwrap();
    writer.finish().unwrap().into_inner()
}

fn request(need_to_unzip: bool, transfer: Transfer) -> UrlSubmission {
    UrlSubmission::Fetched {
        request: UrlDto { need_to_unzip, url: "http://host/sample.zip".to_string() },
        transfer,
    }
}

fn assert_refusal(response: Response, status: u16, text: &str) {
    assert_eq!(response.status, status);
    match response.body {
        ResponseBody::Error(message) => assert_eq!(message, text),
        other => panic!("unexpected document: {:?}", other),
    }
}

fn assert_matches(response: Response, count: usize) {
    assert_eq!(response.status, 200);
    match response.body {
        ResponseBody::Scanned(result) => {
            assert_eq!(result.matched_rule_count, count);
            assert_eq!(result.matched_rules.len(), count);
            assert!(result.error.is_none());
        }
        other => panic!("unexpected document: {:?}", other),
    }
}

#[test]
fn unreadable_content_is_a_bad_request() {
    assert_refusal(check_content(&eicar_rules(), None, false), 400, "Failed to read body");
    assert_refusal(check_content(&eicar_rules(), None, true), 400, "Failed to read body");
}

#[test]
fn content_is_scanned() {
    let rules = eicar_rules();
    assert_matches(check_content(&rules, Some(b"an EICAR sample".to_vec()), false), 1);
    assert_matches(check_content(&rules, Some(b"benign".to_vec()), false), 0);
    assert_matches(check_content(&rules, Some(Vec::new()), false), 0);
}

#[test]
fn zipped_content_is_unwrapped_when_asked() {
    let rules = eicar_rules();
    let packed = one_entry_archive(b"an EICAR sample");
    assert_matches(check_content(&rules, Some(packed.clone()), true), 1);
    assert_matches(check_content(&rules, Some(packed), false), 0);
}

#[test]
fn content_that_does_not_unwrap_is_a_bad_gateway() {
    let rules = eicar_rules();
    let r = check_content(&rules, Some(b"an EICAR sample".to_vec()), true);
    assert_refusal(r, 502, "Failed to unzip file");
}

#[test]
fn unreadable_url_request_is_a_bad_request() {
    let r = check_url(&eicar_rules(), UrlSubmission::Unreadable);
    assert_refusal(r, 400, "Failed to read body");
}

#[test]
fn malformed_url_request_is_a_bad_request() {
    assert_refusal(check_url(&eicar_rules(), UrlSubmission::Malformed), 400, "Invalid JSON");
}

#[test]
fn failed_download_is_a_bad_gateway() {
    let rules = eicar_rules();
    let r = check_url(&rules, request(true, Transfer::Failed("timed out".to_string())));
    assert_refusal(r, 502, "Failed to download file");
    let r = check_url(&rules, request(false, Transfer::Response { status: 404, body: vec![] }));
    assert_refusal(r, 502, "Failed to download file");
    let r = check_url(&rules, request(false, Transfer::Response { status: 301, body: vec![] }));
    assert_refusal(r, 502, "Failed to download file");
}

#[test]
fn download_that_does_not_unwrap_is_a_bad_gateway() {
    let rules = eicar_rules();
    let transfer = Transfer::Response { status: 200, body: b"EICAR, unpacked".to_vec() };
    assert_refusal(check_url(&rules, request(true, transfer)), 502, "Failed to unzip file");
}

#[test]
fn download_is_scanned() {
    let rules = eicar_rules();
    let packed = one_entry_archive(b"an EICAR sample");
    let transfer = Transfer::Response { status: 200, body: packed.clone() };
    assert_matches(check_url(&rules, request(true, transfer)), 1);
    let transfer = Transfer::Response { status: 200, body: packed };
    assert_matches(check_url(&rules, request(false, transfer)), 0);
    let transfer = Transfer::Response { status: 200, body: b"an EICAR sample".to_vec() };
    assert_matches(check_url(&rules, request(false, transfer)), 1);
}

#[test]
fn reload_answers() {
    let ok = reload(&Ok(()));
    assert_eq!(ok.status, 200);
    assert!(matches!(ok.body, ResponseBody::Reloaded));
    assert_refusal(reload(&Err(StoreError::NotInitialized)), 500, "Rules dir not initialized");
    let failed = Err(StoreError::Load(LoadError::Io("no such directory".to_string())));
    assert_refusal(reload(&failed), 500, "no such directory");
}
