use ips_symbolicate::model::IPSFile;
use ips_symbolicate::report::ParseError;

fn report_bytes(header: &str, body: &str) -> Vec<u8> {
    let mut bytes = Vec::new();
    bytes.extend_from_slice(header.as_bytes());
    bytes.push(b'\n');
    bytes.extend_from_slice(body.as_bytes());
    bytes
}

#[test]
fn empty_documents_fill_every_default() {
    let file = IPSFile::parse(report_bytes("{}", "{}")).unwrap();
    assert_eq!(file.header.app_name, "");
    assert_eq!(file.header.bundle_id, "");
    assert_eq!(file.header.platform, 0);
    assert_eq!(file.body.pid, 0);
    assert_eq!(file.body.proc_name, "");
    assert!(!file.body.translated);
    assert!(file.body.faulting_thread.is_none());
    assert_eq!(file.body.threads.len(), 0);
    assert_eq!(file.body.used_images.len(), 0);
    assert_eq!(file.body.os_version.train, "");
    assert_eq!(file.body.exception.raw_codes.len(), 0);
    assert_eq!(file.body.legacy_info.thread_triggered.name, "");
    assert_eq!(file.body.trial_info.rollouts.len(), 0);
}

#[test]
fn present_fields_are_kept() {
    let header = "{\"app_name\":\"MyApp\",\"bundleID\":\"com.example.app\",\"platform\":2}";
    let body = "{\"pid\":77,\"procName\":\"myapp\",\"faultingThread\":1,\
                \"osVersion\":{\"train\":\"14.1\"},\
                \"threads\":[{\"id\":4,\"frames\":[{\"imageOffset\":16,\"imageIndex\":0}]}],\
                \"usedImages\":[{\"uuid\":\"AA-BB\",\"name\":\"myapp\",\"size\":12}]}";
    let file = IPSFile::parse(report_bytes(header, body)).unwrap();
    assert_eq!(file.header.app_name, "MyApp");
    assert_eq!(file.header.bundle_id, "com.example.app");
    assert_eq!(file.header.platform, 2);
    assert_eq!(file.body.pid, 77);
    assert_eq!(file.body.proc_name, "myapp");
    assert_eq!(file.body.faulting_thread, Some(1));
    assert_eq!(file.body.os_version.train, "14.1");
    assert_eq!(file.body.threads.len(), 1);
    assert_eq!(file.body.threads[0].id, 4);
    assert_eq!(file.body.threads[0].frames.len(), 1);
    assert_eq!(file.body.threads[0].frames[0].image_offset, 16);
    assert_eq!(file.body.used_images[0].uuid, "AA-BB");
    assert_eq!(file.body.used_images[0].name.as_deref(), Some("myapp"));
    assert_eq!(file.body.used_images[0].size, 12);
}

#[test]
fn missing_newline_is_a_missing_body() {
    match IPSFile::parse(b"{}".to_vec()) {
        Err(ParseError::MissingBody) => {}
        _ => panic!("expected the missing-body error"),
    }
}

#[test]
fn broken_header_names_the_header() {
    match IPSFile::parse(report_bytes("{not json", "{}")) {
        Err(ParseError::BadHeader { .. }) => {}
        _ => panic!("expected a header diagnostic"),
    }
}

#[test]
fn broken_body_names_the_body() {
    match IPSFile::parse(report_bytes("{}", "{not json")) {
        Err(ParseError::BadBody { .. }) => {}
        _ => panic!("expected a body diagnostic"),
    }
}

#[test]
fn wrong_type_field_refuses_to_decode() {
    match IPSFile::parse(report_bytes("{\"app_name\":7}", "{}")) {
        Err(ParseError::BadHeader { .. }) => {}
        _ => panic!("expected a header diagnostic"),
    }
    match IPSFile::parse(report_bytes("{}", "{\"pid\":\"seven\"}")) {
        Err(ParseError::BadBody { .. }) => {}
        _ => panic!("expected a body diagnostic"),
    }
}

#[test]
fn non_object_header_refuses_to_decode() {
    match IPSFile::parse(report_bytes("5", "{}")) {
        Err(ParseError::BadHeader { .. }) => {}
        _ => panic!("expected a header diagnostic"),
    }
}

#[test]
fn unknown_fields_are_ignored() {
    let file = IPSFile::parse(report_bytes(
        "{\"somethingNew\":{\"deep\":[1,2]}}",
        "{\"anotherNewField\":true}",
    ))
    .unwrap();
    assert_eq!(file.header.app_name, "");
    assert_eq!(file.body.pid, 0);
}

#[test]
fn faulting_thread_selects_by_index() {
    let body = "{\"faultingThread\":1,\"threads\":[{\"id\":10},{\"id\":11}]}";
    let file = IPSFile::parse(report_bytes("{}", body)).unwrap();
    assert_eq!(file.faulting_thread().unwrap().id, 11);
}

#[test]
fn absent_faulting_thread_selects_nothing() {
    let file = IPSFile::parse(report_bytes("{}", "{\"threads\":[{\"id\":10}]}")).unwrap();
    assert!(file.faulting_thread().is_none());
}

#[test]
fn out_of_range_faulting_thread_selects_nothing() {
    let file = IPSFile::parse(report_bytes("{}", "{\"faultingThread\":5,\"threads\":[{\"id\":10}]}"))
        .unwrap();
    assert!(file.faulting_thread().is_none());
    let neg = IPSFile::parse(report_bytes("{}", "{\"faultingThread\":-1,\"threads\":[{\"id\":10}]}"))
        .unwrap();
    assert!(neg.faulting_thread().is_none());
}

#[test]
fn thread_triggered_fields_default_like_any_other() {
    let body = "{\"legacyInfo\":{\"threadTriggered\":{\"name\":\"main\"}}}";
    let file = IPSFile::parse(report_bytes("{}", body)).unwrap();
    assert_eq!(file.body.legacy_info.thread_triggered.name, "main");
    assert_eq!(file.body.legacy_info.thread_triggered.queue, "");
    let whole = "{\"legacyInfo\":{\"threadTriggered\":{\"name\":\"main\",\"queue\":\"q\"}}}";
    let file = IPSFile::parse(report_bytes("{}", whole)).unwrap();
    assert_eq!(file.body.legacy_info.thread_triggered.name, "main");
    assert_eq!(file.body.legacy_info.thread_triggered.queue, "q");
}
