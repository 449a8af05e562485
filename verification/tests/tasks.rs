use xattr_bridge::error::{Error, ErrorKind, OsError};
use xattr_bridge::marshal::RawName;
use xattr_bridge::operations::{
    get_attribute, list_attributes, remove_attribute, set_attribute, GetAttributeTask,
    RemoveAttributeTask, SetAttributeTask,
};
use xattr_bridge::request::{GetRequest, RemoveRequest, SetRequest};
use xattr_bridge::sync::{
    get_attribute_sync, list_attributes_sync, remove_attribute_sync, set_attribute_sync,
};
use xattr_bridge::task::{AsyncTask, Phase};
use xattr_bridge::value::AttributeValue;

fn failure(code: i32, message: &str) -> OsError {
    OsError { code: Some(code), message: String::from(message), not_found: false }
}

fn missing(code: i32, message: &str) -> OsError {
    OsError { code: Some(code), message: String::from(message), not_found: true }
}

fn raw(bytes: &[u8], description: &str) -> RawName {
    RawName { bytes: bytes.to_vec(), description: String::from(description) }
}

#[test]
fn a_new_task_is_created_and_holds_its_operation() {
    let handle = AsyncTask::new(GetAttributeTask { path: String::from("/tmp/f"), name: String::from("user.tag") });
    assert_eq!(handle.phase(), Phase::Created);
    assert_eq!(handle.task().path, "/tmp/f");
    assert_eq!(handle.task().name, "user.tag");
}

#[test]
fn a_deferred_get_comes_back_queued() {
    let handle = get_attribute(String::from("/tmp/f"), String::from("user.tag"));
    assert_eq!(handle.phase(), Phase::Queued);
    assert_eq!(handle.task().path, "/tmp/f");
    assert_eq!(handle.task().name, "user.tag");
}

#[test]
fn a_deferred_set_comes_back_queued_with_its_value() {
    let handle = set_attribute(
        String::from("/tmp/f"),
        String::from("user.tag"),
        AttributeValue::Text(String::from("\u{e9}")),
    );
    assert_eq!(handle.phase(), Phase::Queued);
    assert_eq!(handle.task().path, "/tmp/f");
    assert_eq!(handle.task().name, "user.tag");
    assert_eq!(handle.task().value, AttributeValue::Text(String::from("\u{e9}")));
    assert_eq!(handle.task().value.as_bytes(), &[0xc3u8, 0xa9][..]);
}

#[test]
fn a_deferred_remove_comes_back_queued() {
    let handle = remove_attribute(String::from("/tmp/g"), String::from("user.old"));
    assert_eq!(handle.phase(), Phase::Queued);
    assert_eq!(handle.task().path, "/tmp/g");
    assert_eq!(handle.task().name, "user.old");
}

#[test]
fn a_deferred_list_comes_back_queued() {
    let handle = list_attributes(String::from("/tmp/h"));
    assert_eq!(handle.phase(), Phase::Queued);
    assert_eq!(handle.task().path, "/tmp/h");
}

#[test]
fn a_get_runs_its_course() {
    let mut handle = get_attribute(String::from("/tmp/f"), String::from("user.tag"));
    assert!(handle.start());
    assert_eq!(handle.phase(), Phase::Running);
    assert!(handle.compute(Ok(Some(vec![1, 2, 3]))));
    assert_eq!(handle.phase(), Phase::Completed);
    assert_eq!(handle.resolve(), Some(Ok(Some(vec![1, 2, 3]))));
    assert_eq!(handle.phase(), Phase::Resolved);
}

#[test]
fn a_get_of_nothing_completes_with_absence() {
    let mut handle = get_attribute(String::from("/tmp/f"), String::from("user.none"));
    assert!(handle.start());
    assert!(handle.compute(Ok(None)));
    assert_eq!(handle.phase(), Phase::Completed);
    assert_eq!(handle.resolve(), Some(Ok(None)));
}

#[test]
fn a_get_at_a_missing_path_completes_with_absence() {
    let mut handle = get_attribute(String::from("/nowhere"), String::from("user.tag"));
    assert!(handle.start());
    assert!(handle.compute(Err(missing(2, "No such file or directory (os error 2)"))));
    assert_eq!(handle.phase(), Phase::Completed);
    assert_eq!(handle.resolve(), Some(Ok(None)));
}

#[test]
fn a_get_that_met_a_failure_fails_and_is_resolved_with_the_error() {
    let mut handle = get_attribute(String::from("/root/f"), String::from("user.tag"));
    assert!(handle.start());
    assert!(handle.compute(Err(failure(13, "Permission denied (os error 13)"))));
    assert_eq!(handle.phase(), Phase::Failed);
    assert_eq!(
        handle.resolve(),
        Some(Err(Error {
            kind: ErrorKind::OsFailure(Some(13)),
            message: String::from("Permission denied (os error 13)"),
        }))
    );
    assert_eq!(handle.phase(), Phase::Resolved);
}

#[test]
fn a_set_runs_its_course() {
    let mut handle =
        set_attribute(String::from("/tmp/f"), String::from("user.tag"), AttributeValue::Bytes(vec![1, 2, 3]));
    assert!(handle.start());
    assert!(handle.compute(Ok(())));
    assert_eq!(handle.phase(), Phase::Completed);
    assert_eq!(handle.resolve(), Some(Ok(())));
    assert_eq!(handle.phase(), Phase::Resolved);
}

#[test]
fn a_set_that_met_a_failure_fails_and_is_resolved_with_the_error() {
    let mut handle =
        set_attribute(String::from("/tmp/f"), String::from("user.tag"), AttributeValue::Bytes(vec![1]));
    assert!(handle.start());
    assert!(handle.compute(Err(failure(95, "Operation not supported (os error 95)"))));
    assert_eq!(handle.phase(), Phase::Failed);
    assert_eq!(
        handle.resolve(),
        Some(Err(Error {
            kind: ErrorKind::OsFailure(Some(95)),
            message: String::from("Operation not supported (os error 95)"),
        }))
    );
    assert_eq!(handle.phase(), Phase::Resolved);
}

#[test]
fn a_remove_runs_its_course() {
    let mut handle = remove_attribute(String::from("/tmp/f"), String::from("user.tag"));
    assert!(handle.start());
    assert!(handle.compute(Ok(())));
    assert_eq!(handle.resolve(), Some(Ok(())));
}

#[test]
fn a_remove_that_met_a_failure_fails() {
    let mut handle = remove_attribute(String::from("/tmp/f"), String::from("user.tag"));
    assert!(handle.start());
    assert!(handle.compute(Err(failure(61, "No data available (os error 61)"))));
    assert_eq!(handle.phase(), Phase::Failed);
    assert_eq!(
        handle.resolve(),
        Some(Err(Error {
            kind: ErrorKind::OsFailure(Some(61)),
            message: String::from("No data available (os error 61)"),
        }))
    );
}

#[test]
fn a_list_runs_its_course() {
    let mut handle = list_attributes(String::from("/tmp/f"));
    assert!(handle.start());
    assert!(handle.compute(Ok(vec![raw(b"user.attr1", "1"), raw(b"user.attr2", "2")])));
    assert_eq!(handle.phase(), Phase::Completed);
    assert_eq!(
        handle.resolve(),
        Some(Ok(vec![String::from("user.attr1"), String::from("user.attr2")]))
    );
}

#[test]
fn a_list_with_an_invalid_name_fails_as_a_whole() {
    let mut handle = list_attributes(String::from("/tmp/f"));
    assert!(handle.start());
    assert!(handle.compute(Ok(vec![raw(b"user.attr1", "\"user.attr1\""), raw(&[0xff], "\"\\xFF\"")])));
    assert_eq!(handle.phase(), Phase::Failed);
    assert_eq!(
        handle.resolve(),
        Some(Err(Error { kind: ErrorKind::InvalidArgument, message: String::from("Invalid attribute: \"\\xFF\"") }))
    );
}

#[test]
fn a_task_cannot_be_queued_twice() {
    let mut handle = get_attribute(String::from("/tmp/f"), String::from("user.tag"));
    assert!(!handle.submit());
    assert_eq!(handle.phase(), Phase::Queued);
}

#[test]
fn a_task_that_was_not_queued_cannot_start() {
    let mut handle = AsyncTask::new(GetAttributeTask { path: String::from("/tmp/f"), name: String::from("user.tag") });
    assert!(!handle.start());
    assert_eq!(handle.phase(), Phase::Created);
    assert!(handle.submit());
    assert_eq!(handle.phase(), Phase::Queued);
    assert!(handle.start());
    assert!(!handle.start());
    assert_eq!(handle.phase(), Phase::Running);
}

#[test]
fn a_task_that_is_not_running_takes_no_answer() {
    let mut handle = get_attribute(String::from("/tmp/f"), String::from("user.tag"));
    assert!(!handle.compute(Ok(Some(vec![9]))));
    assert_eq!(handle.phase(), Phase::Queued);
    assert_eq!(handle.resolve(), None);
    assert_eq!(handle.phase(), Phase::Queued);
}

#[test]
fn a_task_takes_one_answer_only() {
    let mut handle = get_attribute(String::from("/tmp/f"), String::from("user.tag"));
    assert!(handle.start());
    assert!(handle.compute(Ok(Some(vec![1]))));
    assert!(!handle.compute(Ok(Some(vec![2]))));
    assert!(!handle.start());
    assert!(!handle.submit());
    assert_eq!(handle.resolve(), Some(Ok(Some(vec![1]))));
}

#[test]
fn a_failed_task_is_not_run_again() {
    let mut handle = remove_attribute(String::from("/tmp/f"), String::from("user.tag"));
    assert!(handle.start());
    assert!(handle.compute(Err(failure(13, "Permission denied (os error 13)"))));
    assert!(!handle.submit());
    assert!(!handle.start());
    assert!(!handle.compute(Ok(())));
    assert_eq!(handle.phase(), Phase::Failed);
    assert_eq!(
        handle.resolve(),
        Some(Err(Error {
            kind: ErrorKind::OsFailure(Some(13)),
            message: String::from("Permission denied (os error 13)"),
        }))
    );
}

#[test]
fn nothing_is_handed_over_before_the_task_is_done() {
    let mut handle = AsyncTask::new(GetAttributeTask { path: String::from("/tmp/f"), name: String::from("user.tag") });
    assert_eq!(handle.resolve(), None);
    assert_eq!(handle.phase(), Phase::Created);
    assert!(handle.submit());
    assert_eq!(handle.resolve(), None);
    assert!(handle.start());
    assert_eq!(handle.resolve(), None);
    assert_eq!(handle.phase(), Phase::Running);
}

#[test]
fn a_result_is_handed_over_once() {
    let mut handle = get_attribute(String::from("/tmp/f"), String::from("user.tag"));
    assert!(handle.start());
    assert!(handle.compute(Ok(Some(vec![7]))));
    assert_eq!(handle.resolve(), Some(Ok(Some(vec![7]))));
    assert_eq!(handle.resolve(), None);
    assert_eq!(handle.phase(), Phase::Resolved);
}

#[test]
fn a_resolved_task_takes_no_further_step() {
    let mut handle = set_attribute(String::from("/tmp/f"), String::from("user.tag"), AttributeValue::Bytes(vec![]));
    assert!(handle.start());
    assert!(handle.compute(Ok(())));
    assert_eq!(handle.resolve(), Some(Ok(())));
    assert!(!handle.submit());
    assert!(!handle.start());
    assert!(!handle.compute(Ok(())));
    assert_eq!(handle.resolve(), None);
    assert_eq!(handle.phase(), Phase::Resolved);
}

#[test]
fn deferred_and_blocking_get_agree() {
    let answers: Vec<fn() -> Result<Option<Vec<u8>>, OsError>> = vec![
        || Ok(Some(vec![1, 2, 3])),
        || Ok(None),
        || Err(OsError {
            code: Some(2),
            message: String::from("No such file or directory (os error 2)"),
            not_found: true,
        }),
        || Err(OsError {
            code: Some(13),
            message: String::from("Permission denied (os error 13)"),
            not_found: false,
        }),
    ];
    for answer in answers {
        let mut handle = get_attribute(String::from("/tmp/f"), String::from("user.tag"));
        assert!(handle.start());
        assert!(handle.compute(answer()));
        assert_eq!(handle.resolve(), Some(get_attribute_sync(answer())));
    }
}

#[test]
fn deferred_and_blocking_set_and_remove_agree() {
    let answers: Vec<fn() -> Result<(), OsError>> = vec![
        || Ok(()),
        || Err(OsError {
            code: Some(13),
            message: String::from("Permission denied (os error 13)"),
            not_found: false,
        }),
    ];
    for answer in answers {
        let mut set = set_attribute(String::from("/tmp/f"), String::from("user.tag"), AttributeValue::Bytes(vec![1]));
        assert!(set.start());
        assert!(set.compute(answer()));
        assert_eq!(set.resolve(), Some(set_attribute_sync(answer())));
        let mut remove = remove_attribute(String::from("/tmp/f"), String::from("user.tag"));
        assert!(remove.start());
        assert!(remove.compute(answer()));
        assert_eq!(remove.resolve(), Some(remove_attribute_sync(answer())));
    }
}

#[test]
fn deferred_and_blocking_list_agree() {
    let answers: Vec<fn() -> Result<Vec<RawName>, OsError>> = vec![
        || Ok(vec![]),
        || Ok(vec![
            RawName { bytes: b"user.b".to_vec(), description: String::from("b") },
            RawName { bytes: b"user.a".to_vec(), description: String::from("a") },
        ]),
        || Ok(vec![
            RawName { bytes: b"user.b".to_vec(), description: String::from("b") },
            RawName { bytes: vec![0xff], description: String::from("bad") },
        ]),
        || Err(OsError {
            code: Some(2),
            message: String::from("No such file or directory (os error 2)"),
            not_found: true,
        }),
    ];
    for answer in answers {
        let mut handle = list_attributes(String::from("/tmp/f"));
        assert!(handle.start());
        assert!(handle.compute(answer()));
        assert_eq!(handle.resolve(), Some(list_attributes_sync(answer())));
    }
}

#[test]
fn tasks_in_flight_do_not_touch_each_other() {
    let mut handles = Vec::new();
    for i in 0..8u8 {
        handles.push(get_attribute(format!("/tmp/f{}", i), format!("user.tag{}", i)));
    }
    for handle in handles.iter_mut().rev() {
        assert!(handle.start());
    }
    for (i, handle) in handles.iter_mut().enumerate() {
        if i % 2 == 1 {
            assert!(handle.compute(Ok(Some(vec![i as u8, 0xaa]))));
        }
    }
    for (i, handle) in handles.iter_mut().enumerate() {
        if i % 2 == 0 {
            assert!(handle.compute(Ok(Some(vec![i as u8, 0xaa]))));
        }
    }
    let mut results = Vec::new();
    for handle in handles.iter_mut().rev() {
        results.push((handle.task().path.clone(), handle.task().name.clone(), handle.resolve()));
    }
    assert_eq!(results.len(), 8);
    for (path, name, result) in results {
        let i: u8 = path[6..].parse().unwrap();
        assert_eq!(name, format!("user.tag{}", i));
        assert_eq!(result, Some(Ok(Some(vec![i, 0xaa]))));
    }
}

#[test]
fn set_get_remove_get_on_one_attribute() {
    let set = SetAttributeTask {
        path: String::from("/tmp/f"),
        name: String::from("user.tag"),
        value: AttributeValue::Bytes(vec![1, 2, 3]),
    };
    let request = set.request();
    assert_eq!(request, SetRequest { path: "/tmp/f", name: "user.tag", bytes: &[1, 2, 3] });
    let handed_to_the_store = request.bytes.to_vec();
    assert_eq!(set_attribute_sync(Ok(())), Ok(()));
    let get = GetAttributeTask { path: String::from("/tmp/f"), name: String::from("user.tag") };
    assert_eq!(get.request(), GetRequest { path: "/tmp/f", name: "user.tag" });
    assert_eq!(get_attribute_sync(Ok(Some(handed_to_the_store))), Ok(Some(vec![1, 2, 3])));
    let remove = RemoveAttributeTask { path: String::from("/tmp/f"), name: String::from("user.tag") };
    assert_eq!(remove.request(), RemoveRequest { path: "/tmp/f", name: "user.tag" });
    assert_eq!(remove_attribute_sync(Ok(())), Ok(()));
    assert_eq!(get_attribute_sync(Ok(None)), Ok(None));
}
