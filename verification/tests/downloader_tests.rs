use p3get::{DownloadError, Downloader, P3Task};

#[test]
fn new_downloader_is_empty_and_serial() {
    let downloader = Downloader::new();
    assert_eq!(downloader.task_count(), 0);
    assert_eq!(downloader.parallelism(), 1);
    assert!(downloader.tasks().is_empty());
}

#[test]
fn default_downloader_is_empty_and_serial() {
    let downloader = Downloader::default();
    assert_eq!(downloader.task_count(), 0);
    assert_eq!(downloader.parallelism(), 1);
}

#[test]
fn add_task_appends_in_order() {
    let mut downloader = Downloader::new();
    downloader
        .add_task(P3Task::from_str("http://h/a", "/tmp/a"))
        .add_task(P3Task::from_str("http://h/b", "/tmp/b"));
    downloader.add_task(P3Task::from_str("http://h/c", "/tmp/c"));
    assert_eq!(downloader.task_count(), 3);
    assert_eq!(downloader.tasks()[0].url(), "http://h/a");
    assert_eq!(downloader.tasks()[1].path(), "/tmp/b");
    assert_eq!(downloader.tasks()[2].url(), "http://h/c");
}

#[test]
fn parallel_sets_the_cap() {
    let mut downloader = Downloader::new();
    downloader.parallel(4);
    assert_eq!(downloader.parallelism(), 4);
    assert_eq!(downloader.parallel(2).parallelism(), 2);
}

#[test]
fn parallel_zero_is_parallel_one() {
    let mut zero = Downloader::new();
    zero.parallel(5).parallel(0);
    let mut one = Downloader::new();
    one.parallel(1);
    assert_eq!(zero.parallelism(), 1);
    assert_eq!(zero.parallelism(), one.parallelism());
    zero.add_task(P3Task::from_str("http://h/a", "/tmp/a"));
    zero.add_task(P3Task::from_str("http://h/b", "/tmp/b"));
    let mut batch = zero.download();
    assert_eq!(batch.start_next(), Some(0));
    assert_eq!(batch.start_next(), None);
    assert!(batch.complete(0, Ok(())).is_some());
    assert_eq!(batch.start_next(), Some(1));
}

#[test]
fn from_pairs_keeps_order_and_defaults() {
    let pairs = vec![
        (String::from("http://h/a"), String::from("/tmp/a")),
        (String::from("http://h/b"), String::from("/tmp/b")),
    ];
    let downloader = Downloader::from_pairs(&pairs);
    assert_eq!(downloader.task_count(), 2);
    assert_eq!(downloader.parallelism(), 1);
    assert_eq!(downloader.tasks()[0].url(), "http://h/a");
    assert_eq!(downloader.tasks()[0].path(), "/tmp/a");
    assert_eq!(downloader.tasks()[1].url(), "http://h/b");
    assert_eq!(downloader.tasks()[1].path(), "/tmp/b");
}

#[test]
fn from_str_pairs_keeps_order_and_defaults() {
    let pairs = [("http://h/a", "/tmp/a"), ("http://h/b", "/tmp/b"), ("http://h/c", "/tmp/c")];
    let downloader = Downloader::from_str_pairs(&pairs);
    assert_eq!(downloader.task_count(), 3);
    assert_eq!(downloader.parallelism(), 1);
    assert_eq!(downloader.tasks()[2].url(), "http://h/c");
    assert_eq!(downloader.tasks()[2].path(), "/tmp/c");
}

#[test]
fn from_no_pairs_is_empty() {
    let none: [(&str, &str); 0] = [];
    assert_eq!(Downloader::from_str_pairs(&none).task_count(), 0);
    assert_eq!(Downloader::from_pairs(&[]).task_count(), 0);
}

#[test]
fn from_vec_of_tasks_keeps_them() {
    let tasks = vec![
        P3Task::from_str("http://h/a", "/tmp/a"),
        P3Task::from_str("http://h/b", "/tmp/b"),
    ];
    let downloader = Downloader::from(tasks);
    assert_eq!(downloader.task_count(), 2);
    assert_eq!(downloader.parallelism(), 1);
    assert_eq!(downloader.tasks()[1].url(), "http://h/b");
}

#[test]
fn download_schedules_every_task_under_the_cap() {
    let pairs = [("http://h/a", "/tmp/a"), ("http://h/b", "/tmp/b"), ("http://h/c", "/tmp/c")];
    let mut downloader = Downloader::from_str_pairs(&pairs);
    downloader.parallel(2);
    let mut batch = downloader.download();
    assert_eq!(batch.total_count(), 3);
    assert_eq!(batch.parallelism(), 2);
    assert_eq!(batch.completed_count(), 0);
    assert_eq!(batch.start_next(), Some(0));
    assert_eq!(batch.start_next(), Some(1));
    assert_eq!(batch.start_next(), None);
}

#[test]
fn download_of_nothing_is_finished() {
    let batch = Downloader::new().download();
    assert!(batch.is_finished());
    assert_eq!(batch.total_count(), 0);
}

#[test]
fn default_user_agent_is_fixed() {
    assert_eq!(Downloader::default_user_agent(), "hyper/0.14.16");
}

#[test]
fn settle_client_turns_a_failure_into_an_infrastructure_error() {
    let settled = Downloader::settle_client(Err(String::from("no tls backend")));
    match settled {
        Err(error) => {
            assert_eq!(error, DownloadError::Infrastructure(String::from("no tls backend")));
            assert!(!error.is_task_level());
        }
        Ok(_) => panic!("a failed build cannot yield a client"),
    }
}

#[test]
fn settle_client_keeps_a_built_client() {
    let built = reqwest::Client::builder().build();
    if let Ok(client) = built {
        assert!(Downloader::settle_client(Ok(client)).is_ok());
    }
}

#[test]
fn installed_client_is_the_one_used() {
    let built = reqwest::Client::builder().user_agent("p3get/0.0.1").build();
    if let Ok(client) = built {
        let mut downloader = Downloader::new();
        downloader.client(client).parallel(2);
        assert!(downloader.http_client().is_ok());
        assert_eq!(downloader.parallelism(), 2);
    }
}

#[test]
fn without_a_client_one_is_built_or_the_batch_fails() {
    match Downloader::new().http_client() {
        Ok(_) => {}
        Err(error) => assert!(matches!(error, DownloadError::Infrastructure(_))),
    }
}
