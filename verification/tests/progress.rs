use openmc_lite::download_svc::DownloadProgressMessage::{End, Setup, Update};
use openmc_lite::download_svc::{
    download_targets, file_name_of, is_complete_trace, DownloadProgress, DownloadProgressMessage,
};

#[test]
fn a_fresh_reporter_has_counted_nothing() {
    let p = DownloadProgress::new();
    assert_eq!(p.current(), 0);
    assert_eq!(p.total(), 0);
}

#[test]
fn worker_reports_make_a_complete_trace() {
    let mut p = DownloadProgress::new();
    let mut seen = Vec::new();
    seen.push(p.setup(1000));
    for chunk in [500u64, 0, 300, 200] {
        assert!(p.can_count(chunk));
        if let Some(m) = p.progress(chunk) {
            seen.push(m);
        }
    }
    seen.push(p.done());
    assert_eq!(
        seen,
        vec![
            DownloadProgressMessage::Setup(1000),
            DownloadProgressMessage::Update(500, 1000),
            DownloadProgressMessage::Update(800, 1000),
            DownloadProgressMessage::Update(1000, 1000),
            DownloadProgressMessage::End,
        ]
    );
    assert!(is_complete_trace(&seen));
    assert_eq!(p.current(), 1000);
    assert_eq!(p.total(), 1000);
}

#[test]
fn an_empty_chunk_is_counted_but_not_announced() {
    let mut p = DownloadProgress::new();
    p.setup(10);
    assert_eq!(p.progress(4), Some(DownloadProgressMessage::Update(4, 10)));
    assert_eq!(p.progress(0), None);
    assert_eq!(p.current(), 4);
}

#[test]
fn setup_keeps_what_was_counted() {
    let mut p = DownloadProgress::new();
    p.setup(10);
    p.progress(7);
    assert_eq!(p.setup(20), DownloadProgressMessage::Setup(20));
    assert_eq!(p.current(), 7);
    assert_eq!(p.progress(1), Some(DownloadProgressMessage::Update(8, 20)));
}

#[test]
fn can_count_guards_the_sixty_four_bits() {
    let mut p = DownloadProgress::new();
    p.setup(u64::MAX);
    assert!(p.can_count(u64::MAX));
    p.progress(u64::MAX - 1);
    assert!(p.can_count(1));
    assert!(!p.can_count(2));
    assert_eq!(p.progress(1), Some(DownloadProgressMessage::Update(u64::MAX, u64::MAX)));
    assert!(p.can_count(0));
    assert!(!p.can_count(1));
}

#[test]
fn file_name_is_what_follows_the_last_slash() {
    assert_eq!(
        file_name_of("https://minecraftfaces.com/wp-content/bigfaces/big-allay-face.png"),
        "big-allay-face.png"
    );
    assert_eq!(file_name_of("plain.png"), "plain.png");
    assert_eq!(file_name_of("folder/"), "");
    assert_eq!(file_name_of(""), "");
    assert_eq!(file_name_of("a/b/Bottle_o'_Enchanting_JE2_BE2.png"), "Bottle_o'_Enchanting_JE2_BE2.png");
}

#[test]
fn download_targets_pair_each_address_with_its_file_name() {
    let urls = vec!["https://host/a/one.png".to_string(), "https://host/two.png".to_string()];
    assert_eq!(
        download_targets(&urls),
        vec![
            ("https://host/a/one.png".to_string(), "one.png".to_string()),
            ("https://host/two.png".to_string(), "two.png".to_string()),
        ]
    );
    assert!(download_targets(&Vec::new()).is_empty());
}

#[test]
fn complete_traces_are_recognised() {
    assert!(is_complete_trace(&vec![Setup(0), End]));
    assert!(is_complete_trace(&vec![Setup(1000), Update(500, 1000), Update(1000, 1000), End]));
    assert!(is_complete_trace(&vec![Setup(10), Update(3, 10), Update(3, 10), End]));
    assert!(!is_complete_trace(&vec![]));
    assert!(!is_complete_trace(&vec![End]));
    assert!(!is_complete_trace(&vec![Setup(10)]));
    assert!(!is_complete_trace(&vec![End, Setup(10)]));
    assert!(!is_complete_trace(&vec![Setup(10), Update(11, 10), End]));
    assert!(!is_complete_trace(&vec![Setup(10), Update(5, 9), End]));
    assert!(!is_complete_trace(&vec![Setup(10), Update(5, 10), Update(4, 10), End]));
    assert!(!is_complete_trace(&vec![Setup(10), Setup(10), End]));
    assert!(!is_complete_trace(&vec![Setup(10), End, End]));
    assert!(!is_complete_trace(&vec![Setup(10), Update(5, 10), End, Update(6, 10)]));
    assert!(!is_complete_trace(&vec![Update(1, 10), Update(5, 10), End]));
}
