use media_sorter::bucket::TemporalBucket;
use media_sorter::media::MediaCategory;
use media_sorter::resolve::join_segment;
use media_sorter::resolve::resolve;
use media_sorter::resolve::resolve_dir;

fn bucket(year: &str, month: &str) -> TemporalBucket {
    TemporalBucket { year: year.to_string(), month: month.to_string() }
}

#[test]
fn resolves_image_for_alice() {
    let b = bucket("2023", "march");
    assert_eq!(
        resolve("root", MediaCategory::Image, "alice", &b, "a.jpg"),
        "root/pictures/alice/2023/march/a.jpg"
    );
}

#[test]
fn resolves_video_directory() {
    let b = bucket("2022", "july");
    assert_eq!(resolve_dir("/srv/archive", MediaCategory::Video, "bob", &b), "/srv/archive/videos/bob/2022/july");
}

#[test]
fn root_with_trailing_separator() {
    let b = bucket("2020", "may");
    assert_eq!(resolve("/", MediaCategory::Image, "c", &b, "x.png"), "/pictures/c/2020/may/x.png");
    assert_eq!(resolve("d/", MediaCategory::Image, "c", &b, "x.png"), "d/pictures/c/2020/may/x.png");
}

#[test]
fn join_rules() {
    assert_eq!(join_segment(&String::new(), "a"), "a");
    assert_eq!(join_segment(&"a".to_string(), "b"), "a/b");
    assert_eq!(join_segment(&"a/".to_string(), "b"), "a/b");
}
