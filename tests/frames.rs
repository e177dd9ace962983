use kobold::frames::{latest_frame, parse_frame_name};

fn names(list: &[&str]) -> Vec<String> {
    list.iter().map(|s| s.to_string()).collect()
}

#[test]
fn frame_names_parse() {
    assert_eq!(parse_frame_name("frame_0.png"), Some(0));
    assert_eq!(parse_frame_name("frame_42.png"), Some(42));
    assert_eq!(parse_frame_name("frame_007.png"), Some(7));
    assert_eq!(parse_frame_name("frame_4294967295.png"), Some(u32::MAX));
    assert_eq!(parse_frame_name("frame_4294967296.png"), None);
    assert_eq!(parse_frame_name("frame_.png"), None);
    assert_eq!(parse_frame_name("frame_1.jpg"), None);
    assert_eq!(parse_frame_name("frame_1a.png"), None);
    assert_eq!(parse_frame_name("shot_1.png"), None);
    assert_eq!(parse_frame_name("frame_12.png.tmp"), None);
}

#[test]
fn latest_frame_takes_the_highest() {
    let list = names(&["frame_3.png", "notes.txt", "frame_10.png", "frame_9.png"]);
    assert_eq!(latest_frame(&list), Some((10, 2)));
    assert_eq!(latest_frame(&names(&["a.png", "frame_x.png"])), None);
    assert_eq!(latest_frame(&Vec::new()), None);
}

#[test]
fn latest_frame_first_of_equal_indices() {
    let list = names(&["frame_5.png", "frame_05.png"]);
    assert_eq!(latest_frame(&list), Some((5, 0)));
}

#[test]
fn latest_frame_never_drops_as_frames_are_added() {
    let mut list = names(&["frame_1.png", "frame_2.png"]);
    let first = latest_frame(&list).unwrap().0;
    list.push("frame_3.png".to_string());
    list.insert(0, "frame_0.png".to_string());
    let second = latest_frame(&list).unwrap().0;
    assert!(second >= first);
    assert_eq!(second, 3);
}
