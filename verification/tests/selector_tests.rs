use probranchinator::BranchTip;
use probranchinator::select_from_tips;

fn tip(name: &str, time: i64) -> BranchTip {
    BranchTip {
        name: Some(name.to_string()),
        time: Some(time),
    }
}

#[test]
fn test_selector_drops_alias_and_unresolved() {
    let tips = vec![
        tip("origin/HEAD", 500),
        BranchTip {
            name: None,
            time: Some(400),
        },
        BranchTip {
            name: Some("origin/unreadable-tip".to_string()),
            time: None,
        },
        tip("origin/master", 100),
    ];
    let names = select_from_tips(tips, 10);
    assert_eq!(names, vec!["master".to_string()]);
}

#[test]
fn test_selector_most_recent_first() {
    let tips = vec![
        tip("origin/oldest", 10),
        tip("origin/newest", 30),
        tip("origin/middle", 20),
    ];
    let names = select_from_tips(tips, 10);
    assert_eq!(
        names,
        vec![
            "newest".to_string(),
            "middle".to_string(),
            "oldest".to_string()
        ]
    );
}

#[test]
fn test_selector_limit_keeps_newest() {
    let tips = vec![
        tip("origin/oldest", 10),
        tip("origin/newest", 30),
        tip("origin/middle", 20),
    ];
    let names = select_from_tips(tips, 2);
    assert_eq!(names, vec!["newest".to_string(), "middle".to_string()]);
    let none = select_from_tips(
        vec![tip("origin/oldest", 10), tip("origin/newest", 30)],
        0,
    );
    assert_eq!(none, Vec::<String>::new());
}

#[test]
fn test_selector_strips_only_the_remote_prefix() {
    let tips = vec![
        tip("origin/feature", 40),
        tip("bare-name", 30),
        tip("origin/origin/nested", 20),
        tip("short", 10),
    ];
    let names = select_from_tips(tips, 10);
    assert_eq!(
        names,
        vec![
            "feature".to_string(),
            "bare-name".to_string(),
            "origin/nested".to_string(),
            "short".to_string()
        ]
    );
}

#[test]
fn test_selector_equal_timestamps_keep_reported_order() {
    let tips = vec![
        tip("origin/first", 20),
        tip("origin/second", 20),
        tip("origin/third", 20),
    ];
    let names = select_from_tips(tips, 10);
    assert_eq!(
        names,
        vec![
            "first".to_string(),
            "second".to_string(),
            "third".to_string()
        ]
    );
}
