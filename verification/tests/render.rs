use tess::render::render_feed;

#[test]
fn each_post_gets_a_blank_line_prefix() {
    let posts = vec![String::from("first"), String::from("second")];
    assert_eq!(render_feed(&posts), "\nfirst\n\nsecond\n");
}

#[test]
fn posts_come_out_in_the_order_received() {
    let posts = vec![String::from("a"), String::from("b"), String::from("c")];
    let out = render_feed(&posts);
    assert_eq!(out, "\na\n\nb\n\nc\n");
    let a = out.find('a').unwrap();
    let b = out.find('b').unwrap();
    let c = out.find('c').unwrap();
    assert!(a < b && b < c);
}

#[test]
fn an_empty_page_renders_nothing() {
    let posts: Vec<String> = Vec::new();
    assert_eq!(render_feed(&posts), "");
}

#[test]
fn a_single_post_renders_one_entry() {
    let posts = vec![String::from("only")];
    assert_eq!(render_feed(&posts), "\nonly\n");
}

#[test]
fn entry_count_matches_post_count() {
    let posts = vec![
        String::from("p1"),
        String::from("p2"),
        String::from("p3"),
        String::from("p4"),
        String::from("p5"),
    ];
    let out = render_feed(&posts);
    // Each of the N posts contributes its separator line: the rendering
    // of N posts holds exactly N blank-line-prefixed entries.
    let entries = out.split("\n\n").count();
    assert_eq!(entries, posts.len());
}
