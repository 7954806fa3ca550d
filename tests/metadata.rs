use audio_player::opus::{split_comment, Tags as CommentTags};
use audio_player::tags::join_values;
use audio_player::Tags;

fn v(xs: &[&str]) -> Vec<String> {
    xs.iter().map(|x| x.to_string()).collect()
}

#[test]
fn empty_tags() {
    let t = Tags::empty();
    assert_eq!(t.artist(), "");
    assert_eq!(t.album(), "");
    assert_eq!(t.title(), "");
}

#[test]
fn tags_from_multiple_values() {
    let t = Tags::from_values(&v(&["A", "B"]), &v(&["Live", "2001"]), &v(&["One"]));
    assert_eq!(t.artist(), "A, B");
    assert_eq!(t.album(), "Live 2001");
    assert_eq!(t.title(), "One");
    let d = t.duplicate();
    assert_eq!(d.artist(), "A, B");
    let none = Tags::from_values(&v(&[]), &v(&[]), &v(&[]));
    assert_eq!(none.artist(), "");
}

#[test]
fn join_edges() {
    assert_eq!(join_values(&v(&[]), ", "), "");
    assert_eq!(join_values(&v(&["x"]), ", "), "x");
    assert_eq!(join_values(&v(&["x", "", "z"]), "-"), "x--z");
}

#[test]
fn comment_splitting() {
    assert_eq!(split_comment("TITLE=Illustrated Man"), Some(("TITLE".to_string(), "Illustrated Man".to_string())));
    assert_eq!(split_comment("album="), Some(("album".to_string(), String::new())));
    assert_eq!(split_comment("no separator"), None);
    assert_eq!(split_comment("a=b=c"), None);
}

#[test]
fn comment_tags_lookup() {
    let t = CommentTags::new(&v(&["title=Illustrated Man", "ARTIST=X", "Artist=Y", "album=Z"])).unwrap();
    assert_eq!(t.get_tag("title"), vec!["Illustrated Man".to_string()]);
    assert_eq!(t.get_tag("artist"), v(&["X", "Y"]));
    assert_eq!(t.get_tag("Album"), v(&["Z"]));
    assert!(t.get_tag("genre").is_empty());
    assert_eq!(t.values_for("ARTIST"), v(&["X", "Y"]));
    assert!(t.values_for("artist").is_empty());
    let tags = Tags::from_values(&t.get_tag("artist"), &t.get_tag("album"), &t.get_tag("title"));
    assert_eq!(tags.artist(), "X, Y");
}

#[test]
fn malformed_comment_gives_no_tags() {
    assert!(CommentTags::new(&v(&["title=a", "broken"])).is_none());
    assert!(CommentTags::new(&v(&[])).unwrap().get_tag("title").is_empty());
}
