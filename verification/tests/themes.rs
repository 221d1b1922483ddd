use midjourney_prompt::themes::Themes;

fn entries(items: &[(&str, bool)]) -> Vec<(String, bool)> {
    items.iter().map(|(label, on)| (label.to_string(), *on)).collect()
}

#[test]
fn new_list_holds_its_entries_in_order() {
    let t = Themes::new(entries(&[("cyberpunk", false), ("steampunk", true)]));
    assert_eq!(t.entries(), &entries(&[("cyberpunk", false), ("steampunk", true)]));
    let e = Themes::new(Vec::new());
    assert!(e.entries().is_empty());
    assert!(e.render().is_empty());
    assert_eq!(e.summary(), "");
}

#[test]
fn add_appends_an_empty_entry_that_is_switched_on() {
    let mut t = Themes::new(entries(&[("a", false)]));
    t.add();
    assert_eq!(t.entries(), &entries(&[("a", false), ("", true)]));
    assert!(t.render().is_empty());
}

#[test]
fn remove_takes_the_entry_at_the_index_out() {
    let mut t = Themes::new(entries(&[("a", true), ("b", true), ("c", true)]));
    t.remove(1);
    assert_eq!(t.entries(), &entries(&[("a", true), ("c", true)]));
    t.remove(2);
    assert_eq!(t.entries(), &entries(&[("a", true), ("c", true)]));
    t.remove(0);
    t.remove(0);
    assert!(t.entries().is_empty());
    t.remove(0);
    assert!(t.entries().is_empty());
}

#[test]
fn toggle_switches_one_entry() {
    let mut t = Themes::new(entries(&[("a", false), ("b", true)]));
    t.toggle(0);
    assert_eq!(t.entries(), &entries(&[("a", true), ("b", true)]));
    t.toggle(1);
    assert_eq!(t.entries(), &entries(&[("a", true), ("b", false)]));
    t.toggle(0);
    assert_eq!(t.entries(), &entries(&[("a", false), ("b", false)]));
    t.toggle(2);
    assert_eq!(t.entries(), &entries(&[("a", false), ("b", false)]));
}

#[test]
fn edit_label_replaces_in_place_and_keeps_the_switch() {
    let mut t = Themes::new(entries(&[("a", false), ("b", true), ("c", true)]));
    t.edit_label(1, "noir".to_string());
    assert_eq!(t.entries(), &entries(&[("a", false), ("noir", true), ("c", true)]));
    t.edit_label(0, "x".to_string());
    assert_eq!(t.entries(), &entries(&[("x", false), ("noir", true), ("c", true)]));
    t.edit_label(3, "y".to_string());
    assert_eq!(t.entries(), &entries(&[("x", false), ("noir", true), ("c", true)]));
    assert_eq!(t.render(), vec!["noir", "c"]);
}

#[test]
fn render_keeps_storage_order() {
    let t = Themes::new(entries(&[("steampunk", true), ("cyberpunk", true), ("art deco", true)]));
    assert_eq!(t.render(), vec!["steampunk", "cyberpunk", "art deco"]);
    let mut out = String::new();
    t.push_segments(&mut out);
    assert_eq!(out, ", steampunk, cyberpunk, art deco");
}

#[test]
fn render_leaves_out_entries_that_are_off_or_blank() {
    let t = Themes::new(entries(&[
        ("z", true),
        ("off", false),
        ("", true),
        ("  \t", true),
        (" a ", true),
        ("z", true),
        ("", false),
    ]));
    assert_eq!(t.render(), vec!["z", "a", "z"]);
    assert_eq!(t.summary(), "z, a, z");
    let mut out = String::from("x");
    t.push_segments(&mut out);
    assert_eq!(out, "x, z, a, z");
}

#[test]
fn render_trims_labels_and_keeps_inner_white_space() {
    let t = Themes::new(entries(&[("  art   deco \n", true)]));
    assert_eq!(t.render(), vec!["art   deco"]);
}

#[test]
fn segments_of_a_list_are_those_of_its_parts_in_order() {
    let front = entries(&[("b", true), ("", true), ("a", false)]);
    let rest = entries(&[("c", true), ("a", true)]);
    let mut whole = front.clone();
    whole.extend(rest.clone());
    let mut expected = String::new();
    Themes::new(front).push_segments(&mut expected);
    Themes::new(rest).push_segments(&mut expected);
    let mut got = String::new();
    Themes::new(whole).push_segments(&mut got);
    assert_eq!(got, expected);
    assert_eq!(got, ", b, c, a");
}

#[test]
fn summary_of_a_single_label_has_no_separator() {
    let t = Themes::new(entries(&[("off", false), (" noir ", true)]));
    assert_eq!(t.summary(), "noir");
}

#[test]
fn clone_of_themes_holds_the_same() {
    let mut t = Themes::new(entries(&[("a", true), ("b", false)]));
    let c = t.clone();
    t.toggle(1);
    t.add();
    assert_eq!(c.entries(), &entries(&[("a", true), ("b", false)]));
}
