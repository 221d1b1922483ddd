use midjourney_prompt::algorithm::Algorithm;
use midjourney_prompt::aspect::Aspect;
use midjourney_prompt::prompt::{Axis, Prompt, DEFAULT_STYLIZE, MAX_STYLIZE, MIN_STYLIZE};

const AXES: [Axis; 5] = [Axis::Style, Axis::Color, Axis::Body, Axis::Hair, Axis::Pose];

fn texts(items: &[&str]) -> Vec<String> {
    items.iter().map(|s| s.to_string()).collect()
}

fn with_text(text: &str) -> Prompt {
    let mut p = Prompt::default();
    p.set_text(text.to_string());
    p
}

#[test]
fn initial_configuration() {
    let p = Prompt::default();
    assert_eq!(p.text(), "");
    assert_eq!(p.axis(Axis::Style).options(), &texts(&["ultra realistic", "lo-fi anime"]));
    assert_eq!(
        p.axis(Axis::Color).options(),
        &texts(&["vibrant", "muted", "grayscale", "high contrast"])
    );
    assert_eq!(p.axis(Axis::Body).options(), &texts(&["feminine", "masculine"]));
    assert_eq!(
        p.axis(Axis::Hair).options(),
        &texts(&["blonde", "brown", "black", "red", "light brown"])
    );
    assert_eq!(p.axis(Axis::Pose).options(), &texts(&["dynamic", "relaxed", "confident"]));
    for axis in AXES {
        assert_eq!(p.axis(axis).current(), &None);
    }
    assert_eq!(
        p.themes().entries(),
        &vec![("cyberpunk".to_string(), false), ("steampunk".to_string(), false)]
    );
    assert_eq!(p.algorithm(), Algorithm::V3);
    assert_eq!(p.aspect(), Aspect::Square);
    assert_eq!(p.stylize(), 2500);
    assert!(!p.use_seed());
    assert_eq!(p.seed(), 0);
    assert!(!p.video());
    assert!(p.copy_on_change());
    assert_eq!(p.copied_command(), "");
}

#[test]
fn stylize_bounds() {
    assert_eq!(DEFAULT_STYLIZE, 2500);
    assert_eq!(MIN_STYLIZE, 625);
    assert_eq!(MAX_STYLIZE, 60000);
}

#[test]
fn bare_command_is_prefix_and_trimmed_text() {
    assert_eq!(with_text("a knight").command(), "/imagine prompt: a knight");
    assert_eq!(with_text("  a   knight \n").command(), "/imagine prompt: a   knight");
}

#[test]
fn bare_command_of_blank_text_is_the_prefix() {
    assert_eq!(Prompt::default().command(), "/imagine prompt: ");
    assert_eq!(with_text(" \t ").command(), "/imagine prompt: ");
}

#[test]
fn bare_command_ignores_switched_off_themes_and_unselected_options() {
    let mut p = with_text("a knight");
    p.themes_mut().add();
    p.themes_mut().edit_label(2, "noir".to_string());
    p.themes_mut().toggle(2);
    p.axis_mut(Axis::Style).add_option();
    assert_eq!(p.command(), "/imagine prompt: a knight");
}

#[test]
fn compiling_twice_gives_the_same_command() {
    let mut p = with_text(" a knight ");
    p.axis_mut(Axis::Hair).select(Some("red".to_string()));
    p.themes_mut().toggle(1);
    p.set_stylize(700);
    p.set_use_seed(true);
    let first = p.command();
    let second = p.command();
    assert_eq!(first, second);
    assert_eq!(first, "/imagine prompt: a knight, red hair, steampunk --stylize 700 --sameseed 0");
}

#[test]
fn command_does_not_depend_on_the_copy_report() {
    let mut p = with_text("a knight");
    let before = p.command();
    p.record_copy(Ok(()));
    p.set_copy_on_change(false);
    assert_eq!(p.command(), before);
}

#[test]
fn end_to_end_example() {
    let mut p = with_text("a knight");
    p.axis_mut(Axis::Body).select(Some("feminine".to_string()));
    p.themes_mut().toggle(0);
    assert_eq!(
        p.themes().entries(),
        &vec![("cyberpunk".to_string(), true), ("steampunk".to_string(), false)]
    );
    assert_eq!(p.command(), "/imagine prompt: a knight, feminine body, cyberpunk");
}

#[test]
fn every_segment_in_its_place() {
    let mut p = with_text(" a knight ");
    p.axis_mut(Axis::Style).select(Some("lo-fi anime".to_string()));
    p.axis_mut(Axis::Color).select(Some("high contrast".to_string()));
    p.axis_mut(Axis::Body).select(Some("masculine".to_string()));
    p.axis_mut(Axis::Hair).select(Some("light brown".to_string()));
    p.axis_mut(Axis::Pose).select(Some("confident".to_string()));
    p.themes_mut().toggle(1);
    p.themes_mut().toggle(0);
    p.set_stylize(1250);
    p.set_aspect(Aspect::Wide);
    p.set_video(true);
    p.set_use_seed(true);
    p.set_seed(4294967295);
    p.set_algorithm(Algorithm::TestPhoto);
    assert_eq!(
        p.command(),
        "/imagine prompt: a knight, lo-fi anime, masculine body, light brown hair, \
         confident pose, cyberpunk, steampunk, high contrast colors \
         --stylize 1250 --ar 3:2 --video --sameseed 4294967295 --testp"
    );
}

#[test]
fn each_axis_has_its_suffix() {
    let cases = [
        (Axis::Style, "ultra realistic", "/imagine prompt: x, ultra realistic"),
        (Axis::Body, "feminine", "/imagine prompt: x, feminine body"),
        (Axis::Hair, "black", "/imagine prompt: x, black hair"),
        (Axis::Pose, "dynamic", "/imagine prompt: x, dynamic pose"),
        (Axis::Color, "muted", "/imagine prompt: x, muted colors"),
    ];
    for (axis, value, expected) in cases {
        let mut p = with_text("x");
        p.axis_mut(axis).select(Some(value.to_string()));
        assert_eq!(p.command(), expected);
    }
}

#[test]
fn themes_stand_in_storage_order() {
    let mut p = with_text("x");
    p.themes_mut().edit_label(0, "zebra".to_string());
    p.themes_mut().edit_label(1, "apple".to_string());
    p.themes_mut().add();
    p.themes_mut().edit_label(2, " mango ".to_string());
    p.themes_mut().toggle(0);
    p.themes_mut().toggle(1);
    assert_eq!(p.command(), "/imagine prompt: x, zebra, apple, mango");
    p.themes_mut().toggle(1);
    assert_eq!(p.command(), "/imagine prompt: x, zebra, mango");
    p.themes_mut().remove(0);
    p.themes_mut().toggle(0);
    assert_eq!(p.command(), "/imagine prompt: x, apple, mango");
}

#[test]
fn blank_themes_add_nothing() {
    let mut p = with_text("x");
    p.themes_mut().add();
    p.themes_mut().add();
    p.themes_mut().edit_label(3, "   ".to_string());
    assert_eq!(p.command(), "/imagine prompt: x");
}

#[test]
fn stale_selection_adds_nothing() {
    let mut p = with_text("x");
    p.axis_mut(Axis::Body).select(Some("feminine".to_string()));
    p.axis_mut(Axis::Body).edit_option(0, "androgynous".to_string());
    assert_eq!(p.command(), "/imagine prompt: x");
    p.axis_mut(Axis::Body).select(Some("androgynous".to_string()));
    assert_eq!(p.command(), "/imagine prompt: x, androgynous body");
    p.axis_mut(Axis::Body).remove_option(0);
    assert_eq!(p.command(), "/imagine prompt: x");
}

#[test]
fn default_stylize_is_left_out() {
    let mut p = with_text("x");
    p.set_stylize(2500);
    assert_eq!(p.command(), "/imagine prompt: x");
    p.set_stylize(2501);
    assert_eq!(p.command(), "/imagine prompt: x --stylize 2501");
    p.reset_stylize();
    assert_eq!(p.stylize(), 2500);
    assert_eq!(p.command(), "/imagine prompt: x");
}

#[test]
fn other_stylize_values_stand_verbatim() {
    for value in [625u32, 626, 1000, 2499, 2501, 20000, 59999, 60000] {
        let mut p = with_text("x");
        p.set_stylize(value);
        assert_eq!(p.stylize(), value);
        assert_eq!(p.command(), format!("/imagine prompt: x --stylize {}", value));
    }
}

#[test]
fn stylize_is_brought_into_its_range() {
    let mut p = Prompt::default();
    p.set_stylize(0);
    assert_eq!(p.stylize(), 625);
    p.set_stylize(624);
    assert_eq!(p.stylize(), 625);
    p.set_stylize(60001);
    assert_eq!(p.stylize(), 60000);
    p.set_stylize(u32::MAX);
    assert_eq!(p.stylize(), 60000);
    assert_eq!(p.command(), "/imagine prompt:  --stylize 60000");
}

#[test]
fn v3_is_left_out_and_other_algorithms_are_named() {
    let mut p = with_text("x");
    p.set_algorithm(Algorithm::V3);
    assert_eq!(p.command(), "/imagine prompt: x");
    p.set_algorithm(Algorithm::Test);
    assert_eq!(p.command(), "/imagine prompt: x --test");
    p.set_algorithm(Algorithm::TestPhoto);
    assert_eq!(p.command(), "/imagine prompt: x --testp");
}

#[test]
fn square_is_left_out_and_other_aspects_give_their_ratio() {
    let cases = [
        (Aspect::Square, "/imagine prompt: x"),
        (Aspect::Portrait, "/imagine prompt: x --ar 2:3"),
        (Aspect::Landscape, "/imagine prompt: x --ar 3:2"),
        (Aspect::Tall, "/imagine prompt: x --ar 1:2"),
        (Aspect::Wide, "/imagine prompt: x --ar 16:9"),
        (Aspect::UltraWide, "/imagine prompt: x --ar 21:9"),
    ];
    for (aspect, expected) in cases {
        let mut p = with_text("x");
        p.set_aspect(aspect);
        assert_eq!(p.aspect(), aspect);
        assert_eq!(p.command(), expected);
    }
}

#[test]
fn seed_is_written_only_when_in_use_even_when_zero() {
    let mut p = with_text("x");
    p.set_seed(77);
    assert_eq!(p.command(), "/imagine prompt: x");
    p.set_use_seed(true);
    assert_eq!(p.command(), "/imagine prompt: x --sameseed 77");
    p.set_seed(0);
    assert_eq!(p.command(), "/imagine prompt: x --sameseed 0");
    p.set_use_seed(false);
    assert_eq!(p.command(), "/imagine prompt: x");
}

#[test]
fn video_flag() {
    let mut p = with_text("x");
    p.set_video(true);
    assert!(p.video());
    assert_eq!(p.command(), "/imagine prompt: x --video");
    p.set_video(false);
    assert_eq!(p.command(), "/imagine prompt: x");
}

#[test]
fn text_is_not_escaped() {
    let p = with_text(" a, b --ar 1:1 \"q\" ");
    assert_eq!(p.command(), "/imagine prompt: a, b --ar 1:1 \"q\"");
}

#[test]
fn setters_change_one_field() {
    let mut p = Prompt::default();
    p.set_text("t".to_string());
    p.set_seed(5);
    p.set_use_seed(true);
    p.set_video(true);
    p.set_copy_on_change(false);
    p.set_aspect(Aspect::Tall);
    assert_eq!(p.text(), "t");
    assert_eq!(p.seed(), 5);
    assert!(p.use_seed());
    assert!(p.video());
    assert!(!p.copy_on_change());
    assert_eq!(p.aspect(), Aspect::Tall);
    assert_eq!(p.algorithm(), Algorithm::V3);
    assert_eq!(p.stylize(), 2500);
}

#[test]
fn axis_mut_reaches_the_axis_of_that_name_only() {
    for axis in AXES {
        let mut p = Prompt::default();
        p.axis_mut(axis).add_option();
        for other in AXES {
            let grown = p.axis(other).options().last() == Some(&String::new());
            assert_eq!(grown, other == axis);
        }
    }
}

#[test]
fn copy_is_never_due_without_text() {
    let mut p = with_text("  ");
    assert!(!p.copy_enabled());
    assert!(!p.copy_due("anything else", true));
    p.set_copy_on_change(false);
    assert!(!p.copy_due("anything else", true));
}

#[test]
fn copy_on_change_is_due_when_the_command_differs() {
    let p = with_text("a knight");
    assert!(p.copy_enabled());
    assert!(p.copy_due("/imagine prompt: a knigh", false));
    assert!(!p.copy_due("/imagine prompt: a knight", false));
    assert!(!p.copy_due("/imagine prompt: a knight", true));
}

#[test]
fn copy_on_request_is_due_when_asked() {
    let mut p = with_text("a knight");
    p.set_copy_on_change(false);
    assert!(p.copy_due("/imagine prompt: a knight", true));
    assert!(!p.copy_due("/imagine prompt: a knight", false));
    assert!(!p.copy_due("something else", false));
}

#[test]
fn record_copy_reports_the_command_or_the_failure() {
    let mut p = with_text("a knight");
    p.set_video(true);
    p.record_copy(Ok(()));
    assert_eq!(p.copied_command(), "copied command:\n/imagine prompt: a knight --video");
    p.record_copy(Err("clipboard is busy".to_string()));
    assert_eq!(p.copied_command(), "error copying command: clipboard is busy");
    assert_eq!(p.text(), "a knight");
    assert!(p.video());
}
