use shell_codegen::interpolate::{chars_of, format_str, split_markers};

#[test]
fn test_format_str() {
    assert_eq!(format_str("${a} aa ${b} bb ${cc}"), "{} aa {} bb {}, a, b, cc".to_string());
}

#[test]
fn split_gives_template_and_names_in_order() {
    let (template, names) = split_markers("${a} aa ${b} bb ${cc}");
    assert_eq!(template, "{} aa {} bb {}");
    assert_eq!(names, vec!["a".to_string(), "b".to_string(), "cc".to_string()]);
}

#[test]
fn text_without_markers_is_kept() {
    let (template, names) = split_markers("plain text, no markers");
    assert_eq!(template, "plain text, no markers");
    assert!(names.is_empty());
    assert_eq!(format_str("plain text, no markers"), "plain text, no markers");
}

#[test]
fn empty_text_is_kept() {
    let (template, names) = split_markers("");
    assert_eq!(template, "");
    assert!(names.is_empty());
    assert_eq!(format_str(""), "");
}

#[test]
fn repeated_names_are_all_kept() {
    let (template, names) = split_markers("${x}${x} and ${x}");
    assert_eq!(template, "{}{} and {}");
    assert_eq!(names, vec!["x".to_string(), "x".to_string(), "x".to_string()]);
    assert_eq!(format_str("${x}${x} and ${x}"), "{}{} and {}, x, x, x");
}

#[test]
fn open_marker_takes_the_rest_as_its_name() {
    let (template, names) = split_markers("echo ${name and more");
    assert_eq!(template, "echo {}");
    assert_eq!(names, vec!["name and more".to_string()]);
    assert_eq!(format_str("echo ${name and more"), "echo {}, name and more");
}

#[test]
fn open_marker_at_the_very_end() {
    let (template, names) = split_markers("a${");
    assert_eq!(template, "a{}");
    assert_eq!(names, vec!["".to_string()]);
}

#[test]
fn lone_dollar_and_lone_braces_are_copied() {
    let (template, names) = split_markers("cost: $5 {x} $ {y} $");
    assert_eq!(template, "cost: $5 {x} $ {y} $");
    assert!(names.is_empty());
}

#[test]
fn empty_name_and_inner_braces() {
    let (template, names) = split_markers("${}${a{b}c}");
    assert_eq!(template, "{}{}c}");
    assert_eq!(names, vec!["".to_string(), "a{b".to_string()]);
}

#[test]
fn marker_inside_a_name_is_part_of_the_name() {
    let (template, names) = split_markers("${a${b}}");
    assert_eq!(template, "{}}");
    assert_eq!(names, vec!["a${b".to_string()]);
}

#[test]
fn characters_outside_ascii_are_kept() {
    let (template, names) = split_markers("é ${ñ} ü");
    assert_eq!(template, "é {} ü");
    assert_eq!(names, vec!["ñ".to_string()]);
    assert_eq!(chars_of("é${"), vec!['é', '$', '{']);
}

#[test]
fn first_marker_splits_the_text() {
    let before = "cp $HOME/{x} ";
    let name = "src";
    let rest = " ${dst} # ${";
    let whole = format!("{}${{{}}}{}", before, name, rest);
    assert_eq!(whole, "cp $HOME/{x} ${src} ${dst} # ${");
    let (template, names) = split_markers(&whole);
    let (rest_template, rest_names) = split_markers(rest);
    assert_eq!(rest_template, " {} # {}");
    assert_eq!(rest_names, vec!["dst".to_string(), "".to_string()]);
    assert_eq!(template, format!("{}{{}}{}", before, rest_template));
    assert_eq!(template, "cp $HOME/{x} {} {} # {}");
    assert_eq!(names, vec!["src".to_string(), "dst".to_string(), "".to_string()]);
}
