use wsr_image::options::parse_run_options;
use wsr_image::options::UsageError;

fn args(list: &[&str]) -> Vec<String> {
    list.iter().map(|a| a.to_string()).collect()
}

#[test]
fn no_arguments_is_a_usage_error() {
    let r = parse_run_options(Vec::new());
    assert_eq!(r.unwrap_err(), UsageError::MissingInputPath);
}

#[test]
fn one_argument_is_a_usage_error() {
    let r = parse_run_options(args(&["archive.mht"]));
    assert_eq!(r.unwrap_err(), UsageError::MissingOutputDirectory);
}

#[test]
fn two_arguments_parse_without_preview() {
    let o = parse_run_options(args(&["archive.mht", "/out"])).unwrap();
    assert_eq!(o.file_path, "archive.mht");
    assert_eq!(o.output_directory, "/out");
    assert!(!o.is_preview);
}

#[test]
fn preview_flag_is_recognized() {
    let o = parse_run_options(args(&["archive.mht", "/out", "--preview"])).unwrap();
    assert!(o.is_preview);
}

#[test]
fn other_third_argument_is_not_preview() {
    let o = parse_run_options(args(&["archive.mht", "/out", "--verbose"])).unwrap();
    assert!(!o.is_preview);
}

#[test]
fn arguments_beyond_the_third_are_ignored() {
    let o = parse_run_options(args(&["archive.mht", "/out", "--preview", "extra"])).unwrap();
    assert_eq!(o.file_path, "archive.mht");
    assert_eq!(o.output_directory, "/out");
    assert!(o.is_preview);
}

#[test]
fn usage_messages() {
    assert_eq!(UsageError::MissingInputPath.message(), "missing input path argument");
    assert_eq!(
        UsageError::MissingOutputDirectory.message(),
        "missing output directory path argument"
    );
}
