use amort::output::OutputType;

#[test]
fn path_selects_file() {
    assert_eq!(OutputType::from_path(Some("out.txt".to_string())), OutputType::File("out.txt".to_string()));
    assert_eq!(OutputType::from_path(None), OutputType::Stdout);
}

#[test]
fn labels() {
    assert_eq!(OutputType::File("a/b.txt".to_string()).label(), "File: a/b.txt");
    assert_eq!(OutputType::File(String::new()).label(), "File: ");
    assert_eq!(OutputType::Stdout.label(), "stdout");
}
