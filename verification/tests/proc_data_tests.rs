use ysos::proc_data::ProcessData;

#[test]
fn env_starts_empty() {
    let d = ProcessData::new();
    assert_eq!(d.env("PATH"), None);
    let d = ProcessData::default();
    assert_eq!(d.env(""), None);
}

#[test]
fn env_read_after_write() {
    let mut d = ProcessData::new();
    d.set_env("PATH", "/bin");
    d.set_env("HOME", "/root");
    assert_eq!(d.env("PATH"), Some("/bin".to_string()));
    d.set_env("PATH", "/usr/bin");
    assert_eq!(d.env("PATH"), Some("/usr/bin".to_string()));
    assert_eq!(d.env("HOME"), Some("/root".to_string()));
    assert_eq!(d.env("SHELL"), None);
}
