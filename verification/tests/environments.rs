use lenvironment::env::{mount_arg, parse_mount, Environment, Mount};
use lenvironment::LenvError;

fn mount(host: &str, container: &str) -> Mount {
    Mount { host: host.to_string(), container: container.to_string() }
}

#[test]
fn mount_is_split_at_colon() {
    assert_eq!(parse_mount("./ubuntu_mnt:/workspace"), Ok(mount("./ubuntu_mnt", "/workspace")));
}

#[test]
fn mount_is_split_at_last_colon() {
    assert_eq!(parse_mount("C:\\data:/mnt"), Ok(mount("C:\\data", "/mnt")));
}

#[test]
fn mount_without_colon_is_refused() {
    assert_eq!(
        parse_mount("nocolon"),
        Err(LenvError::InvalidMount("nocolon".to_string()))
    );
}

#[test]
fn mount_with_empty_side_is_refused() {
    assert_eq!(parse_mount(":/mnt"), Err(LenvError::InvalidMount(":/mnt".to_string())));
    assert_eq!(parse_mount("./dir:"), Err(LenvError::InvalidMount("./dir:".to_string())));
    assert_eq!(parse_mount(":"), Err(LenvError::InvalidMount(":".to_string())));
    assert_eq!(parse_mount(""), Err(LenvError::InvalidMount("".to_string())));
}

#[test]
fn mount_round_trip() {
    let m = mount("/home/me/src", "/workspace");
    let text = mount_arg(&m);
    assert_eq!(text, "/home/me/src:/workspace");
    assert_eq!(parse_mount(&text), Ok(m));
}

#[test]
fn new_environment_defaults() {
    let env = Environment::new("develop", None, &vec![]).unwrap();
    assert_eq!(env.name, "develop");
    assert_eq!(env.runtime, "docker");
    assert_eq!(env.image, "ubuntu:latest");
    assert!(env.mounts.is_empty());
}

#[test]
fn new_environment_with_image_and_mounts() {
    let env = Environment::new(
        "develop",
        Some("ubuntu:26.04"),
        &vec!["./ubuntu_mnt:/mnt".to_string(), "/a:/b".to_string()],
    )
    .unwrap();
    assert_eq!(env.image, "ubuntu:26.04");
    assert_eq!(env.mounts, vec![mount("./ubuntu_mnt", "/mnt"), mount("/a", "/b")]);
}

#[test]
fn new_environment_takes_the_name_as_given() {
    let env = Environment::new("my env", None, &vec![]).unwrap();
    assert_eq!(env.name, "my env");
    let env = Environment::new("dev.env", None, &vec![]).unwrap();
    assert_eq!(env.name, "dev.env");
    assert_eq!(
        Environment::new("bad name", None, &vec!["broken".to_string()]),
        Err(LenvError::InvalidMount("broken".to_string()))
    );
}

#[test]
fn new_environment_reports_first_bad_mount() {
    assert_eq!(
        Environment::new(
            "dev",
            None,
            &vec!["/a:/b".to_string(), "x".to_string(), "y".to_string()]
        ),
        Err(LenvError::InvalidMount("x".to_string()))
    );
}
