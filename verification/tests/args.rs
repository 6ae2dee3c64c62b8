use ringtostdout::args::ProgramArguments;

#[test]
fn defaults_match_their_documentation() {
    let a = ProgramArguments::new();
    assert_eq!(a.directory, "/dev/shm");
    assert_eq!(a.ring_name, "");
    assert_eq!(a.portman, 30000);
    assert_eq!(a.comment, "");
}
