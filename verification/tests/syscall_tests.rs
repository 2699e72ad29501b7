use ysos::syscall::Syscall;

const ALL: [Syscall; 10] = [
    Syscall::Read,
    Syscall::Write,
    Syscall::Spawn,
    Syscall::Exit,
    Syscall::WaitPid,
    Syscall::ListApp,
    Syscall::Stat,
    Syscall::Allocate,
    Syscall::Deallocate,
    Syscall::Unknown,
];

#[test]
fn syscall_numbers() {
    let numbers: Vec<u16> = ALL.iter().map(|s| s.as_u16()).collect();
    assert_eq!(numbers, vec![0, 1, 59, 60, 61, 65531, 65532, 65533, 65534, 65535]);
}

#[test]
fn syscall_number_round_trip() {
    for s in ALL.iter() {
        assert_eq!(Syscall::from_u16(s.as_u16()), *s);
    }
}

#[test]
fn unknown_numbers_map_to_unknown() {
    for n in [2u16, 58, 62, 100, 65530] {
        assert_eq!(Syscall::from_u16(n), Syscall::Unknown);
    }
    assert_eq!(Syscall::default(), Syscall::Unknown);
}
