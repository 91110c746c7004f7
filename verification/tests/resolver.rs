use docker_clash::sys::get_pid_by_port;
use docker_clash::sys::port::{resolve_owner, NetworkEnvironment, ProcessSockets, ResolveError, TcpEntry};

fn socket(local_port: u16, inode: u64) -> TcpEntry {
    TcpEntry { local_port, inode }
}

fn process(pid: u32, inodes: &[u64]) -> ProcessSockets {
    ProcessSockets { pid, inodes: inodes.to_vec() }
}

#[test]
fn one_binding_names_its_process() {
    let sockets = vec![socket(22, 10), socket(7892, 11), socket(80, 12)];
    let processes = vec![process(1, &[10]), process(4321, &[3, 11]), process(9, &[12])];
    assert_eq!(get_pid_by_port(7892, &sockets, &processes), Ok(4321));
    assert_eq!(get_pid_by_port(22, &sockets, &processes), Ok(1));
    assert_eq!(get_pid_by_port(80, &sockets, &processes), Ok(9));
}

#[test]
fn no_binding_is_not_found() {
    let sockets = vec![socket(22, 10)];
    let processes = vec![process(1, &[10])];
    assert_eq!(get_pid_by_port(7892, &sockets, &processes), Err(ResolveError::NotFound));
    assert_eq!(get_pid_by_port(7892, &vec![], &vec![]), Err(ResolveError::NotFound));
}

#[test]
fn a_socket_that_nobody_holds_is_not_found() {
    let sockets = vec![socket(7892, 11)];
    let processes = vec![process(1, &[10]), process(2, &[])];
    assert_eq!(get_pid_by_port(7892, &sockets, &processes), Err(ResolveError::NotFound));
}

#[test]
fn two_processes_on_one_port_are_ambiguous() {
    // two sockets on the port, as with a reused port
    let sockets = vec![socket(7892, 11), socket(7892, 12)];
    let processes = vec![process(100, &[11]), process(200, &[12])];
    assert_eq!(get_pid_by_port(7892, &sockets, &processes), Err(ResolveError::AmbiguousOwner));
    // one socket that two processes share
    let sockets = vec![socket(7892, 11)];
    let processes = vec![process(100, &[11]), process(200, &[11])];
    assert_eq!(get_pid_by_port(7892, &sockets, &processes), Err(ResolveError::AmbiguousOwner));
}

#[test]
fn one_process_with_several_sockets_counts_once() {
    let sockets = vec![socket(7892, 11), socket(7892, 12)];
    let processes = vec![process(100, &[11, 12, 11])];
    assert_eq!(get_pid_by_port(7892, &sockets, &processes), Ok(100));
    // the same process listed twice
    let processes = vec![process(100, &[11]), process(100, &[12])];
    assert_eq!(get_pid_by_port(7892, &sockets, &processes), Ok(100));
}

#[test]
fn the_port_decides_not_the_inode_alone() {
    let sockets = vec![socket(7891, 11)];
    let processes = vec![process(100, &[11])];
    assert_eq!(get_pid_by_port(7892, &sockets, &processes), Err(ResolveError::NotFound));
    assert_eq!(get_pid_by_port(7891, &sockets, &processes), Ok(100));
}

#[test]
fn port_zero_is_resolved_like_any_other() {
    let sockets = vec![socket(0, 5)];
    assert_eq!(get_pid_by_port(0, &sockets, &vec![process(3, &[5])]), Ok(3));
    assert_eq!(get_pid_by_port(0, &sockets, &vec![]), Err(ResolveError::NotFound));
}

#[test]
fn resolve_owner_counts_distinct_ids() {
    assert_eq!(resolve_owner(&vec![]), Err(ResolveError::NotFound));
    assert_eq!(resolve_owner(&vec![7]), Ok(7));
    assert_eq!(resolve_owner(&vec![7, 7, 7]), Ok(7));
    assert_eq!(resolve_owner(&vec![7, 8]), Err(ResolveError::AmbiguousOwner));
    assert_eq!(resolve_owner(&vec![7, 7, 8, 7]), Err(ResolveError::AmbiguousOwner));
}

#[test]
fn environment_answers_from_its_tables() {
    let env = NetworkEnvironment {
        free_ports: vec![7890, 7893],
        sockets: vec![socket(7892, 11)],
        processes: vec![process(4321, &[11])],
    };
    assert!(env.port_is_free(7890));
    assert!(env.port_is_free(7893));
    assert!(!env.port_is_free(7892));
    assert_eq!(env.owner_of(7892), Ok(4321));
    assert_eq!(env.owner_of(7890), Err(ResolveError::NotFound));
}
