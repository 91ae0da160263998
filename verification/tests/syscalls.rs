use credentials_to_env::chmod::{chmod_outcome, chmod_request, ChmodError};
use credentials_to_env::exec::{execvp_failure, execvp_request, ExecError};
use credentials_to_env::marshal::to_nul_terminated;

#[test]
fn nul_termination_appends_one_nul() {
    let r = to_nul_terminated(&b"abc".to_vec());
    assert_eq!(Ok(b"abc\0".to_vec()), r);
}

#[test]
fn embedded_nul_is_reported_at_its_position() {
    let r = to_nul_terminated(&b"ab\0cd\0".to_vec());
    assert_eq!(Err(2), r);
}

#[test]
fn chmod_request_marshals_the_path() {
    let req = chmod_request(&b"/tmp/secret".to_vec(), 0o400).unwrap();
    assert_eq!(b"/tmp/secret\0".to_vec(), req.path_z);
    assert_eq!(0o400, req.mode);
}

#[test]
fn chmod_rejects_embedded_nul_without_a_request() {
    let r = chmod_request(&b"/tmp/\0secret".to_vec(), 0o400);
    assert_eq!(Err(ChmodError::BadArgument { nul_position: 5 }), r);
}

#[test]
fn chmod_outcome_translates_the_return_value() {
    assert_eq!(Ok(()), chmod_outcome(0, 0));
    assert_eq!(Err(ChmodError::Errno { code: 13 }), chmod_outcome(-1, 13));
}

#[test]
fn execvp_request_builds_the_argument_vector() {
    let req = execvp_request(
        &b"prog".to_vec(),
        &vec![b"a".to_vec(), b"bc".to_vec()],
    )
    .unwrap();
    assert_eq!(b"prog\0".to_vec(), req.program_z);
    assert_eq!(
        vec![b"prog\0".to_vec(), b"a\0".to_vec(), b"bc\0".to_vec()],
        req.argv_z
    );
}

#[test]
fn execvp_rejects_nul_in_the_program_first() {
    let r = execvp_request(&b"pr\0og".to_vec(), &vec![b"\0".to_vec()]);
    assert_eq!(Err(ExecError::BadArgument { nul_position: 2 }), r);
}

#[test]
fn execvp_rejects_nul_in_the_first_offending_argument() {
    let r = execvp_request(&b"prog".to_vec(), &vec![b"ok".to_vec(), b"b\0ad".to_vec()]);
    assert_eq!(Err(ExecError::BadArgument { nul_position: 1 }), r);
}

#[test]
fn execvp_return_is_always_a_system_error() {
    assert_eq!(ExecError::Errno { code: 2 }, execvp_failure(2));
}

#[test]
fn error_descriptions() {
    assert_eq!("bad argument to chmod", ChmodError::BadArgument { nul_position: 0 }.description());
    assert_eq!("couldn't chmod file", ChmodError::Errno { code: 1 }.description());
    assert_eq!("bad argument to exec", ExecError::BadArgument { nul_position: 0 }.description());
    assert_eq!("couldn't exec process", ExecError::Errno { code: 1 }.description());
}
