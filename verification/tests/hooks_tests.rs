use pam::constants::{PamFlag, PamResultCode};
use pam::hooks::{
    extract_argv, or_code, outcome, pam_sm_acct_mgmt, pam_sm_authenticate, pam_sm_chauthtok,
    pam_sm_close_session, pam_sm_open_session, pam_sm_setcred, Hook, NoHooks, PamHooks,
};
use pam::items::{Item, ItemType};
use pam::module::PamHandle;

struct CountsArgs;

impl PamHooks<PamHandle<Vec<u8>>> for CountsArgs {
    fn handles(hook: Hook) -> bool {
        hook == Hook::SmAuthenticate
    }

    fn sm_authenticate(pamh: &mut PamHandle<Vec<u8>>, args: Vec<Vec<u8>>, flags: PamFlag) -> PamResultCode {
        if flags == 0x8000 && args.len() == 2 && args[0] == b"debug".to_vec() {
            pamh.set_item_str(Item::User(args[1].clone())).unwrap();
            PamResultCode::PAM_SUCCESS
        } else {
            PamResultCode::PAM_AUTH_ERR
        }
    }
}

#[test]
fn extract_argv_of_nothing_is_empty() {
    assert_eq!(extract_argv(0, &Vec::new()), Vec::<Vec<u8>>::new());
}

#[test]
fn extract_argv_of_one_argument() {
    let argv = vec![b"debug\0".to_vec()];
    assert_eq!(extract_argv(1, &argv), vec![b"debug".to_vec()]);
}

#[test]
fn extract_argv_keeps_order_and_content() {
    let argv = vec![
        b"use_first_pass\0".to_vec(),
        b"\0".to_vec(),
        b"file=/etc/x\0".to_vec(),
        b"debug\0".to_vec(),
        b"use_first_pass\0".to_vec(),
    ];
    let args = extract_argv(5, &argv);
    assert_eq!(
        args,
        vec![
            b"use_first_pass".to_vec(),
            b"".to_vec(),
            b"file=/etc/x".to_vec(),
            b"debug".to_vec(),
            b"use_first_pass".to_vec(),
        ]
    );
}

#[test]
fn extract_argv_reads_only_the_counted_arguments() {
    let argv = vec![b"a\0".to_vec(), b"b\0".to_vec(), b"c\0".to_vec()];
    assert_eq!(extract_argv(2, &argv), vec![b"a".to_vec(), b"b".to_vec()]);
    assert_eq!(extract_argv(-1, &argv), Vec::<Vec<u8>>::new());
}

#[test]
fn unimplemented_hooks_are_ignored() {
    let argv = vec![b"debug\0".to_vec(), b"x\0".to_vec()];
    for flags in [0u32, 1, 0x8000, u32::MAX] {
        let mut h = PamHandle::<Vec<u8>>::new();
        assert_eq!(pam_sm_acct_mgmt::<PamHandle<Vec<u8>>, NoHooks>(&mut h, flags, 2, &argv), PamResultCode::PAM_IGNORE);
        assert_eq!(pam_sm_authenticate::<PamHandle<Vec<u8>>, NoHooks>(&mut h, flags, 2, &argv), PamResultCode::PAM_IGNORE);
        assert_eq!(pam_sm_chauthtok::<PamHandle<Vec<u8>>, NoHooks>(&mut h, flags, 1, &argv), PamResultCode::PAM_IGNORE);
        assert_eq!(pam_sm_close_session::<PamHandle<Vec<u8>>, NoHooks>(&mut h, flags, 0, &argv), PamResultCode::PAM_IGNORE);
        assert_eq!(pam_sm_open_session::<PamHandle<Vec<u8>>, NoHooks>(&mut h, flags, 2, &argv), PamResultCode::PAM_IGNORE);
        assert_eq!(pam_sm_setcred::<PamHandle<Vec<u8>>, NoHooks>(&mut h, flags, 2, &argv), PamResultCode::PAM_IGNORE);
        assert_eq!(h.get_item(ItemType::User), Ok(None));
    }
}

#[test]
fn default_hook_methods_answer_ignore() {
    let mut h = PamHandle::<Vec<u8>>::new();
    assert_eq!(<NoHooks as PamHooks<PamHandle<Vec<u8>>>>::acct_mgmt(&mut h, Vec::new(), 0), PamResultCode::PAM_IGNORE);
    assert_eq!(<NoHooks as PamHooks<PamHandle<Vec<u8>>>>::sm_authenticate(&mut h, vec![b"a".to_vec()], 7), PamResultCode::PAM_IGNORE);
    assert_eq!(<NoHooks as PamHooks<PamHandle<Vec<u8>>>>::sm_chauthtok(&mut h, Vec::new(), 0x4000), PamResultCode::PAM_IGNORE);
    assert_eq!(<NoHooks as PamHooks<PamHandle<Vec<u8>>>>::sm_close_session(&mut h, Vec::new(), 0), PamResultCode::PAM_IGNORE);
    assert_eq!(<NoHooks as PamHooks<PamHandle<Vec<u8>>>>::sm_open_session(&mut h, Vec::new(), 0), PamResultCode::PAM_IGNORE);
    assert_eq!(<NoHooks as PamHooks<PamHandle<Vec<u8>>>>::sm_setcred(&mut h, Vec::new(), 2), PamResultCode::PAM_IGNORE);
}

#[test]
fn implemented_hook_gets_handle_arguments_and_flags() {
    let argv = vec![b"debug\0".to_vec(), b"carol\0".to_vec()];
    let mut h = PamHandle::<Vec<u8>>::new();
    assert_eq!(
        pam_sm_authenticate::<PamHandle<Vec<u8>>, CountsArgs>(&mut h, 0x8000, 2, &argv),
        PamResultCode::PAM_SUCCESS
    );
    assert_eq!(h.get_user(None), Ok(String::from("carol")));
    assert_eq!(pam_sm_authenticate::<PamHandle<Vec<u8>>, CountsArgs>(&mut h, 0, 2, &argv), PamResultCode::PAM_AUTH_ERR);
    assert_eq!(pam_sm_authenticate::<PamHandle<Vec<u8>>, CountsArgs>(&mut h, 0x8000, 1, &argv), PamResultCode::PAM_AUTH_ERR);
}

#[test]
fn hooks_left_alone_by_a_module_are_ignored() {
    let mut h = PamHandle::<Vec<u8>>::new();
    let argv = vec![b"debug\0".to_vec()];
    assert_eq!(pam_sm_setcred::<PamHandle<Vec<u8>>, CountsArgs>(&mut h, 0x8000, 1, &argv), PamResultCode::PAM_IGNORE);
    assert_eq!(pam_sm_acct_mgmt::<PamHandle<Vec<u8>>, CountsArgs>(&mut h, 0, 1, &argv), PamResultCode::PAM_IGNORE);
}

#[test]
fn outcome_is_the_code_either_way() {
    assert_eq!(outcome(Ok(PamResultCode::PAM_SUCCESS)), PamResultCode::PAM_SUCCESS);
    assert_eq!(outcome(Err(PamResultCode::PAM_AUTH_ERR)), PamResultCode::PAM_AUTH_ERR);
}

#[test]
fn or_code_overrides_the_failure() {
    let failed: Result<u8, PamResultCode> = Err(PamResultCode::PAM_CONV_ERR);
    assert_eq!(or_code(failed, PamResultCode::PAM_AUTH_ERR), Err(PamResultCode::PAM_AUTH_ERR));
    let parsed: Result<u8, String> = Err(String::from("bad"));
    assert_eq!(or_code(parsed, PamResultCode::PAM_SERVICE_ERR), Err(PamResultCode::PAM_SERVICE_ERR));
    let fine: Result<u8, String> = Ok(3);
    assert_eq!(or_code(fine, PamResultCode::PAM_SERVICE_ERR), Ok(3));
}

#[test]
fn default_hooks_leave_the_handle_untouched() {
    let mut h = PamHandle::<Vec<u8>>::new();
    h.set_data("k", Box::new(vec![4, 2])).unwrap();
    h.set_item_str(Item::Service(b"sshd".to_vec())).unwrap();
    let argv = vec![b"debug\0".to_vec()];
    assert_eq!(pam_sm_open_session::<PamHandle<Vec<u8>>, NoHooks>(&mut h, 3, 1, &argv), PamResultCode::PAM_IGNORE);
    assert_eq!(h.get_data("k"), Ok(&vec![4u8, 2]));
    assert_eq!(h.get_item(ItemType::Service), Ok(Some(Item::Service(b"sshd".to_vec()))));
}

#[test]
fn hooks_work_over_any_handle_type() {
    let mut counter: u32 = 5;
    assert_eq!(pam_sm_setcred::<u32, NoHooks>(&mut counter, 0, 0, &Vec::new()), PamResultCode::PAM_IGNORE);
    assert_eq!(counter, 5);
}
