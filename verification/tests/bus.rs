use abylab_tui::bus::{
    permission_ask_default_sel, permission_ask_empty_outcome, PermissionAskOption,
    PermissionAskReply,
};

#[test]
fn empty_permission_options_cancel() {
    assert_eq!(
        permission_ask_empty_outcome(&vec![]),
        Some(PermissionAskReply::Cancelled)
    );
    assert_eq!(
        permission_ask_empty_outcome(&vec![PermissionAskOption {
            option_id: "allow".into(),
            kind: "allow_once".into(),
            name: "Allow once".into(),
        }]),
        None
    );
}

#[test]
fn permission_ask_defaults_to_allow_once() {
    let options = vec![
        PermissionAskOption {
            option_id: "reject".into(),
            kind: "reject_once".into(),
            name: "Reject".into(),
        },
        PermissionAskOption {
            option_id: "allow".into(),
            kind: "allow_once".into(),
            name: "Allow once".into(),
        },
    ];
    assert_eq!(permission_ask_default_sel(&options), 1);
    assert_eq!(permission_ask_default_sel(&options[..1].to_vec()), 0);
}
