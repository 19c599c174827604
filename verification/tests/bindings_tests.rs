use oflow_ui::bindings::{binding_block, hypr_shortcut_format, is_stale_binding_line};

#[test]
fn marker_comment_is_stale() {
    assert!(is_stale_binding_line(
        "# Oflow voice dictation (push-to-talk: hold Super+I to record, release to stop)"
    ));
}

#[test]
fn bind_line_invoking_the_script_is_stale() {
    assert!(is_stale_binding_line("bind = SUPER, I, exec, python oflow.py start"));
    assert!(is_stale_binding_line("bindr = SUPER, I, exec, python oflow.py stop"));
}

#[test]
fn unrelated_lines_are_kept() {
    assert!(!is_stale_binding_line("# reload the config"));
    assert!(!is_stale_binding_line("bind = SUPER, T, exec, alacritty"));
    assert!(!is_stale_binding_line("exec-once = waybar"));
    assert!(!is_stale_binding_line(""));
    // The freshly appended pair invokes the helper, not the script, so a
    // later rewrite keeps it only until its marker comment is dropped.
    assert!(!is_stale_binding_line("bind = , XF86Assistant, exec, oflow-ctl start"));
}

#[test]
fn special_keys_take_no_modifier() {
    assert_eq!(hypr_shortcut_format("XF86Assistant"), ", XF86Assistant");
    assert_eq!(hypr_shortcut_format("XF86AudioMute"), ", XF86AudioMute");
}

#[test]
fn modifier_prefixes_are_respelled() {
    assert_eq!(hypr_shortcut_format("Super+I"), "SUPER, I");
    assert_eq!(hypr_shortcut_format("Ctrl+Shift+D"), "CTRL SHIFT D");
    assert_eq!(hypr_shortcut_format("Alt+Space"), "ALT Space");
    assert_eq!(hypr_shortcut_format("F9"), "F9");
}

#[test]
fn binding_block_reads_as_the_push_to_talk_pair() {
    assert_eq!(
        binding_block("Super+I"),
        "\n# Oflow voice dictation (push-to-talk: hold Super+I to record, release to stop)\nbind = SUPER, I, exec, oflow-ctl start\nbindr = SUPER, I, exec, oflow-ctl stop"
    );
    assert_eq!(
        binding_block("XF86Assistant"),
        "\n# Oflow voice dictation (push-to-talk: hold XF86Assistant to record, release to stop)\nbind = , XF86Assistant, exec, oflow-ctl start\nbindr = , XF86Assistant, exec, oflow-ctl stop"
    );
}
