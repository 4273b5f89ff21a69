use ctv_vault::ctv::colorize;

#[test]
fn opcode_names_turn_red() {
    assert_eq!(colorize("OP_IF"), "<span style=\"color: red\">OP_IF</span>");
    assert_eq!(
        colorize("OP_IF 144 OP_CSV"),
        "<span style=\"color: red\">OP_IF</span> 144 <span style=\"color: red\">OP_CSV</span>"
    );
}

#[test]
fn hashes_turn_green() {
    let hash = "9679433c7b1004d50919b220836f2a8fd232c47251d9822ba3a607a51ee0dcc7";
    assert_eq!(colorize(hash), format!("<span style=\"color: green\">{}</span>", hash));
    assert_eq!(colorize(&hash[..63]), &hash[..63]);
}

#[test]
fn template_check_is_shown_under_its_own_name() {
    assert_eq!(colorize("OP_NOP4"), "<span style=\"color: red\">OP_CTV</span>");
    assert_eq!(colorize("OP_NOP40"), "<span style=\"color: red\">OP_CTV0</span>");
}

#[test]
fn plain_text_is_left_alone() {
    assert_eq!(colorize(""), "");
    assert_eq!(colorize("144 0 1"), "144 0 1");
}

#[test]
fn committing_script_is_marked_up() {
    let hash = "5835e39153429010b30bbf4a946bffd7764f2a2756dbeac2febb130ea7f7bb00";
    let text = format!("OP_PUSHBYTES_32 {} OP_NOP4", hash);
    assert_eq!(
        colorize(&text),
        format!(
            "<span style=\"color: red\">OP_PUSHBYTES_32</span> <span style=\"color: green\">{}</span> <span style=\"color: red\">OP_CTV</span>",
            hash
        )
    );
}
