use prollyglot_runtime::bindings::{
    contract_constants, default_configuration_constant, exported_declaration,
    without_trailing_blank_lines,
};

#[test]
fn contract_constants_name_every_command_and_event() {
    let text = contract_constants();
    assert!(text.starts_with("export const RUNTIME_CONTRACT_VERSION = 4 as const;\n"));
    assert!(text.contains(
        "export const RUNTIME_COMMANDS = { configurationSnapshot: \"configuration_snapshot\", \
         updateConfiguration: \"update_configuration\", bootstrap: \"runtime_bootstrap\", "
    ));
    assert!(text.contains("startVisualTranslation: \"start_visual_translation\""));
    assert!(text.contains(
        "reportInferenceResource: \"report_inference_resource\" } as const;\n"
    ));
    assert!(text.contains("export const RUNTIME_EVENTS = { state: \"runtime-state\", "));
    assert!(text.ends_with("configuration: \"configuration-updated\" } as const;\n\n"));
    assert!(text.contains("captionPresentation: \"caption-presentation\""));
    assert!(text.contains("visualText: \"visual-text-update\""));
}

#[test]
fn declarations_export_their_type() {
    assert_eq!(
        exported_declaration("type SessionId = number;"),
        "export type SessionId = number;\n\n"
    );
    assert_eq!(
        exported_declaration("/** A session. */\ntype SessionId = number;"),
        "/** A session. */\nexport type SessionId = number;\n\n"
    );
    assert_eq!(
        exported_declaration("// a\n// b\ntype A = string;\ntype B = A;"),
        "// a\n// b\nexport type A = string;\ntype B = A;\n\n"
    );
}

#[test]
fn the_module_ends_without_blank_lines() {
    assert_eq!(without_trailing_blank_lines("type A = 1;\n\n\n"), "type A = 1;\n");
    assert_eq!(without_trailing_blank_lines("type A = 1;\n"), "type A = 1;\n");
    assert_eq!(without_trailing_blank_lines("type A = 1;"), "type A = 1;");
    assert_eq!(without_trailing_blank_lines("\n\n"), "\n");
    assert_eq!(
        default_configuration_constant("{\"a\":1}"),
        "\n\nexport const DEFAULT_APPLICATION_CONFIGURATION = {\"a\":1} as const satisfies ApplicationConfiguration;\n"
    );
}
