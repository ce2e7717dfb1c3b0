use prollyglot_runtime::configuration::{
    check_configuration_update, require_configuration_writer, uninitialized_configuration,
};

#[test]
fn only_the_main_and_appearance_windows_change_configuration() {
    assert_eq!(require_configuration_writer("main"), Ok(()));
    assert_eq!(require_configuration_writer("appearance"), Ok(()));
    assert_eq!(
        require_configuration_writer("visual-overlay"),
        Err("The visual-overlay window is not allowed to change application configuration.".into())
    );
}

#[test]
fn stale_revisions_and_model_selections_are_refused() {
    assert_eq!(check_configuration_update(7, 7, true), Ok(()));
    assert_eq!(
        check_configuration_update(8, 7, true),
        Err("Configuration revision 7 is stale; current revision is 8.".into())
    );
    assert_eq!(
        check_configuration_update(8, 7, false),
        Err("Configuration revision 7 is stale; current revision is 8.".into())
    );
    assert_eq!(
        check_configuration_update(7, 7, false),
        Err("Model selections must be changed through the model-management commands.".into())
    );
    assert_eq!(uninitialized_configuration(), "The local configuration has not initialized yet.");
}
