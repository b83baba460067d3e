use nostromo_notes::config::{default_move_destinations, format_config, parse_config};
use nostromo_notes::theme::ColorScheme;

#[test]
fn config_text_lists_every_setting() {
    let text = format_config(
        &"/notes".to_string(),
        &Some("/tpl".to_string()),
        ColorScheme::Amber,
        &vec!["/notes/Uploaded".to_string(), "/w".to_string()],
    );
    assert_eq!(text, "root=/notes\ntemplate_root=/tpl\ncolor_scheme=Amber\nworkflow_0=/notes/Uploaded\nworkflow_1=/w\n");
}

#[test]
fn config_text_without_template_root() {
    let text = format_config(&".".to_string(), &None, ColorScheme::Green, &vec![]);
    assert_eq!(text, "root=.\ncolor_scheme=Green\n");
}

#[test]
fn parse_reads_values_trimmed_and_last_wins() {
    let c = parse_config("root= /a \ncolor_scheme=Red\nroot=/b\ntemplate_root=/t\r\nworkflow_1=/done\n");
    assert_eq!(c.root, "/b");
    assert_eq!(c.template_root, Some("/t".to_string()));
    assert_eq!(c.color_scheme, ColorScheme::Red);
    assert_eq!(c.workflow_folders, vec!["/b/Uploaded", "/done", "/b/Ready to Upload", "/b/Printed"]);
}

#[test]
fn parse_of_empty_text_gives_defaults() {
    let c = parse_config("");
    assert_eq!(c.root, ".");
    assert_eq!(c.template_root, None);
    assert_eq!(c.color_scheme, ColorScheme::Green);
    assert_eq!(c.workflow_folders, vec!["./Uploaded", "./Rendered", "./Ready to Upload", "./Printed"]);
}

#[test]
fn parse_reads_back_formatted_text() {
    let text = format_config(&"/r".to_string(), &Some("/t".to_string()), ColorScheme::BrightRed, &vec!["/x".to_string()]);
    let c = parse_config(&text);
    assert_eq!(c.root, "/r");
    assert_eq!(c.template_root, Some("/t".to_string()));
    assert_eq!(c.color_scheme, ColorScheme::BrightRed);
    assert_eq!(c.workflow_folders[0], "/x");
}

#[test]
fn default_destinations_are_the_workflow_stages() {
    assert_eq!(default_move_destinations(), vec!["Uploaded", "Rendered", "Ready to Upload", "Printed"]);
}
