use next_butler::template::{
    get_custom_template, get_custom_templates_dir, get_default_template, render_template,
    template_name_variable, Template, TemplateError, TemplateVariables,
    DEFAULT_API_PAGE_TEMPLATE, DEFAULT_COMPONENT_TEMPLATE, DEFAULT_STYLESHEET_TEMPLATE,
};
use next_butler::CreateableFileType;

fn template_files(names: &[&str]) -> Vec<String> {
    names.iter().map(|s| s.to_string()).collect()
}

#[test]
fn ambiguous_custom_template() {
    let f = template_files(&["card.jsx.hbs", "card.tsx.hbs"]);
    let r = get_custom_template("card", &CreateableFileType::Component, &f);
    assert_eq!(r.unwrap_err(), TemplateError::Ambiguous);
}

#[test]
fn custom_template_with_extension() {
    let f = template_files(&["card.jsx.hbs", "card.tsx.hbs"]);
    match get_custom_template("card.tsx", &CreateableFileType::Component, &f).unwrap() {
        Template::Path(p) => assert_eq!(p, "nextbutler/templates/components/card.tsx.hbs"),
        Template::Str(_) => panic!("expected a custom template"),
    }
    let r = get_custom_template("card.ts", &CreateableFileType::Component, &f);
    assert_eq!(r.unwrap_err(), TemplateError::NotFound);
}

#[test]
fn single_custom_template_by_name() {
    let f = template_files(&["card.jsx.hbs", "button.tsx.hbs"]);
    match get_custom_template("button", &CreateableFileType::Page, &f).unwrap() {
        Template::Path(p) => assert_eq!(p, "nextbutler/templates/pages/button.tsx.hbs"),
        Template::Str(_) => panic!("expected a custom template"),
    }
    let r = get_custom_template("missing", &CreateableFileType::Page, &f);
    assert_eq!(r.unwrap_err(), TemplateError::NotFound);
}

#[test]
fn custom_template_dirs() {
    assert_eq!(get_custom_templates_dir(&CreateableFileType::Page), "nextbutler/templates/pages/");
    assert_eq!(
        get_custom_templates_dir(&CreateableFileType::ApiPage),
        "nextbutler/templates/api-pages/"
    );
    assert_eq!(
        get_custom_templates_dir(&CreateableFileType::Stylesheet),
        "nextbutler/templates/stylesheets/"
    );
    assert_eq!(
        get_custom_templates_dir(&CreateableFileType::Component),
        "nextbutler/templates/components/"
    );
}

#[test]
fn default_templates() {
    let text = |t: Template| match t {
        Template::Str(c) => c,
        Template::Path(_) => panic!("expected built-in content"),
    };
    assert_eq!(text(get_default_template(&CreateableFileType::ApiPage)), DEFAULT_API_PAGE_TEMPLATE);
    assert_eq!(
        text(get_default_template(&CreateableFileType::Component)),
        DEFAULT_COMPONENT_TEMPLATE
    );
    assert_eq!(
        text(get_default_template(&CreateableFileType::Stylesheet)),
        DEFAULT_STYLESHEET_TEMPLATE
    );
}

#[test]
fn name_variable_is_pascal_case() {
    assert_eq!(template_name_variable("my_test").name, "MyTest");
    assert_eq!(template_name_variable("profile").name, "Profile");
    assert_eq!(template_name_variable("user-card").name, "UserCard");
}

#[test]
fn rendering_substitutes_the_name() {
    let vars = TemplateVariables { name: "Card".to_string() };
    assert_eq!(render_template("<{{ name }}/>", &vars).unwrap(), "<Card/>");
    assert_eq!(render_template("plain", &vars).unwrap(), "plain");
}

#[test]
fn rendering_reports_broken_templates() {
    let vars = TemplateVariables { name: "Card".to_string() };
    assert_eq!(render_template("{{#if name}}open", &vars).unwrap_err(), TemplateError::Render);
}

#[test]
fn only_hbs_files_are_templates() {
    let f = template_files(&["card.md", "card", "card.tsx.hbs"]);
    match get_custom_template("card", &CreateableFileType::Component, &f).unwrap() {
        Template::Path(p) => assert_eq!(p, "nextbutler/templates/components/card.tsx.hbs"),
        Template::Str(_) => panic!("expected a custom template"),
    }
}

#[test]
fn partial_tags_are_refused() {
    let vars = TemplateVariables { name: "Card".to_string() };
    for text in [
        "{{#*inline \"p\"}}{{> p}}{{/inline}}{{> p}}",
        "{{>p}}",
        "{{~ > p}}",
        "{{# > p}}x{{/p}}",
    ] {
        assert_eq!(render_template(text, &vars).unwrap_err(), TemplateError::Render);
    }
    assert_eq!(render_template("a > b {{ name }}", &vars).unwrap(), "a > b Card");
}
