use next_butler::component::{FinalNewCompConfig, FinalNewStyleConfig};
use next_butler::config::{ComponentArgs, StyleArgs};
use next_butler::error::NewFileError;
use next_butler::page::ProjectProbe;
use next_butler::react_extension::InputError;
use next_butler::sanitize::PathError;
use next_butler::template::{Template, TemplateFolders};
use next_butler::user_config::{UserNewComponentConfig, UserNewStyleConfig};

fn comp(path: &str) -> ComponentArgs {
    ComponentArgs {
        component_path: path.to_string(),
        js: false,
        ts: false,
        jsx: false,
        tsx: false,
        folder: None,
        template: None,
    }
}

fn style(path: &str) -> StyleArgs {
    StyleArgs {
        style_name: path.to_string(),
        css: false,
        scss: false,
        sass: false,
        folder: None,
        template: None,
    }
}

fn probe(has_src: bool) -> ProjectProbe {
    ProjectProbe {
        has_src,
        has_app_dir: true,
        has_pages_dir: true,
    }
}

fn no_folder_templates() -> TemplateFolders {
    TemplateFolders {
        pages: vec![],
        api_pages: vec![],
        stylesheets: vec![],
        components: vec![],
    }
}

#[test]
fn default_component() {
    let u = UserNewComponentConfig::get_default();
    let r = FinalNewCompConfig::new(&comp("/cards/user_card"), &u, &probe(false), true, &no_folder_templates()).unwrap();
    assert_eq!(r.comp_final_path, "components/cards/user_card.jsx");
    assert_eq!(r.template_vars.name, "UserCard");
    let r = FinalNewCompConfig::new(&comp("button"), &u, &probe(true), true, &no_folder_templates()).unwrap();
    assert_eq!(r.comp_final_path, "src/components/button.jsx");
}

#[test]
fn component_folder_flag_and_config() {
    let mut u = UserNewComponentConfig::get_default();
    u.folder = Some("ui/".to_string());
    u.typescript = Some(true);
    let r = FinalNewCompConfig::new(&comp("button"), &u, &probe(false), true, &no_folder_templates()).unwrap();
    assert_eq!(r.comp_final_path, "ui/button.tsx");
    let mut a = comp("button");
    a.folder = Some("widgets".to_string());
    a.js = true;
    let r = FinalNewCompConfig::new(&a, &u, &probe(false), true, &no_folder_templates()).unwrap();
    assert_eq!(r.comp_final_path, "widgets/button.js");
}

#[test]
fn component_without_config_fields_uses_defaults() {
    let u = UserNewComponentConfig {
        typescript: None,
        jsx: None,
        folder: None,
        template: None,
    };
    let r = FinalNewCompConfig::new(&comp("button"), &u, &probe(false), true, &no_folder_templates()).unwrap();
    assert_eq!(r.comp_final_path, "components/button.jsx");
}

#[test]
fn component_template_extension_is_used() {
    let mut a = comp("button");
    a.template = Some("base".to_string());
    let mut t = no_folder_templates();
    t.components = vec!["base.ts.hbs".to_string()];
    let u = UserNewComponentConfig::get_default();
    let r = FinalNewCompConfig::new(&a, &u, &probe(false), true, &t).unwrap();
    assert_eq!(r.comp_final_path, "components/button.ts");
    match r.template {
        Template::Path(p) => assert_eq!(p, "nextbutler/templates/components/base.ts.hbs"),
        Template::Str(_) => panic!("expected the custom template"),
    }
}

#[test]
fn component_flag_conflict() {
    let mut a = comp("button");
    a.ts = true;
    a.js = true;
    let u = UserNewComponentConfig::get_default();
    let r = FinalNewCompConfig::new(&a, &u, &probe(false), true, &no_folder_templates());
    assert_eq!(r.unwrap_err(), NewFileError::Input(InputError::ConflictingExtensionFlags));
}

#[test]
fn default_stylesheet() {
    let u = UserNewStyleConfig::get_default();
    let r = FinalNewStyleConfig::new(&style("home/main"), &u, &probe(false), true, &no_folder_templates()).unwrap();
    assert_eq!(r.style_final_path, "styles/home/main.css");
    let r = FinalNewStyleConfig::new(&style("main"), &u, &probe(true), true, &no_folder_templates()).unwrap();
    assert_eq!(r.style_final_path, "src/styles/main.css");
}

#[test]
fn stylesheet_extension_layers() {
    let mut u = UserNewStyleConfig::get_default();
    u.extension = Some("sass".to_string());
    let r = FinalNewStyleConfig::new(&style("main"), &u, &probe(false), true, &no_folder_templates()).unwrap();
    assert_eq!(r.style_final_path, "styles/main.sass");
    let mut a = style("main");
    a.scss = true;
    let r = FinalNewStyleConfig::new(&a, &u, &probe(false), true, &no_folder_templates()).unwrap();
    assert_eq!(r.style_final_path, "styles/main.scss");
    let r = FinalNewStyleConfig::new(&style("main.less"), &u, &probe(false), true, &no_folder_templates()).unwrap();
    assert_eq!(r.style_final_path, "styles/main.less");
}

#[test]
fn stylesheet_flag_conflict() {
    let mut a = style("main");
    a.css = true;
    a.sass = true;
    let u = UserNewStyleConfig::get_default();
    let r = FinalNewStyleConfig::new(&a, &u, &probe(false), true, &no_folder_templates());
    assert_eq!(r.unwrap_err(), NewFileError::Input(InputError::ConflictingExtensionFlags));
}

#[test]
fn final_path_helpers() {
    assert_eq!(
        FinalNewCompConfig::get_comp_final_path("a/b", "tsx", "components", true, true).unwrap(),
        "src/components/a/b.tsx"
    );
    assert_eq!(FinalNewStyleConfig::get_style_final_path("b", "css", "", false, true).unwrap(), "b.css");
    assert_eq!(
        FinalNewCompConfig::get_comp_final_path("a/b", "tsx", "components", true, false).unwrap_err(),
        PathError::MissingDestination
    );
}

#[test]
fn missing_destination_folder_is_refused() {
    let u = UserNewComponentConfig::get_default();
    let r = FinalNewCompConfig::new(&comp("button"), &u, &probe(false), false, &no_folder_templates());
    assert_eq!(r.unwrap_err(), NewFileError::Path(PathError::MissingDestination));
    let s = UserNewStyleConfig::get_default();
    let r = FinalNewStyleConfig::new(&style("main"), &s, &probe(false), false, &no_folder_templates());
    assert_eq!(r.unwrap_err(), NewFileError::Path(PathError::MissingDestination));
}
