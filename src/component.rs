//! Planning a new component or a new stylesheet: both go into a folder of
//! their own, `[src/]<folder>/<target>.<ext>`.
use vstd::prelude::*;

use crate::config::{
    first_present, opt_view, ComponentArgs, NewComponentConfig, NewStyleConfig, StyleArgs,
};
use crate::error::NewFileError;
use crate::names::stem_of;
use crate::page::{flag_text, ProjectProbe};
use crate::react_extension::{
    config_extension, extension_from_config, select_react_flag, select_style_flag,
    selected_react_flag, selected_style_flag, ReactExtension, StyleExtension,
};
use crate::resolve::{
    add_extension, ends_with, get_extension_to_use, lemma_ends_with_concat, in_folder, join_folder, resolved_extension,
    root_prefix, split_extension, split_target_extension, with_extension, PlannedFile,
};
use crate::sanitize::{sanitize, sanitized, PathError};
use crate::segments::split_segments;
use crate::template::{
    choice_extension, choose_template, encoded_extension, pascal_case_of, template_choice,
    template_from_choice, template_matches, template_name_variable, Template, TemplateFolders,
    TemplateVariables,
};
use crate::user_config::{components_folder, css_extension, styles_folder, UserNewComponentConfig, UserNewStyleConfig};
use crate::CreateableFileType;

verus! {

/// A planned component: its path, its template and the values it is
/// rendered with.
#[derive(Clone, Debug)]
pub struct FinalNewCompConfig {
    /// Where the new component will be located.
    pub comp_final_path: String,
    pub template: Template,
    pub template_vars: TemplateVariables,
}

/// A planned stylesheet: its path, its template and the values it is
/// rendered with.
#[derive(Clone, Debug)]
pub struct FinalNewStyleConfig {
    /// Where the new stylesheet will be located.
    pub style_final_path: String,
    pub template: Template,
    pub template_vars: TemplateVariables,
}

/// The path of a file in a folder of its own.
pub open spec fn folder_file_path(
    target: Seq<char>,
    ext: Seq<char>,
    folder: Seq<char>,
    has_src: bool,
) -> Seq<char> {
    root_prefix(has_src) + in_folder(folder, with_extension(target, ext))
}

pub open spec fn style_flag_text(flag: Option<StyleExtension>) -> Option<Seq<char>> {
    match flag {
        Some(f) => Some(f.text()),
        None => None,
    }
}

/// What planning a component gives: flags are checked first, then the path
/// is sanitized, the template found, the extension chosen and the path
/// built.
pub open spec fn planned_component(
    args: ComponentArgs,
    user: UserNewComponentConfig,
    probe: ProjectProbe,
    folder_exists: bool,
    templates: TemplateFolders,
) -> Result<PlannedFile, NewFileError> {
    match selected_react_flag(args.js, args.ts, args.jsx, args.tsx) {
        Err(e) => Err(NewFileError::Input(e)),
        Ok(flag) => match sanitized(args.component_path@) {
            Err(e) => Err(NewFileError::Path(e)),
            Ok(target) => {
                let base = split_extension(target).0;
                let own = split_extension(target).1;
                let kind = CreateableFileType::Component;
                let name = first_present(args.template, user.template);
                match template_choice(opt_view(name), kind, templates.files(kind)) {
                    Err(e) => Err(NewFileError::Template(e)),
                    Ok(choice) => {
                        let configured = config_extension(
                            user.typescript.unwrap_or(false),
                            user.jsx.unwrap_or(true),
                            false,
                        ).text();
                        let ext = resolved_extension(
                            own,
                            flag_text(flag),
                            encoded_extension(choice),
                            configured,
                        );
                        let folder = match first_present(args.folder, user.folder) {
                            Some(f) => f@,
                            None => components_folder(),
                        };
                        if !folder_exists {
                            Err(NewFileError::Path(PathError::MissingDestination))
                        } else {
                            Ok(
                                PlannedFile {
                                    path: folder_file_path(base, ext, folder, probe.has_src),
                                    template: choice,
                                    kind,
                                    stem: stem_of(split_segments(target).last()),
                                },
                            )
                        }
                    },
                }
            },
        },
    }
}

/// What planning a stylesheet gives: flags are checked first, then the path
/// is sanitized, the template found, the extension chosen and the path
/// built.
pub open spec fn planned_style(
    args: StyleArgs,
    user: UserNewStyleConfig,
    probe: ProjectProbe,
    folder_exists: bool,
    templates: TemplateFolders,
) -> Result<PlannedFile, NewFileError> {
    match selected_style_flag(args.css, args.scss, args.sass) {
        Err(e) => Err(NewFileError::Input(e)),
        Ok(flag) => match sanitized(args.style_name@) {
            Err(e) => Err(NewFileError::Path(e)),
            Ok(target) => {
                let base = split_extension(target).0;
                let own = split_extension(target).1;
                let kind = CreateableFileType::Stylesheet;
                let name = first_present(args.template, user.template);
                match template_choice(opt_view(name), kind, templates.files(kind)) {
                    Err(e) => Err(NewFileError::Template(e)),
                    Ok(choice) => {
                        let configured = match user.extension {
                            Some(e) => e@,
                            None => css_extension(),
                        };
                        let ext = resolved_extension(
                            own,
                            style_flag_text(flag),
                            encoded_extension(choice),
                            configured,
                        );
                        let folder = match first_present(args.folder, user.folder) {
                            Some(f) => f@,
                            None => styles_folder(),
                        };
                        if !folder_exists {
                            Err(NewFileError::Path(PathError::MissingDestination))
                        } else {
                            Ok(
                                PlannedFile {
                                    path: folder_file_path(base, ext, folder, probe.has_src),
                                    template: choice,
                                    kind,
                                    stem: stem_of(split_segments(target).last()),
                                },
                            )
                        }
                    },
                }
            },
        },
    }
}

pub proof fn lemma_folder_file_extension(
    target: Seq<char>,
    ext: Seq<char>,
    folder: Seq<char>,
    has_src: bool,
)
    ensures
        ends_with(folder_file_path(target, ext, folder, has_src), seq!['.'] + ext),
{
    let prefix = root_prefix(has_src) + if folder.len() == 0 {
        target
    } else if folder.last() == '/' {
        folder + target
    } else {
        folder + seq!['/'] + target
    };
    assert(folder_file_path(target, ext, folder, has_src) =~= prefix + (seq!['.'] + ext));
    lemma_ends_with_concat(prefix, seq!['.'] + ext);
}

/// With no flag, no template and the default configuration, a component
/// whose target carries no extension of its own gets `jsx`.
pub proof fn lemma_component_default_extension(
    args: ComponentArgs,
    user: UserNewComponentConfig,
    probe: ProjectProbe,
    folder_exists: bool,
    templates: TemplateFolders,
)
    requires
        !args.js && !args.ts && !args.jsx && !args.tsx,
        args.template is None,
        user.is_default(),
        sanitized(args.component_path@) matches Ok(t) && split_extension(t).1 is None,
    ensures
        planned_component(args, user, probe, folder_exists, templates) matches Ok(p) ==> ends_with(
            p.path,
            seq!['.'] + ReactExtension::Jsx.text(),
        ),
{
    let target = sanitized(args.component_path@)->Ok_0;
    let base = split_extension(target).0;
    let folder = match first_present(args.folder, user.folder) {
        Some(f) => f@,
        None => components_folder(),
    };
    lemma_folder_file_extension(base, ReactExtension::Jsx.text(), folder, probe.has_src);
}

/// With no flag, no template and the default configuration, a stylesheet
/// whose target carries no extension of its own gets `css`.
pub proof fn lemma_style_default_extension(
    args: StyleArgs,
    user: UserNewStyleConfig,
    probe: ProjectProbe,
    folder_exists: bool,
    templates: TemplateFolders,
)
    requires
        !args.css && !args.scss && !args.sass,
        args.template is None,
        user.is_default(),
        sanitized(args.style_name@) matches Ok(t) && split_extension(t).1 is None,
    ensures
        planned_style(args, user, probe, folder_exists, templates) matches Ok(p) ==> ends_with(
            p.path,
            seq!['.'] + StyleExtension::Css.text(),
        ),
{
    let target = sanitized(args.style_name@)->Ok_0;
    let base = split_extension(target).0;
    let folder = match first_present(args.folder, user.folder) {
        Some(f) => f@,
        None => styles_folder(),
    };
    lemma_folder_file_extension(base, StyleExtension::Css.text(), folder, probe.has_src);
}

/// The path of a file in a folder of its own.
pub fn folder_file(path_arg: &str, extension: &str, destination_folder: &str, has_src: bool) -> (r:
    String)
    ensures
        r@ == folder_file_path(path_arg@, extension@, destination_folder@, has_src),
{
    let file = add_extension(path_arg, extension);
    let inside = join_folder(destination_folder, file.as_str());
    proof {
        reveal_strlit("src/");
    }
    let mut out = if has_src {
        String::from_str("src/")
    } else {
        String::new()
    };
    assert(out@ =~= root_prefix(has_src));
    out.append(inside.as_str());
    out
}

impl FinalNewCompConfig {
    /// The extension that the component gets: its own, else the flag's,
    /// else the one its custom template encodes, else the configured one.
    pub fn get_extension_to_use(
        own: &Option<String>,
        flag: Option<ReactExtension>,
        template_file: &Option<String>,
        config: &NewComponentConfig,
    ) -> (r: String)
        ensures
            r@ == resolved_extension(
                opt_view(*own),
                flag_text(flag),
                encoded_extension(opt_view(*template_file)),
                config_extension(config.typescript, config.use_jsx, false).text(),
            ),
    {
        let flag_ext = match flag {
            Some(f) => Some(String::from_str(f.as_str())),
            None => None,
        };
        let template_ext = choice_extension(template_file);
        let configured = extension_from_config(config.typescript, config.use_jsx, false);
        get_extension_to_use(own, &flag_ext, &template_ext, configured.as_str())
    }

    /// The path of the component in its folder, with its extension.
    pub fn get_comp_final_path(
        path_arg: &str,
        extension: &str,
        destination_folder: &str,
        has_src: bool,
        folder_exists: bool,
    ) -> (r: Result<String, PathError>)
        ensures
            crate::sanitize::path_result_view(r) == if folder_exists {
                Ok::<Seq<char>, PathError>(folder_file_path(path_arg@, extension@, destination_folder@, has_src))
            } else {
                Err::<Seq<char>, PathError>(PathError::MissingDestination)
            },
    {
        if !folder_exists {
            return Err(PathError::MissingDestination);
        }
        Ok(folder_file(path_arg, extension, destination_folder, has_src))
    }

    /// Plans a new component from the parsed arguments, the user's component
    /// settings, what was found in the project (`folder_exists`: whether
    /// `[src/]<folder>` exists, for the folder that the merged settings
    /// give), and the files of the custom template folders.
    pub fn new(
        args: &ComponentArgs,
        user: &UserNewComponentConfig,
        probe: &ProjectProbe,
        folder_exists: bool,
        templates: &TemplateFolders,
    ) -> (r: Result<Self, NewFileError>)
        ensures
            match r {
                Ok(c) => planned_component(*args, *user, *probe, folder_exists, *templates) matches Ok(p)
                    && c.comp_final_path@ == p.path && template_matches(c.template, p.template, p.kind)
                    && c.template_vars.name@ == pascal_case_of(p.stem),
                Err(e) => planned_component(*args, *user, *probe, folder_exists, *templates) == Err::<
                    PlannedFile,
                    NewFileError,
                >(e),
            },
    {
        let flag = match select_react_flag(args.js, args.ts, args.jsx, args.tsx) {
            Ok(f) => f,
            Err(e) => return Err(NewFileError::Input(e)),
        };
        let target = match sanitize(args.component_path.as_str()) {
            Ok(t) => t,
            Err(e) => return Err(NewFileError::Path(e)),
        };
        let (base, own) = split_target_extension(target.as_str());
        let kind = CreateableFileType::Component;
        let config = NewComponentConfig::build(args, user);
        let files = templates.files_of(&kind);
        let choice = match choose_template(&config.template, files) {
            Ok(c) => c,
            Err(e) => return Err(NewFileError::Template(e)),
        };
        let template = template_from_choice(&choice, &kind);
        let ext = Self::get_extension_to_use(&own, flag, &choice, &config);
        let path = match Self::get_comp_final_path(
            base.as_str(),
            ext.as_str(),
            config.folder.as_str(),
            probe.has_src,
            folder_exists,
        ) {
            Ok(p) => p,
            Err(e) => return Err(NewFileError::Path(e)),
        };
        let last = crate::names::last_segment(target.as_str());
        let stem = crate::names::file_stem(last.as_str());
        Ok(FinalNewCompConfig {
            comp_final_path: path,
            template,
            template_vars: template_name_variable(stem.as_str()),
        })
    }
}

impl FinalNewStyleConfig {
    /// The path of the stylesheet in its folder, with its extension.
    pub fn get_style_final_path(
        path_arg: &str,
        extension: &str,
        destination_folder: &str,
        has_src: bool,
        folder_exists: bool,
    ) -> (r: Result<String, PathError>)
        ensures
            crate::sanitize::path_result_view(r) == if folder_exists {
                Ok::<Seq<char>, PathError>(folder_file_path(path_arg@, extension@, destination_folder@, has_src))
            } else {
                Err::<Seq<char>, PathError>(PathError::MissingDestination)
            },
    {
        if !folder_exists {
            return Err(PathError::MissingDestination);
        }
        Ok(folder_file(path_arg, extension, destination_folder, has_src))
    }

    /// Plans a new stylesheet from the parsed arguments, the user's
    /// stylesheet settings, what was found in the project (`folder_exists`:
    /// whether `[src/]<folder>` exists, for the folder that the merged
    /// settings give), and the files of the custom template folders.
    pub fn new(
        args: &StyleArgs,
        user: &UserNewStyleConfig,
        probe: &ProjectProbe,
        folder_exists: bool,
        templates: &TemplateFolders,
    ) -> (r: Result<Self, NewFileError>)
        ensures
            match r {
                Ok(c) => planned_style(*args, *user, *probe, folder_exists, *templates) matches Ok(p)
                    && c.style_final_path@ == p.path && template_matches(c.template, p.template, p.kind)
                    && c.template_vars.name@ == pascal_case_of(p.stem),
                Err(e) => planned_style(*args, *user, *probe, folder_exists, *templates) == Err::<
                    PlannedFile,
                    NewFileError,
                >(e),
            },
    {
        let flag = match select_style_flag(args.css, args.scss, args.sass) {
            Ok(f) => f,
            Err(e) => return Err(NewFileError::Input(e)),
        };
        let target = match sanitize(args.style_name.as_str()) {
            Ok(t) => t,
            Err(e) => return Err(NewFileError::Path(e)),
        };
        let (base, own) = split_target_extension(target.as_str());
        let kind = CreateableFileType::Stylesheet;
        let config = NewStyleConfig::build(args, user);
        let files = templates.files_of(&kind);
        let choice = match choose_template(&config.template, files) {
            Ok(c) => c,
            Err(e) => return Err(NewFileError::Template(e)),
        };
        let template = template_from_choice(&choice, &kind);
        let flag_ext = match flag {
            Some(f) => Some(String::from_str(f.as_str())),
            None => None,
        };
        let template_ext = choice_extension(&choice);
        let ext = get_extension_to_use(&own, &flag_ext, &template_ext, config.ext.as_str());
        let path = match Self::get_style_final_path(
            base.as_str(),
            ext.as_str(),
            config.folder.as_str(),
            probe.has_src,
            folder_exists,
        ) {
            Ok(p) => p,
            Err(e) => return Err(NewFileError::Path(e)),
        };
        let last = crate::names::last_segment(target.as_str());
        let stem = crate::names::file_stem(last.as_str());
        Ok(FinalNewStyleConfig {
            style_final_path: path,
            template,
            template_vars: template_name_variable(stem.as_str()),
        })
    }
}

} // verus!
