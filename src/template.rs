//! Finding the template of a new file, and rendering it.
//!
//! A custom template is a file `<name>.<ext>.hbs` (or `<name>.hbs`) in the
//! folder of its kind under `nextbutler/templates/`. Without a custom
//! template, each kind has built-in content.
use vstd::prelude::*;

use crate::names::{extension_of, file_extension, file_stem, stem_of};
use crate::segments::keep_if;
use crate::CreateableFileType;

verus! {

pub const DEFAULT_PAGE_TEMPLATE: &'static str = "export default function {{ name }}() {
    return (
        <div>
            <h1>\\o/</h1>
        </div>
    )
}
";

pub const DEFAULT_API_PAGE_TEMPLATE: &'static str = "// Next.js API route support: https://nextjs.org/docs/api-routes/introduction

export default function handler(req, res) {
  res.status(200).json({ name: 'John Doe' })
}";

pub const DEFAULT_COMPONENT_TEMPLATE: &'static str = "export default function {{ name }}() {
    return (
        <div>
            <h1>Hi! \\o/</h1>
        </div>
    )
}
";

pub const DEFAULT_STYLESHEET_TEMPLATE: &'static str = "html, body {
    background: red;
}
";

/// The content that a new file starts from.
#[derive(Clone, Debug)]
pub enum Template {
    /// Built-in content.
    Str(String),
    /// The path of a custom template file.
    Path(String),
}

/// The values that a template is rendered with.
#[derive(Clone, Debug)]
pub struct TemplateVariables {
    /// The name of the new file, in Pascal case.
    pub name: String,
}

/// Why no template could be had.
#[derive(Clone, Copy, Debug, PartialEq, Eq, Structural)]
pub enum TemplateError {
    /// No custom template has the given name.
    NotFound,
    /// Several custom templates have the given name; its extension tells
    /// them apart.
    Ambiguous,
    /// The template could not be rendered.
    Render,
}

/// The result of `convert_case`'s conversion to Pascal case.
pub uninterp spec fn pascal_case_of(s: Seq<char>) -> Seq<char>;

/// The result of rendering a handlebars template with one variable, or
/// `None` where handlebars reports an error.
pub uninterp spec fn handlebars_rendering(
    template: Seq<char>,
    key: Seq<char>,
    value: Seq<char>,
) -> Option<Seq<char>>;

#[verifier::external_type_specification]
#[verifier::external_body]
pub struct ExRenderError(handlebars::RenderError);

/// Relies on convert_case's `Casing::to_case` with `Case::Pascal`, whose
/// result depends on the text alone.
#[verifier::external_body]
fn pascal_case(s: &str) -> (r: String)
    ensures
        r@ == pascal_case_of(s@),
{
    convert_case::Casing::to_case(&s, convert_case::Case::Pascal)
}

/// A character that handlebars lets stand between `{{` and the `>` of a
/// partial: whitespace, the `~` that trims it, and the `#` of a partial
/// block.
pub open spec fn is_partial_lead(c: char) -> bool {
    c == ' ' || c == '\t' || c == '\n' || c == '\r' || c == '~' || c == '#'
}

/// From index `j` on, `s` reaches a `>` over lead characters only.
pub open spec fn partial_opener_at(s: Seq<char>, j: int) -> bool
    decreases s.len() - j,
{
    if j < 0 || j >= s.len() {
        false
    } else if s[j] == '>' {
        true
    } else if is_partial_lead(s[j]) {
        partial_opener_at(s, j + 1)
    } else {
        false
    }
}

/// The template text holds a partial tag (`{{>`, `{{#>`, with or without
/// `~` and whitespace), or something that could be read as one.
pub open spec fn has_partial_tag(s: Seq<char>) -> bool {
    exists|i: int|
        0 <= i && i + 1 < s.len() && s[i] == '{' && s[i + 1] == '{' && #[trigger] partial_opener_at(
            s,
            i + 2,
        )
}

/// Relies on `handlebars::Handlebars::render_template` on a registry with
/// its default settings, rendering with the single variable `key`; the
/// outcome depends on the three texts alone. A partial that includes itself
/// makes handlebars recurse without end, so the text may hold no partial
/// tag.
#[verifier::external_body]
fn render_with(template: &str, key: &str, value: &str) -> (r: Result<String, handlebars::RenderError>)
    requires
        !has_partial_tag(template@),
    ensures
        match r {
            Ok(s) => handlebars_rendering(template@, key@, value@) == Some(s@),
            Err(_) => handlebars_rendering(template@, key@, value@) is None,
        },
{
    let mut data = std::collections::BTreeMap::new();
    data.insert(key, value);
    handlebars::Handlebars::new().render_template(template, &data)
}

pub open spec fn name_key() -> Seq<char> {
    seq!['n', 'a', 'm', 'e']
}

pub open spec fn hbs_suffix() -> Seq<char> {
    seq!['.', 'h', 'b', 's']
}

/// The built-in content of each kind.
pub open spec fn default_template_text(kind: CreateableFileType) -> Seq<char> {
    match kind {
        CreateableFileType::Page => DEFAULT_PAGE_TEMPLATE@,
        CreateableFileType::ApiPage => DEFAULT_API_PAGE_TEMPLATE@,
        CreateableFileType::Stylesheet => DEFAULT_STYLESHEET_TEMPLATE@,
        CreateableFileType::Component => DEFAULT_COMPONENT_TEMPLATE@,
    }
}

/// The folder of the custom templates of each kind.
pub open spec fn custom_templates_dir(kind: CreateableFileType) -> Seq<char> {
    let root = seq!['n', 'e', 'x', 't', 'b', 'u', 't', 'l', 'e', 'r', '/'] + seq![
        't',
        'e',
        'm',
        'p',
        'l',
        'a',
        't',
        'e',
        's',
        '/',
    ];
    match kind {
        CreateableFileType::Page => root + seq!['p', 'a', 'g', 'e', 's', '/'],
        CreateableFileType::ApiPage => root + seq!['a', 'p', 'i', '-', 'p', 'a', 'g', 'e', 's', '/'],
        CreateableFileType::Stylesheet => root + seq![
            's',
            't',
            'y',
            'l',
            'e',
            's',
            'h',
            'e',
            'e',
            't',
            's',
            '/',
        ],
        CreateableFileType::Component => root + seq![
            'c',
            'o',
            'm',
            'p',
            'o',
            'n',
            'e',
            'n',
            't',
            's',
            '/',
        ],
    }
}

/// The name that a template file answers to: `card` for `card.tsx.hbs`.
pub open spec fn template_stem(file: Seq<char>) -> Seq<char> {
    stem_of(stem_of(file))
}

/// The extension that a template file encodes: `tsx` for `card.tsx.hbs`.
pub open spec fn template_file_extension(file: Seq<char>) -> Option<Seq<char>> {
    extension_of(stem_of(file))
}

/// The file is a template: its name ends in `.hbs`.
pub open spec fn is_template_file(f: Seq<char>) -> bool {
    f.len() >= 4 && f.skip(f.len() - 4) == hbs_suffix()
}

/// The template files that answer to `name`; files that do not end in
/// `.hbs` are not templates and answer to nothing.
pub open spec fn files_named(name: Seq<char>, files: Seq<Seq<char>>) -> Seq<Seq<char>> {
    keep_if(files, |f: Seq<char>| is_template_file(f) && template_stem(f) == name)
}

/// Which custom template file `name` picks among `files`: with an
/// extension, exactly `<name>.hbs`; without one, the single file that
/// answers to it.
pub open spec fn custom_template_file(name: Seq<char>, files: Seq<Seq<char>>) -> Result<
    Seq<char>,
    TemplateError,
> {
    if extension_of(name) is Some {
        if files.contains(name + hbs_suffix()) {
            Ok(name + hbs_suffix())
        } else {
            Err(TemplateError::NotFound)
        }
    } else {
        let found = files_named(name, files);
        if found.len() == 0 {
            Err(TemplateError::NotFound)
        } else if found.len() > 1 {
            Err(TemplateError::Ambiguous)
        } else {
            Ok(found[0])
        }
    }
}

/// What the template of a file of `kind` is: the built-in content (`None`)
/// or a custom template file.
pub open spec fn template_choice(
    name: Option<Seq<char>>,
    kind: CreateableFileType,
    files: Seq<Seq<char>>,
) -> Result<Option<Seq<char>>, TemplateError> {
    match name {
        None => Ok(None),
        Some(n) => match custom_template_file(n, files) {
            Ok(f) => Ok(Some(f)),
            Err(e) => Err(e),
        },
    }
}

/// The template matches the choice made for a file of `kind`.
pub open spec fn template_matches(
    t: Template,
    choice: Option<Seq<char>>,
    kind: CreateableFileType,
) -> bool {
    match t {
        Template::Str(c) => choice is None && c@ == default_template_text(kind),
        Template::Path(p) => choice matches Some(f) && p@ == custom_templates_dir(kind) + f,
    }
}

/// The outcome of resolving a template, against the choice it should make.
pub open spec fn template_result_matches(
    r: Result<Template, TemplateError>,
    choice: Result<Option<Seq<char>>, TemplateError>,
    kind: CreateableFileType,
) -> bool {
    match r {
        Ok(t) => choice matches Ok(c) && template_matches(t, c, kind),
        Err(e) => choice == Err::<Option<Seq<char>>, TemplateError>(e),
    }
}

/// The extension that a template encodes: only a custom template file can.
pub open spec fn encoded_extension(choice: Option<Seq<char>>) -> Option<Seq<char>> {
    match choice {
        Some(f) => template_file_extension(f),
        None => None,
    }
}

fn literal(s: &str) -> (r: String)
    ensures
        r@ == s@,
{
    String::from_str(s)
}

/// The folder of the custom templates of each kind.
pub fn get_custom_templates_dir(kind: &CreateableFileType) -> (r: String)
    ensures
        r@ == custom_templates_dir(*kind),
{
    proof {
        reveal_strlit("nextbutler/templates/");
        reveal_strlit("pages/");
        reveal_strlit("api-pages/");
        reveal_strlit("stylesheets/");
        reveal_strlit("components/");
    }
    let mut dir = literal("nextbutler/templates/");
    let sub = match kind {
        CreateableFileType::Page => "pages/",
        CreateableFileType::ApiPage => "api-pages/",
        CreateableFileType::Stylesheet => "stylesheets/",
        CreateableFileType::Component => "components/",
    };
    dir.append(sub);
    assert(dir@ =~= custom_templates_dir(*kind));
    dir
}

/// The built-in template of each kind.
pub fn get_default_template(kind: &CreateableFileType) -> (r: Template)
    ensures
        template_matches(r, None, *kind),
{
    let content = match kind {
        CreateableFileType::Page => DEFAULT_PAGE_TEMPLATE,
        CreateableFileType::ApiPage => DEFAULT_API_PAGE_TEMPLATE,
        CreateableFileType::Stylesheet => DEFAULT_STYLESHEET_TEMPLATE,
        CreateableFileType::Component => DEFAULT_COMPONENT_TEMPLATE,
    };
    Template::Str(literal(content))
}

/// Whether `files` holds `name`.
fn contains_name(files: &Vec<String>, name: &String) -> (r: bool)
    ensures
        r == crate::segments::views(files@).contains(name@),
{
    let mut i: usize = 0;
    while i < files.len()
        invariant
            i <= files.len(),
            forall|j: int| 0 <= j < i ==> files@[j]@ != name@,
        decreases files.len() - i,
    {
        if files[i] == *name {
            assert(crate::segments::views(files@)[i as int] == name@);
            return true;
        }
        i = i + 1;
    }
    proof {
        if crate::segments::views(files@).contains(name@) {
            let j = choose|j: int|
                0 <= j < files.len() && #[trigger] crate::segments::views(files@)[j] == name@;
            assert(files@[j]@ == name@);
        }
    }
    false
}

/// The name that a template file answers to.
pub fn get_template_stem(file: &str) -> (r: String)
    ensures
        r@ == template_stem(file@),
{
    let s = file_stem(file);
    file_stem(s.as_str())
}

/// The extension that a template file encodes.
pub fn get_template_file_extension(file: &str) -> (r: Option<String>)
    ensures
        match r {
            Some(e) => template_file_extension(file@) == Some(e@),
            None => template_file_extension(file@) is None,
        },
{
    let s = file_stem(file);
    file_extension(s.as_str())
}

/// Whether the file name ends in `.hbs`.
pub fn has_hbs_suffix(f: &str) -> (r: bool)
    ensures
        r == is_template_file(f@),
{
    let n = f.unicode_len();
    if n < 4 {
        return false;
    }
    let r = f.get_char(n - 4) == '.' && f.get_char(n - 3) == 'h' && f.get_char(n - 2) == 'b'
        && f.get_char(n - 1) == 's';
    if r {
        assert(f@.skip(n - 4) =~= hbs_suffix());
    } else {
        assert(f@.skip(n - 4)[0] == f@[n - 4]);
        assert(f@.skip(n - 4)[1] == f@[n - 3]);
        assert(f@.skip(n - 4)[2] == f@[n - 2]);
        assert(f@.skip(n - 4)[3] == f@[n - 1]);
    }
    r
}

/// The template files among `files` that answer to `name`.
fn find_named(name: &String, files: &Vec<String>) -> (r: Vec<String>)
    ensures
        crate::segments::views(r@) == files_named(name@, crate::segments::views(files@)),
{
    let mut out: Vec<String> = Vec::new();
    let mut i: usize = 0;
    let ghost p = |f: Seq<char>| is_template_file(f) && template_stem(f) == name@;
    assert(crate::segments::views(files@).take(0) =~= Seq::<Seq<char>>::empty());
    assert(crate::segments::views(out@) =~= Seq::<Seq<char>>::empty());
    while i < files.len()
        invariant
            i <= files.len(),
            p == (|f: Seq<char>| is_template_file(f) && template_stem(f) == name@),
            crate::segments::views(out@) == keep_if(
                crate::segments::views(files@).take(i as int),
                p,
            ),
        decreases files.len() - i,
    {
        let f = &files[i];
        assert(crate::segments::views(files@).take(i + 1).drop_last() =~= crate::segments::views(
            files@,
        ).take(i as int));
        assert(crate::segments::views(files@).take(i + 1).last() == f@);
        let stem = get_template_stem(f.as_str());
        if has_hbs_suffix(f.as_str()) && stem == *name {
            let ghost before = out@;
            out.push(f.clone());
            assert(crate::segments::views(out@) =~= crate::segments::views(before).push(f@));
        }
        i = i + 1;
    }
    assert(crate::segments::views(files@).take(files.len() as int) =~= crate::segments::views(
        files@,
    ));
    out
}

/// Finds the custom template file that `template_name` picks among
/// `files`. A name with an extension picks the file `<name>.hbs`; a name
/// without one picks the single file that answers to it, and several such
/// files are an error.
pub fn find_custom_template_file(template_name: &str, files: &Vec<String>) -> (r: Result<
    String,
    TemplateError,
>)
    ensures
        match r {
            Ok(f) => custom_template_file(template_name@, crate::segments::views(files@)) == Ok::<
                Seq<char>,
                TemplateError,
            >(f@),
            Err(e) => custom_template_file(template_name@, crate::segments::views(files@)) == Err::<
                Seq<char>,
                TemplateError,
            >(e),
        },
{
    let name = template_name.to_owned();
    match file_extension(template_name) {
        Some(_) => {
            let mut file = name.clone();
            proof {
                reveal_strlit(".hbs");
            }
            file.append(".hbs");
            assert(file@ =~= name@ + hbs_suffix());
            if contains_name(files, &file) {
                Ok(file)
            } else {
                Err(TemplateError::NotFound)
            }
        },
        None => {
            let found = find_named(&name, files);
            if found.len() == 0 {
                Err(TemplateError::NotFound)
            } else if found.len() > 1 {
                Err(TemplateError::Ambiguous)
            } else {
                assert(found@[0]@ == crate::segments::views(found@)[0]);
                Ok(found[0].clone())
            }
        },
    }
}

/// Finds the custom template `template_name` among `files`, the files of
/// the custom template folder of `kind`.
pub fn get_custom_template(
    template_name: &str,
    kind: &CreateableFileType,
    files: &Vec<String>,
) -> (r: Result<Template, TemplateError>)
    ensures
        template_result_matches(
            r,
            template_choice(Some(template_name@), *kind, crate::segments::views(files@)),
            *kind,
        ),
{
    match find_custom_template_file(template_name, files) {
        Ok(f) => {
            let mut path = get_custom_templates_dir(kind);
            path.append(f.as_str());
            Ok(Template::Path(path))
        },
        Err(e) => Err(e),
    }
}

/// Which template a file gets: `None` for the built-in content where no
/// name is given, else the custom template file that the name picks.
pub fn choose_template(template_name: &Option<String>, files: &Vec<String>) -> (r: Result<
    Option<String>,
    TemplateError,
>)
    ensures
        match r {
            Ok(c) => template_choice(
                crate::config::opt_view(*template_name),
                CreateableFileType::Page,
                crate::segments::views(files@),
            ) == Ok::<Option<Seq<char>>, TemplateError>(crate::config::opt_view(c)),
            Err(e) => template_choice(
                crate::config::opt_view(*template_name),
                CreateableFileType::Page,
                crate::segments::views(files@),
            ) == Err::<Option<Seq<char>>, TemplateError>(e),
        },
{
    match template_name {
        None => Ok(None),
        Some(n) => match find_custom_template_file(n.as_str(), files) {
            Ok(f) => Ok(Some(f)),
            Err(e) => Err(e),
        },
    }
}

/// The template of a file of `kind` for the choice made.
pub fn template_from_choice(choice: &Option<String>, kind: &CreateableFileType) -> (r: Template)
    ensures
        template_matches(r, crate::config::opt_view(*choice), *kind),
{
    match choice {
        None => get_default_template(kind),
        Some(f) => {
            let mut path = get_custom_templates_dir(kind);
            path.append(f.as_str());
            Template::Path(path)
        },
    }
}

/// The extension that the chosen template encodes.
pub fn choice_extension(choice: &Option<String>) -> (r: Option<String>)
    ensures
        crate::config::opt_view(r) == encoded_extension(crate::config::opt_view(*choice)),
{
    match choice {
        None => None,
        Some(f) => get_template_file_extension(f.as_str()),
    }
}

/// The template named by `template_name`, or the built-in one of `kind`
/// where no name is given.
pub fn resolve_template(
    template_name: &Option<String>,
    kind: &CreateableFileType,
    files: &Vec<String>,
) -> (r: Result<Template, TemplateError>)
    ensures
        template_result_matches(
            r,
            template_choice(crate::config::opt_view(*template_name), *kind, crate::segments::views(files@)),
            *kind,
        ),
{
    match choose_template(template_name, files) {
        Ok(c) => Ok(template_from_choice(&c, kind)),
        Err(e) => Err(e),
    }
}

/// The files of each custom template folder.
#[derive(Clone, Debug)]
pub struct TemplateFolders {
    pub pages: Vec<String>,
    pub api_pages: Vec<String>,
    pub stylesheets: Vec<String>,
    pub components: Vec<String>,
}

impl TemplateFolders {
    pub open spec fn files(&self, kind: CreateableFileType) -> Seq<Seq<char>> {
        crate::segments::views(
            match kind {
                CreateableFileType::Page => self.pages@,
                CreateableFileType::ApiPage => self.api_pages@,
                CreateableFileType::Stylesheet => self.stylesheets@,
                CreateableFileType::Component => self.components@,
            },
        )
    }

    /// The files of the custom template folder of `kind`.
    pub fn files_of(&self, kind: &CreateableFileType) -> (r: &Vec<String>)
        ensures
            crate::segments::views(r@) == self.files(*kind),
    {
        match kind {
            CreateableFileType::Page => &self.pages,
            CreateableFileType::ApiPage => &self.api_pages,
            CreateableFileType::Stylesheet => &self.stylesheets,
            CreateableFileType::Component => &self.components,
        }
    }
}

/// The name of a new file as its template wants it: its stem in Pascal case.
pub fn template_name_variable(stem: &str) -> (r: TemplateVariables)
    ensures
        r.name@ == pascal_case_of(stem@),
{
    TemplateVariables { name: pascal_case(stem) }
}

/// Whether `s` reaches a `>` from index `j` over lead characters only.
fn partial_opener_from(s: &str, j: usize) -> (r: bool)
    requires
        j <= s@.len(),
    ensures
        r == partial_opener_at(s@, j as int),
{
    let n = s.unicode_len();
    let mut k: usize = j;
    while k < n
        invariant
            n == s@.len(),
            j <= k <= n,
            partial_opener_at(s@, j as int) == partial_opener_at(s@, k as int),
        decreases n - k,
    {
        let c = s.get_char(k);
        if c == '>' {
            return true;
        }
        if !(c == ' ' || c == '\t' || c == '\n' || c == '\r' || c == '~' || c == '#') {
            return false;
        }
        k = k + 1;
    }
    false
}

/// Whether the template text holds a partial tag.
pub fn contains_partial_tag(s: &str) -> (r: bool)
    ensures
        r == has_partial_tag(s@),
{
    let n = s.unicode_len();
    let mut i: usize = 0;
    while i < n && i + 1 < n
        invariant
            n == s@.len(),
            i <= n,
            forall|k: int|
                0 <= k < i && k + 1 < n ==> !(s@[k] == '{' && s@[k + 1] == '{' && #[trigger] partial_opener_at(
                    s@,
                    k + 2,
                )),
        decreases n - i,
    {
        if s.get_char(i) == '{' && s.get_char(i + 1) == '{' && partial_opener_from(s, i + 2) {
            return true;
        }
        i = i + 1;
    }
    proof {
        if has_partial_tag(s@) {
            let k = choose|k: int|
                0 <= k && k + 1 < s@.len() && s@[k] == '{' && s@[k + 1] == '{' && #[trigger] partial_opener_at(
                    s@,
                    k + 2,
                );
            assert(k < i);
        }
    }
    false
}

/// Renders template text with the variable `name`. Text that holds a
/// partial tag is refused: a partial that includes itself would never
/// finish rendering.
pub fn render_template(template_text: &str, vars: &TemplateVariables) -> (r: Result<
    String,
    TemplateError,
>)
    ensures
        has_partial_tag(template_text@) ==> r == Err::<String, TemplateError>(TemplateError::Render),
        !has_partial_tag(template_text@) ==> match r {
            Ok(s) => handlebars_rendering(template_text@, name_key(), vars.name@) == Some(s@),
            Err(e) => e == TemplateError::Render && handlebars_rendering(
                template_text@,
                name_key(),
                vars.name@,
            ) is None,
        },
{
    if contains_partial_tag(template_text) {
        return Err(TemplateError::Render);
    }
    proof {
        reveal_strlit("name");
    }
    assert("name"@ =~= name_key());
    match render_with(template_text, "name", vars.name.as_str()) {
        Ok(s) => Ok(s),
        Err(_) => Err(TemplateError::Render),
    }
}

} // verus!
